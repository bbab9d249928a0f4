//! The guest's content-addressed layer store: extracted layers keyed by
//! digest, cached image manifests keyed by reference, and the live overlays
//! of workloads. This module holds the store's bookkeeping and decisions;
//! the agent performs the matching filesystem work.

use vstd::prelude::*;
use crate::paths::{bundle_dir, layer_dir, merged_rootfs_path};

verus! {

/// An extracted layer.
#[derive(Debug, Clone)]
pub struct LayerEntry {
    pub digest: String,
    pub size: u64,
}

/// A cached, parsed image manifest.
#[derive(Debug, Clone)]
pub struct ImageManifest {
    pub reference: String,
    pub digest: String,
    pub os: String,
    pub architecture: String,
    /// Layer digests, base layer first.
    pub layers: Vec<String>,
    pub config_digest: String,
    pub size: u64,
}

/// A live overlay of a workload and the layers beneath it.
#[derive(Debug, Clone)]
pub struct OverlayRecord {
    pub workload_id: String,
    pub image: String,
    pub layers: Vec<String>,
}

/// What a query about a cached image reports.
#[derive(Debug, Clone)]
pub struct ImageInfo {
    pub reference: String,
    pub digest: String,
    pub size: u64,
    pub architecture: String,
    pub os: String,
    pub layer_count: usize,
}

/// What preparing an overlay reports.
#[derive(Debug, Clone)]
pub struct OverlayInfo {
    pub rootfs_path: String,
    pub bundle_path: String,
    pub layers: Vec<String>,
}

/// Summary of the storage disk.
#[derive(Debug, Clone, Copy, PartialEq, Eq)]
pub struct StorageStatus {
    pub total_bytes: u64,
    pub used_bytes: u64,
    pub layer_count: u64,
    pub image_count: u64,
}

/// Failures of layer store operations.
#[derive(Debug, Clone, PartialEq, Eq)]
pub enum StoreError {
    /// No manifest is cached for the reference.
    ImageNotFound,
    /// The workload already has an overlay.
    OverlayExists,
    /// The workload has no overlay.
    OverlayNotFound,
    /// A layer that the manifest names was neither stored nor extracted.
    LayerMissing,
    /// The total size of the layers would not fit in 64 bits.
    SizeOverflow,
}

pub struct ManifestView {
    pub reference: Seq<char>,
    pub digest: Seq<char>,
    pub os: Seq<char>,
    pub architecture: Seq<char>,
    pub layers: Seq<Seq<char>>,
    pub config_digest: Seq<char>,
    pub size: u64,
}

pub struct StoreView {
    /// (digest, size) of each stored layer.
    pub layers: Seq<(Seq<char>, u64)>,
    pub manifests: Seq<ManifestView>,
    /// (workload id, layer digests) of each live overlay.
    pub overlays: Seq<(Seq<char>, Seq<Seq<char>>)>,
}

pub open spec fn texts(v: Seq<String>) -> Seq<Seq<char>> {
    v.map_values(|s: String| s@)
}

impl View for LayerEntry {
    type V = (Seq<char>, u64);

    open spec fn view(&self) -> (Seq<char>, u64) {
        (self.digest@, self.size)
    }
}

impl View for ImageManifest {
    type V = ManifestView;

    open spec fn view(&self) -> ManifestView {
        ManifestView {
            reference: self.reference@,
            digest: self.digest@,
            os: self.os@,
            architecture: self.architecture@,
            layers: texts(self.layers@),
            config_digest: self.config_digest@,
            size: self.size,
        }
    }
}

impl View for OverlayRecord {
    type V = (Seq<char>, Seq<Seq<char>>);

    open spec fn view(&self) -> (Seq<char>, Seq<Seq<char>>) {
        (self.workload_id@, texts(self.layers@))
    }
}

/// The layer store.
pub struct LayerStore {
    layers: Vec<LayerEntry>,
    manifests: Vec<ImageManifest>,
    overlays: Vec<OverlayRecord>,
}

impl View for LayerStore {
    type V = StoreView;

    closed spec fn view(&self) -> StoreView {
        StoreView {
            layers: self.layers@.map_values(|l: LayerEntry| l@),
            manifests: self.manifests@.map_values(|m: ImageManifest| m@),
            overlays: self.overlays@.map_values(|o: OverlayRecord| o@),
        }
    }
}

/// The layer `d` is stored.
pub open spec fn has_layer(v: StoreView, d: Seq<char>) -> bool {
    exists|i: int| 0 <= i < v.layers.len() && (#[trigger] v.layers[i]).0 == d
}

/// Some cached manifest names the layer `d`.
pub open spec fn referenced(v: StoreView, d: Seq<char>) -> bool {
    exists|i: int| 0 <= i < v.manifests.len() && (#[trigger] v.manifests[i]).layers.contains(d)
}

/// Some live overlay sits on the layer `d`.
pub open spec fn in_overlay(v: StoreView, d: Seq<char>) -> bool {
    exists|i: int| 0 <= i < v.overlays.len() && (#[trigger] v.overlays[i]).1.contains(d)
}

/// Reference count of a layer: the number of cached manifests that name it.
pub open spec fn ref_count(ms: Seq<ManifestView>, d: Seq<char>) -> nat
    decreases ms.len(),
{
    if ms.len() == 0 {
        0
    } else {
        ref_count(ms.drop_last(), d) + (if ms.last().layers.contains(d) { 1nat } else { 0nat })
    }
}

/// A layer that garbage collection removes: no manifest names it and no
/// live overlay uses it.
pub open spec fn eligible(v: StoreView, d: Seq<char>) -> bool {
    !referenced(v, d) && !in_overlay(v, d)
}

pub open spec fn sum_sizes(ls: Seq<(Seq<char>, u64)>) -> nat
    decreases ls.len(),
{
    if ls.len() == 0 {
        0
    } else {
        sum_sizes(ls.drop_last()) + ls.last().1 as nat
    }
}

/// The layers of `ls` that garbage collection keeps, in order.
pub open spec fn kept(ls: Seq<(Seq<char>, u64)>, v: StoreView) -> Seq<(Seq<char>, u64)>
    decreases ls.len(),
{
    if ls.len() == 0 {
        ls
    } else if eligible(v, ls.last().0) {
        kept(ls.drop_last(), v)
    } else {
        kept(ls.drop_last(), v).push(ls.last())
    }
}

/// The bytes of the layers of `ls` that garbage collection removes.
pub open spec fn freed(ls: Seq<(Seq<char>, u64)>, v: StoreView) -> nat
    decreases ls.len(),
{
    if ls.len() == 0 {
        0
    } else {
        freed(ls.drop_last(), v) + (if eligible(v, ls.last().0) { ls.last().1 as nat } else { 0nat })
    }
}

/// The bytes that garbage collection frees in the store `v`.
pub open spec fn freed_bytes(v: StoreView) -> nat {
    freed(v.layers, v)
}

/// The store after garbage collection.
pub open spec fn gc_post(v: StoreView) -> StoreView {
    StoreView { layers: kept(v.layers, v), ..v }
}

/// Well-formedness: keys are unique, every layer named by a cached manifest
/// or a live overlay is stored, and the sizes sum within 64 bits.
pub open spec fn store_wf(v: StoreView) -> bool {
    &&& forall|i: int, j: int|
        0 <= i < v.layers.len() && 0 <= j < v.layers.len() && i != j ==> (#[trigger] v.layers[i]).0
            != (#[trigger] v.layers[j]).0
    &&& forall|i: int, j: int|
        0 <= i < v.manifests.len() && 0 <= j < v.manifests.len() && i != j
            ==> (#[trigger] v.manifests[i]).reference != (#[trigger] v.manifests[j]).reference
    &&& forall|i: int, j: int|
        0 <= i < v.overlays.len() && 0 <= j < v.overlays.len() && i != j
            ==> (#[trigger] v.overlays[i]).0 != (#[trigger] v.overlays[j]).0
    &&& forall|i: int, k: int|
        0 <= i < v.manifests.len() && 0 <= k < v.manifests[i].layers.len() ==> has_layer(
            v,
            #[trigger] v.manifests[i].layers[k],
        )
    &&& forall|i: int, k: int|
        0 <= i < v.overlays.len() && 0 <= k < v.overlays[i].1.len() ==> has_layer(
            v,
            #[trigger] v.overlays[i].1[k],
        )
    &&& sum_sizes(v.layers) <= u64::MAX
}

pub proof fn lemma_kept_freed_split(ls: Seq<(Seq<char>, u64)>, v: StoreView)
    ensures
        sum_sizes(ls) == sum_sizes(kept(ls, v)) + freed(ls, v),
        freed(ls, v) <= sum_sizes(ls),
    decreases ls.len(),
{
    if ls.len() > 0 {
        lemma_kept_freed_split(ls.drop_last(), v);
        let k = kept(ls.drop_last(), v);
        assert(k.push(ls.last()).drop_last() =~= k);
    }
}

pub proof fn lemma_ref_count_zero(ms: Seq<ManifestView>, d: Seq<char>)
    ensures
        ref_count(ms, d) == 0 <==> !(exists|i: int| 0 <= i < ms.len() && (#[trigger] ms[i]).layers.contains(d)),
    decreases ms.len(),
{
    if ms.len() > 0 {
        lemma_ref_count_zero(ms.drop_last(), d);
        if ref_count(ms, d) == 0 {
            assert forall|i: int| 0 <= i < ms.len() implies !(#[trigger] ms[i]).layers.contains(d) by {
                if i < ms.len() - 1 {
                    assert(ms.drop_last()[i] == ms[i]);
                }
            }
        } else {
            if !ms.last().layers.contains(d) {
                let i = choose|i: int| 0 <= i < ms.drop_last().len() && (#[trigger] ms.drop_last()[i]).layers.contains(d);
                assert(ms[i] == ms.drop_last()[i]);
            }
        }
    }
}

fn contains_str(v: &Vec<String>, s: &String) -> (r: bool)
    ensures
        r == texts(v@).contains(s@),
{
    let mut i: usize = 0;
    while i < v.len()
        invariant
            0 <= i <= v@.len(),
            forall|j: int| 0 <= j < i ==> (#[trigger] v@[j])@ != s@,
        decreases v@.len() - i,
    {
        if v[i] == *s {
            assert(texts(v@)[i as int] == s@);
            return true;
        }
        i = i + 1;
    }
    proof {
        if texts(v@).contains(s@) {
            let j = choose|j: int| 0 <= j < texts(v@).len() && texts(v@)[j] == s@;
            assert(v@[j]@ == s@);
        }
    }
    false
}

/// The digests of the layers of `ls` that garbage collection removes, in order.
pub open spec fn removed(ls: Seq<(Seq<char>, u64)>, v: StoreView) -> Seq<Seq<char>>
    decreases ls.len(),
{
    if ls.len() == 0 {
        Seq::empty()
    } else if eligible(v, ls.last().0) {
        removed(ls.drop_last(), v).push(ls.last().0)
    } else {
        removed(ls.drop_last(), v)
    }
}

pub proof fn lemma_sum_prefix(ls: Seq<(Seq<char>, u64)>, i: int)
    requires
        0 <= i <= ls.len(),
    ensures
        sum_sizes(ls.subrange(0, i)) <= sum_sizes(ls),
    decreases ls.len() - i,
{
    if i < ls.len() {
        lemma_sum_prefix(ls, i + 1);
        assert(ls.subrange(0, i + 1).drop_last() =~= ls.subrange(0, i));
    } else {
        assert(ls.subrange(0, i) =~= ls);
    }
}

/// Every layer that garbage collection keeps was in the store and is not eligible.
pub proof fn lemma_kept_from(ls: Seq<(Seq<char>, u64)>, v: StoreView)
    ensures
        forall|j: int| 0 <= j < kept(ls, v).len() ==> ls.contains(#[trigger] kept(ls, v)[j])
            && !eligible(v, kept(ls, v)[j].0),
        kept(ls, v).len() <= ls.len(),
    decreases ls.len(),
{
    if ls.len() > 0 {
        lemma_kept_from(ls.drop_last(), v);
        let k = kept(ls.drop_last(), v);
        assert forall|j: int| 0 <= j < kept(ls, v).len() implies ls.contains(#[trigger] kept(ls, v)[j])
            && !eligible(v, kept(ls, v)[j].0) by {
            if j < k.len() {
                assert(kept(ls, v)[j] == k[j]);
                let x = choose|x: int| 0 <= x < ls.drop_last().len() && ls.drop_last()[x] == k[j];
                assert(ls[x] == k[j]);
            } else {
                assert(kept(ls, v)[j] == ls[ls.len() - 1]);
            }
        }
    }
}

/// A layer that garbage collection does not remove stays stored.
pub proof fn lemma_kept_keeps(ls: Seq<(Seq<char>, u64)>, v: StoreView, i: int)
    requires
        0 <= i < ls.len(),
        !eligible(v, ls[i].0),
    ensures
        kept(ls, v).contains(ls[i]),
    decreases ls.len(),
{
    if i == ls.len() - 1 {
        assert(kept(ls, v).last() == ls[i]);
    } else {
        lemma_kept_keeps(ls.drop_last(), v, i);
        let k = kept(ls.drop_last(), v);
        let x = choose|x: int| 0 <= x < k.len() && k[x] == ls[i];
        assert(kept(ls, v)[x] == ls[i]);
    }
}

/// A layer that garbage collection removes is gone afterwards.
pub proof fn lemma_kept_drops(ls: Seq<(Seq<char>, u64)>, v: StoreView, d: Seq<char>)
    requires
        eligible(v, d),
    ensures
        forall|j: int| 0 <= j < kept(ls, v).len() ==> (#[trigger] kept(ls, v)[j]).0 != d,
{
    lemma_kept_from(ls, v);
}

pub proof fn lemma_kept_distinct(ls: Seq<(Seq<char>, u64)>, v: StoreView)
    requires
        forall|i: int, j: int| 0 <= i < ls.len() && 0 <= j < ls.len() && i != j ==> (#[trigger] ls[i]).0 != (#[trigger] ls[j]).0,
    ensures
        forall|i: int, j: int|
            0 <= i < kept(ls, v).len() && 0 <= j < kept(ls, v).len() && i != j ==> (#[trigger] kept(ls, v)[i]).0
                != (#[trigger] kept(ls, v)[j]).0,
    decreases ls.len(),
{
    if ls.len() > 0 {
        let dl = ls.drop_last();
        assert forall|i: int, j: int| 0 <= i < dl.len() && 0 <= j < dl.len() && i != j implies (#[trigger] dl[i]).0 != (#[trigger] dl[j]).0 by {
            assert(dl[i] == ls[i] && dl[j] == ls[j]);
        }
        lemma_kept_distinct(dl, v);
        lemma_kept_from(dl, v);
        let k = kept(dl, v);
        if !eligible(v, ls.last().0) {
            assert forall|i: int, j: int|
                0 <= i < kept(ls, v).len() && 0 <= j < kept(ls, v).len() && i != j implies (#[trigger] kept(ls, v)[i]).0
                    != (#[trigger] kept(ls, v)[j]).0 by {
                if i < k.len() && j < k.len() {
                    assert(kept(ls, v)[i] == k[i] && kept(ls, v)[j] == k[j]);
                } else if i < k.len() {
                    assert(dl.contains(k[i]));
                    let x = choose|x: int| 0 <= x < dl.len() && dl[x] == k[i];
                    assert(ls[x] == k[i]);
                    assert(ls[ls.len() - 1] == kept(ls, v)[j]);
                } else {
                    assert(dl.contains(k[j]));
                    let x = choose|x: int| 0 <= x < dl.len() && dl[x] == k[j];
                    assert(ls[x] == k[j]);
                    assert(ls[ls.len() - 1] == kept(ls, v)[i]);
                }
            }
        }
    }
}

pub proof fn lemma_kept_sum(ls: Seq<(Seq<char>, u64)>, v: StoreView)
    ensures
        sum_sizes(kept(ls, v)) <= sum_sizes(ls),
{
    lemma_kept_freed_split(ls, v);
}

/// The layer sequence `ls` has an entry for `d`.
pub open spec fn has_key(ls: Seq<(Seq<char>, u64)>, d: Seq<char>) -> bool {
    exists|i: int| 0 <= i < ls.len() && (#[trigger] ls[i]).0 == d
}

/// The stored layers after adding the extracted layers `f` that are not
/// stored yet, in order, the first of equal digests winning.
pub open spec fn add_layers(ls: Seq<(Seq<char>, u64)>, f: Seq<(Seq<char>, u64)>) -> Seq<(Seq<char>, u64)>
    decreases f.len(),
{
    if f.len() == 0 {
        ls
    } else {
        let base = add_layers(ls, f.drop_last());
        if has_key(base, f.last().0) {
            base
        } else {
            base.push(f.last())
        }
    }
}

/// A manifest for `r` is cached.
pub open spec fn has_image(v: StoreView, r: Seq<char>) -> bool {
    exists|i: int| 0 <= i < v.manifests.len() && (#[trigger] v.manifests[i]).reference == r
}

/// The manifests after caching `m`: it replaces the one for the same
/// reference, or is appended.
pub open spec fn upsert(ms: Seq<ManifestView>, m: ManifestView) -> Seq<ManifestView> {
    if exists|i: int| 0 <= i < ms.len() && (#[trigger] ms[i]).reference == m.reference {
        let i = choose|i: int| 0 <= i < ms.len() && (#[trigger] ms[i]).reference == m.reference;
        ms.update(i, m)
    } else {
        ms.push(m)
    }
}

/// A pull of `m` with the extracted layers `f` succeeds: every layer that
/// `m` names is stored or extracted, and the sizes still sum within 64 bits.
pub open spec fn pull_ok(v: StoreView, m: ManifestView, f: Seq<(Seq<char>, u64)>) -> bool {
    &&& forall|k: int| 0 <= k < m.layers.len() ==> has_key(add_layers(v.layers, f), #[trigger] m.layers[k])
    &&& sum_sizes(add_layers(v.layers, f)) <= u64::MAX
}

/// The store after a successful pull of `m` with the extracted layers `f`.
pub open spec fn pull_post(v: StoreView, m: ManifestView, f: Seq<(Seq<char>, u64)>) -> StoreView {
    StoreView { layers: add_layers(v.layers, f), manifests: upsert(v.manifests, m), overlays: v.overlays }
}

pub open spec fn distinct_keys(ls: Seq<(Seq<char>, u64)>) -> bool {
    forall|i: int, j: int| 0 <= i < ls.len() && 0 <= j < ls.len() && i != j ==> (#[trigger] ls[i]).0 != (#[trigger] ls[j]).0
}

/// Adding layers keeps what was stored, adds every extracted digest, and
/// keeps digests distinct.
pub proof fn lemma_add_layers(ls: Seq<(Seq<char>, u64)>, f: Seq<(Seq<char>, u64)>)
    requires
        distinct_keys(ls),
    ensures
        distinct_keys(add_layers(ls, f)),
        ls.len() <= add_layers(ls, f).len(),
        forall|i: int| 0 <= i < ls.len() ==> #[trigger] add_layers(ls, f)[i] == ls[i],
        forall|k: int| 0 <= k < f.len() ==> has_key(add_layers(ls, f), #[trigger] f[k].0),
        forall|d: Seq<char>| #[trigger] has_key(add_layers(ls, f), d) ==> has_key(ls, d) || exists|k: int| 0 <= k < f.len() && (#[trigger] f[k]).0 == d,
    decreases f.len(),
{
    if f.len() > 0 {
        let dl = f.drop_last();
        lemma_add_layers(ls, dl);
        let base = add_layers(ls, dl);
        assert forall|k: int| 0 <= k < f.len() implies has_key(add_layers(ls, f), #[trigger] f[k].0) by {
            if k < f.len() - 1 {
                assert(f[k] == dl[k]);
                let x = choose|x: int| 0 <= x < base.len() && (#[trigger] base[x]).0 == dl[k].0;
                assert(add_layers(ls, f)[x] == base[x]);
            } else if !has_key(base, f.last().0) {
                assert(add_layers(ls, f)[base.len() as int] == f.last());
            }
        }
        assert forall|d: Seq<char>| #[trigger] has_key(add_layers(ls, f), d) implies has_key(ls, d) || exists|k: int| 0 <= k < f.len() && (#[trigger] f[k]).0 == d by {
            let x = choose|x: int| 0 <= x < add_layers(ls, f).len() && (#[trigger] add_layers(ls, f)[x]).0 == d;
            if x < base.len() {
                assert(add_layers(ls, f)[x] == base[x]);
                assert(has_key(base, d));
                if !has_key(ls, d) {
                    let k = choose|k: int| 0 <= k < dl.len() && (#[trigger] dl[k]).0 == d;
                    assert(f[k] == dl[k]);
                }
            } else {
                assert(f[f.len() - 1].0 == d);
            }
        }
        if !has_key(base, f.last().0) {
            let r = base.push(f.last());
            assert forall|i: int, j: int| 0 <= i < r.len() && 0 <= j < r.len() && i != j implies (#[trigger] r[i]).0 != (#[trigger] r[j]).0 by {
                if i < base.len() && j < base.len() {
                } else if i < base.len() {
                    assert(base[i] == r[i]);
                } else {
                    assert(base[j] == r[j]);
                }
            }
        }
    }
}

/// Adding layers that are all stored already changes nothing.
pub proof fn lemma_add_layers_present(ls: Seq<(Seq<char>, u64)>, f: Seq<(Seq<char>, u64)>)
    requires
        forall|k: int| 0 <= k < f.len() ==> has_key(ls, #[trigger] f[k].0),
    ensures
        add_layers(ls, f) == ls,
    decreases f.len(),
{
    if f.len() > 0 {
        let dl = f.drop_last();
        assert forall|k: int| 0 <= k < dl.len() implies has_key(ls, #[trigger] dl[k].0) by {
            assert(dl[k] == f[k]);
        }
        lemma_add_layers_present(ls, dl);
        assert(has_key(ls, f[f.len() - 1].0));
    }
}

/// The workload `w` has a live overlay.
pub open spec fn has_overlay(v: StoreView, w: Seq<char>) -> bool {
    exists|i: int| 0 <= i < v.overlays.len() && (#[trigger] v.overlays[i]).0 == w
}

/// The layers of the manifest cached for `r`.
pub open spec fn image_layers(v: StoreView, r: Seq<char>) -> Seq<Seq<char>> {
    let i = choose|i: int| 0 <= i < v.manifests.len() && (#[trigger] v.manifests[i]).reference == r;
    v.manifests[i].layers
}

/// The store after preparing an overlay of the image `r` for the workload `w`.
pub open spec fn prepare_post(v: StoreView, r: Seq<char>, w: Seq<char>) -> StoreView {
    StoreView { overlays: v.overlays.push((w, image_layers(v, r))), ..v }
}

/// The store after cleaning up the overlay of the workload `w`.
pub open spec fn cleanup_post(v: StoreView, w: Seq<char>) -> StoreView {
    let i = choose|i: int| 0 <= i < v.overlays.len() && (#[trigger] v.overlays[i]).0 == w;
    StoreView { overlays: v.overlays.remove(i), ..v }
}

/// The store after dropping the manifest cached for `r`.
pub open spec fn remove_image_post(v: StoreView, r: Seq<char>) -> StoreView {
    let i = choose|i: int| 0 <= i < v.manifests.len() && (#[trigger] v.manifests[i]).reference == r;
    StoreView { manifests: v.manifests.remove(i), ..v }
}

/// The entries of `ds` that name no live overlay, in order.
pub open spec fn orphans(ds: Seq<Seq<char>>, v: StoreView) -> Seq<Seq<char>>
    decreases ds.len(),
{
    if ds.len() == 0 {
        Seq::empty()
    } else if has_overlay(v, ds.last()) {
        orphans(ds.drop_last(), v)
    } else {
        orphans(ds.drop_last(), v).push(ds.last())
    }
}

/// The overlay `lowerdir` option: layer directories joined by `:`, top
/// layer first, so the base layer comes last.
pub open spec fn lowerdir(ds: Seq<Seq<char>>) -> Seq<char>
    decreases ds.len(),
{
    if ds.len() == 0 {
        Seq::empty()
    } else if ds.len() == 1 {
        "/storage/layers/"@ + ds[0]
    } else {
        "/storage/layers/"@ + ds.last() + ":"@ + lowerdir(ds.drop_last())
    }
}

/// Every layer that a cached manifest names is stored. Each operation of
/// `LayerStore` keeps `store_wf`, so this holds in every reachable state.
pub proof fn lemma_cached_layers_stored(v: StoreView, i: int, k: int)
    requires
        store_wf(v),
        0 <= i < v.manifests.len(),
        0 <= k < v.manifests[i].layers.len(),
    ensures
        has_layer(v, v.manifests[i].layers[k]),
{
}

/// Preparing an overlay of a cached image for a new workload and then
/// cleaning it up leaves no overlay for the workload, and the store (its
/// layers included) as it was.
pub proof fn lemma_prepare_then_cleanup(v: StoreView, r: Seq<char>, w: Seq<char>)
    requires
        store_wf(v),
        has_image(v, r),
        !has_overlay(v, w),
    ensures
        cleanup_post(prepare_post(v, r, w), w) == v,
        !has_overlay(cleanup_post(prepare_post(v, r, w), w), w),
        cleanup_post(prepare_post(v, r, w), w).layers == v.layers,
{
    let mid = prepare_post(v, r, w);
    let n = v.overlays.len() as int;
    assert(mid.overlays[n].0 == w);
    let c = choose|i: int| 0 <= i < mid.overlays.len() && (#[trigger] mid.overlays[i]).0 == w;
    if c != n {
        assert(mid.overlays[c] == v.overlays[c]);
    }
    assert(mid.overlays.remove(n) =~= v.overlays);
    assert(cleanup_post(mid, w) =~= v);
}

/// After garbage collection no layer with a positive reference count has
/// been removed, and every layer that no manifest names and no live overlay
/// uses has been removed.
pub proof fn lemma_gc_outcome(v: StoreView)
    requires
        store_wf(v),
    ensures
        forall|i: int| 0 <= i < v.layers.len() && ref_count(v.manifests, (#[trigger] v.layers[i]).0) > 0
            ==> has_layer(gc_post(v), v.layers[i].0),
        forall|d: Seq<char>| ref_count(v.manifests, d) == 0 && !in_overlay(v, d)
            ==> !has_layer(#[trigger] gc_post(v), d),
{
    let after = gc_post(v);
    assert forall|i: int| 0 <= i < v.layers.len() && ref_count(v.manifests, (#[trigger] v.layers[i]).0) > 0
        implies has_layer(after, v.layers[i].0) by {
        lemma_ref_count_zero(v.manifests, v.layers[i].0);
        lemma_kept_keeps(v.layers, v, i);
        let x = choose|x: int| 0 <= x < kept(v.layers, v).len() && kept(v.layers, v)[x] == v.layers[i];
        assert(after.layers[x].0 == v.layers[i].0);
    }
    assert forall|d: Seq<char>| ref_count(v.manifests, d) == 0 && !in_overlay(v, d)
        implies !has_layer(#[trigger] gc_post(v), d) by {
        lemma_ref_count_zero(v.manifests, d);
        lemma_kept_drops(v.layers, v, d);
    }
}

/// The figure that a dry run reports is the number of bytes by which a real
/// run shrinks the store.
pub proof fn lemma_dry_run_matches_gc(v: StoreView)
    ensures
        sum_sizes(v.layers) == sum_sizes(kept(v.layers, v)) + freed_bytes(v),
{
    lemma_kept_freed_split(v.layers, v);
}

/// Pulling the same image with the same extracted layers a second time
/// succeeds and leaves the store exactly as the first pull left it.
pub proof fn lemma_pull_idempotent(v: StoreView, m: ManifestView, f: Seq<(Seq<char>, u64)>)
    requires
        store_wf(v),
        pull_ok(v, m, f),
    ensures
        pull_ok(pull_post(v, m, f), m, f),
        pull_post(pull_post(v, m, f), m, f) == pull_post(v, m, f),
{
    let v1 = pull_post(v, m, f);
    lemma_add_layers(v.layers, f);
    lemma_add_layers_present(v1.layers, f);
    let ms = v.manifests;
    let u = upsert(ms, m);
    let c = choose|i: int| 0 <= i < u.len() && (#[trigger] u[i]).reference == m.reference;
    if exists|i: int| 0 <= i < ms.len() && (#[trigger] ms[i]).reference == m.reference {
        let c0 = choose|i: int| 0 <= i < ms.len() && (#[trigger] ms[i]).reference == m.reference;
        assert(u[c0] == m);
        if c != c0 {
            assert(u[c] == ms[c]);
        }
    } else {
        assert(u[ms.len() as int] == m);
        if c != ms.len() {
            assert(u[c] == ms[c]);
        }
    }
    assert(u.update(c, m) =~= u);
    assert(upsert(u, m) == u);
}

/// Cleaning up a workload's overlay removes it: a second cleanup finds
/// nothing and reports `OverlayNotFound`.
pub proof fn lemma_cleanup_twice(v: StoreView, w: Seq<char>)
    requires
        store_wf(v),
        has_overlay(v, w),
    ensures
        !has_overlay(cleanup_post(v, w), w),
{
    let c = choose|i: int| 0 <= i < v.overlays.len() && (#[trigger] v.overlays[i]).0 == w;
    let after = cleanup_post(v, w);
    assert forall|i: int| 0 <= i < after.overlays.len() implies (#[trigger] after.overlays[i]).0 != w by {
        let i2 = if i < c { i } else { i + 1 };
        assert(after.overlays[i] == v.overlays[i2]);
    }
}

fn copy_string(s: &String) -> (r: String)
    ensures
        r@ == s@,
{
    s.clone()
}

fn copy_strings(v: &Vec<String>) -> (r: Vec<String>)
    ensures
        texts(r@) == texts(v@),
{
    let mut r: Vec<String> = Vec::new();
    let mut i: usize = 0;
    while i < v.len()
        invariant
            0 <= i <= v@.len(),
            r@.len() == i,
            forall|j: int| 0 <= j < i ==> (#[trigger] r@[j])@ == v@[j]@,
        decreases v@.len() - i,
    {
        r.push(v[i].clone());
        i = i + 1;
    }
    assert(texts(r@) =~= texts(v@));
    r
}

fn find_layer(ls: &Vec<LayerEntry>, d: &String) -> (r: bool)
    ensures
        r == has_key(ls@.map_values(|l: LayerEntry| l@), d@),
{
    let ghost lv = ls@.map_values(|l: LayerEntry| l@);
    let mut i: usize = 0;
    while i < ls.len()
        invariant
            0 <= i <= ls@.len(),
            lv == ls@.map_values(|l: LayerEntry| l@),
            forall|j: int| 0 <= j < i ==> (#[trigger] lv[j]).0 != d@,
        decreases ls@.len() - i,
    {
        if ls[i].digest == *d {
            assert(lv[i as int].0 == d@);
            return true;
        }
        i = i + 1;
    }
    false
}

fn copy_manifest(m: &ImageManifest) -> (r: ImageManifest)
    ensures
        r@ == m@,
{
    ImageManifest {
        reference: copy_string(&m.reference),
        digest: copy_string(&m.digest),
        os: copy_string(&m.os),
        architecture: copy_string(&m.architecture),
        layers: copy_strings(&m.layers),
        config_digest: copy_string(&m.config_digest),
        size: m.size,
    }
}

/// What a query reports of the manifest `m`.
pub open spec fn info_of(info: ImageInfo, m: ManifestView) -> bool {
    &&& info.reference@ == m.reference
    &&& info.digest@ == m.digest
    &&& info.size == m.size
    &&& info.architecture@ == m.architecture
    &&& info.os@ == m.os
    &&& info.layer_count as nat == m.layers.len()
}

fn image_info(m: &ImageManifest) -> (r: ImageInfo)
    ensures
        info_of(r, m@),
{
    ImageInfo {
        reference: copy_string(&m.reference),
        digest: copy_string(&m.digest),
        size: m.size,
        architecture: copy_string(&m.architecture),
        os: copy_string(&m.os),
        layer_count: m.layers.len(),
    }
}

/// The `lowerdir` option for mounting an overlay of `layers` (base first).
pub fn overlay_lowerdir(layers: &Vec<String>) -> (r: String)
    ensures
        r@ == lowerdir(texts(layers@)),
{
    let ghost ds = texts(layers@);
    let mut out = String::new();
    let mut i: usize = 0;
    while i < layers.len()
        invariant
            ds == texts(layers@),
            0 <= i <= layers@.len(),
            out@ == lowerdir(ds.subrange(0, i as int)),
        decreases layers@.len() - i,
    {
        let ghost pre = ds.subrange(0, i as int);
        assert(ds.subrange(0, i + 1).drop_last() =~= pre);
        assert(ds.subrange(0, i + 1).last() == layers@[i as int]@);
        if i == 0 {
            out = layer_dir(layers[i].as_str());
            assert(ds.subrange(0, 1)[0] == layers@[0]@);
        } else {
            out = layer_dir(layers[i].as_str()).concat(":").concat(out.as_str());
        }
        i = i + 1;
    }
    assert(ds.subrange(0, i as int) =~= ds);
    out
}

impl LayerStore {
    /// An empty store.
    pub fn new() -> (r: Self)
        ensures
            r@.layers.len() == 0,
            r@.manifests.len() == 0,
            r@.overlays.len() == 0,
            store_wf(r@),
    {
        let r = LayerStore { layers: Vec::new(), manifests: Vec::new(), overlays: Vec::new() };
        assert(r@.layers =~= Seq::<(Seq<char>, u64)>::empty());
        r
    }

    /// Index of the manifest cached for `reference`, if any.
    fn find_manifest(&self, reference: &String) -> (r: Option<usize>)
        ensures
            r is None <==> !has_image(self@, reference@),
            r is Some ==> r->Some_0 < self@.manifests.len() && self@.manifests[r->Some_0 as int].reference == reference@,
    {
        let mut i: usize = 0;
        while i < self.manifests.len()
            invariant
                0 <= i <= self.manifests@.len(),
                forall|j: int| 0 <= j < i ==> (#[trigger] self@.manifests[j]).reference != reference@,
            decreases self.manifests@.len() - i,
        {
            if self.manifests[i].reference == *reference {
                assert(self@.manifests[i as int].reference == reference@);
                return Some(i);
            }
            i = i + 1;
        }
        None
    }

    /// The cached image for `reference`: `None` when no manifest is cached.
    pub fn query(&self, reference: &String) -> (r: Option<ImageInfo>)
        requires
            store_wf(self@),
        ensures
            r is Some <==> has_image(self@, reference@),
            forall|i: int| 0 <= i < self@.manifests.len() && (#[trigger] self@.manifests[i]).reference == reference@
                ==> r is Some && info_of(r->Some_0, self@.manifests[i]),
    {
        match self.find_manifest(reference) {
            Some(i) => Some(image_info(&self.manifests[i])),
            None => None,
        }
    }

    /// Every cached image, in the order the manifests were cached.
    pub fn list_images(&self) -> (r: Vec<ImageInfo>)
        ensures
            r@.len() == self@.manifests.len(),
            forall|i: int| 0 <= i < r@.len() ==> info_of(#[trigger] r@[i], self@.manifests[i]),
    {
        let mut r: Vec<ImageInfo> = Vec::new();
        let mut i: usize = 0;
        while i < self.manifests.len()
            invariant
                0 <= i <= self.manifests@.len(),
                r@.len() == i,
                forall|j: int| 0 <= j < i ==> info_of(#[trigger] r@[j], self@.manifests[j]),
            decreases self.manifests@.len() - i,
        {
            r.push(image_info(&self.manifests[i]));
            i = i + 1;
        }
        r
    }

    /// Number of stored layers and cached images.
    pub fn counts(&self) -> (r: (u64, u64))
        ensures
            r.0 as nat == self@.layers.len(),
            r.1 as nat == self@.manifests.len(),
    {
        (self.layers.len() as u64, self.manifests.len() as u64)
    }

    /// Record a pull of `manifest` whose missing layers were extracted as
    /// `fetched`. A layer already stored is kept as it is. Fails, leaving the
    /// store unchanged, when a layer that the manifest names is neither stored
    /// nor extracted, or when the total size would overflow.
    pub fn commit_pull(&mut self, manifest: ImageManifest, fetched: Vec<LayerEntry>) -> (r: Result<ImageInfo, StoreError>)
        requires
            store_wf(old(self)@),
        ensures
            store_wf(final(self)@),
            r is Ok <==> pull_ok(old(self)@, manifest@, fetched@.map_values(|l: LayerEntry| l@)),
            r is Ok ==> final(self)@ == pull_post(old(self)@, manifest@, fetched@.map_values(|l: LayerEntry| l@))
                && info_of(r->Ok_0, manifest@),
            r is Err ==> final(self)@ == old(self)@,
            r == Err::<ImageInfo, StoreError>(StoreError::LayerMissing) || r == Err::<ImageInfo, StoreError>(StoreError::SizeOverflow) || r is Ok,
    {
        let ghost v = self@;
        let ghost fv = fetched@.map_values(|l: LayerEntry| l@);
        let mut ls: Vec<LayerEntry> = Vec::new();
        let mut i: usize = 0;
        while i < self.layers.len()
            invariant
                self@ == v,
                v == old(self)@,
                store_wf(v),
                0 <= i <= self.layers@.len(),
                ls@.map_values(|l: LayerEntry| l@) == v.layers.subrange(0, i as int),
            decreases self.layers@.len() - i,
        {
            let e = &self.layers[i];
            assert(v.layers[i as int] == e@);
            let ghost before = ls@;
            ls.push(LayerEntry { digest: copy_string(&e.digest), size: e.size });
            assert(ls@.map_values(|l: LayerEntry| l@) =~= before.map_values(|l: LayerEntry| l@).push(e@));
            i = i + 1;
            assert(ls@.map_values(|l: LayerEntry| l@) =~= v.layers.subrange(0, i as int));
        }
        assert(v.layers.subrange(0, i as int) =~= v.layers);
        let mut k: usize = 0;
        while k < fetched.len()
            invariant
                self@ == v,
                v == old(self)@,
                store_wf(v),
                fv == fetched@.map_values(|l: LayerEntry| l@),
                0 <= k <= fetched@.len(),
                ls@.map_values(|l: LayerEntry| l@) == add_layers(v.layers, fv.subrange(0, k as int)),
            decreases fetched@.len() - k,
        {
            assert(fv.subrange(0, k + 1).drop_last() =~= fv.subrange(0, k as int));
            let e = &fetched[k];
            if !find_layer(&ls, &e.digest) {
                let ghost before = ls@;
                ls.push(LayerEntry { digest: copy_string(&e.digest), size: e.size });
                assert(ls@.map_values(|l: LayerEntry| l@) =~= before.map_values(|l: LayerEntry| l@).push(fv[k as int]));
            }
            k = k + 1;
        }
        assert(fv.subrange(0, k as int) =~= fv);
        let ghost nl = add_layers(v.layers, fv);
        let mut j: usize = 0;
        while j < manifest.layers.len()
            invariant
                self@ == v,
                v == old(self)@,
                store_wf(v),
                fv == fetched@.map_values(|l: LayerEntry| l@),
                nl == add_layers(v.layers, fv),
                ls@.map_values(|l: LayerEntry| l@) == nl,
                0 <= j <= manifest.layers@.len(),
                forall|q: int| 0 <= q < j ==> has_key(nl, #[trigger] manifest@.layers[q]),
            decreases manifest.layers@.len() - j,
        {
            if !find_layer(&ls, &manifest.layers[j]) {
                assert(!has_key(nl, manifest@.layers[j as int]));
                return Err(StoreError::LayerMissing);
            }
            j = j + 1;
        }
        let mut total: u64 = 0;
        let mut t: usize = 0;
        while t < ls.len()
            invariant
                self@ == v,
                v == old(self)@,
                store_wf(v),
                fv == fetched@.map_values(|l: LayerEntry| l@),
                nl == add_layers(v.layers, fv),
                forall|q: int| 0 <= q < manifest@.layers.len() ==> has_key(nl, #[trigger] manifest@.layers[q]),
                ls@.map_values(|l: LayerEntry| l@) == nl,
                0 <= t <= ls@.len(),
                total as nat == sum_sizes(nl.subrange(0, t as int)),
            decreases ls@.len() - t,
        {
            assert(nl.subrange(0, t + 1).drop_last() =~= nl.subrange(0, t as int));
            assert(nl.subrange(0, t + 1).last() == nl[t as int]);
            assert(nl[t as int] == ls@[t as int]@);
            if total > u64::MAX - ls[t].size {
                proof {
                    lemma_sum_prefix(nl, t + 1);
                }
                return Err(StoreError::SizeOverflow);
            }
            total = total + ls[t].size;
            t = t + 1;
        }
        assert(nl.subrange(0, t as int) =~= nl);
        proof {
            lemma_add_layers(v.layers, fv);
        }
        let info = image_info(&manifest);
        let ghost mv = manifest@;
        match self.find_manifest(&manifest.reference) {
            Some(idx) => {
                self.manifests.set(idx, manifest);
            },
            None => {
                self.manifests.push(manifest);
            },
        }
        self.layers = ls;
        proof {
            let nv = self@;
            assert(nv.manifests =~= upsert(v.manifests, mv));
            assert(nv.layers == nl);
            assert(nv.overlays == v.overlays);
            assert forall|i: int, j: int|
                0 <= i < nv.manifests.len() && 0 <= j < nv.manifests.len() && i != j
                    implies (#[trigger] nv.manifests[i]).reference != (#[trigger] nv.manifests[j]).reference by {
                if i < v.manifests.len() && j < v.manifests.len() {
                    if nv.manifests[i] != v.manifests[i] {
                        assert(v.manifests[i].reference == mv.reference);
                    }
                    if nv.manifests[j] != v.manifests[j] {
                        assert(v.manifests[j].reference == mv.reference);
                    }
                }
            }
            assert forall|d: Seq<char>| has_layer(v, d) implies has_layer(nv, d) by {
                let x = choose|x: int| 0 <= x < v.layers.len() && (#[trigger] v.layers[x]).0 == d;
                assert(nl[x] == v.layers[x]);
            }
            assert forall|i: int, q: int|
                0 <= i < nv.manifests.len() && 0 <= q < nv.manifests[i].layers.len() implies has_layer(
                    nv,
                    #[trigger] nv.manifests[i].layers[q],
                ) by {
                let d = nv.manifests[i].layers[q];
                if nv.manifests[i] == mv {
                    assert(has_key(nl, mv.layers[q]));
                } else {
                    assert(i < v.manifests.len() && nv.manifests[i] == v.manifests[i]);
                    assert(has_layer(v, d));
                }
            }
            assert forall|i: int, q: int|
                0 <= i < nv.overlays.len() && 0 <= q < nv.overlays[i].1.len() implies has_layer(
                    nv,
                    #[trigger] nv.overlays[i].1[q],
                ) by {
                assert(has_layer(v, nv.overlays[i].1[q]));
            }
        }
        Ok(info)
    }

    /// Index of the live overlay of `workload_id`, if any.
    fn find_overlay(&self, workload_id: &String) -> (r: Option<usize>)
        ensures
            r is None <==> !has_overlay(self@, workload_id@),
            r is Some ==> r->Some_0 < self@.overlays.len() && self@.overlays[r->Some_0 as int].0 == workload_id@,
    {
        let mut i: usize = 0;
        while i < self.overlays.len()
            invariant
                0 <= i <= self.overlays@.len(),
                forall|j: int| 0 <= j < i ==> (#[trigger] self@.overlays[j]).0 != workload_id@,
            decreases self.overlays@.len() - i,
        {
            if self.overlays[i].workload_id == *workload_id {
                assert(self@.overlays[i as int].0 == workload_id@);
                return Some(i);
            }
            i = i + 1;
        }
        None
    }

    /// Record an overlay of the cached image `image` for `workload_id`.
    /// Fails with `ImageNotFound` when the image is not cached and with
    /// `OverlayExists` when the workload already has one; the store is then
    /// unchanged.
    pub fn prepare_overlay(&mut self, image: &String, workload_id: &String) -> (r: Result<OverlayInfo, StoreError>)
        requires
            store_wf(old(self)@),
        ensures
            store_wf(final(self)@),
            !has_image(old(self)@, image@) ==> r == Err::<OverlayInfo, StoreError>(StoreError::ImageNotFound),
            has_image(old(self)@, image@) && has_overlay(old(self)@, workload_id@) ==> r == Err::<OverlayInfo, StoreError>(StoreError::OverlayExists),
            has_image(old(self)@, image@) && !has_overlay(old(self)@, workload_id@) ==> r is Ok,
            r is Err ==> final(self)@ == old(self)@,
            r is Ok ==> final(self)@ == prepare_post(old(self)@, image@, workload_id@)
                && texts(r->Ok_0.layers@) == image_layers(old(self)@, image@)
                && r->Ok_0.rootfs_path@ == "/storage/overlays/"@ + workload_id@ + "/merged"@
                && r->Ok_0.bundle_path@ == "/storage/overlays/"@ + workload_id@ + "/bundle"@,
    {
        let ghost v = self@;
        let idx = match self.find_manifest(image) {
            Some(i) => i,
            None => return Err(StoreError::ImageNotFound),
        };
        if self.find_overlay(workload_id).is_some() {
            return Err(StoreError::OverlayExists);
        }
        proof {
            let c = choose|i: int| 0 <= i < v.manifests.len() && (#[trigger] v.manifests[i]).reference == image@;
            if c != idx as int {
                assert(v.manifests[c].reference == v.manifests[idx as int].reference);
            }
        }
        let layers = copy_strings(&self.manifests[idx].layers);
        let info = OverlayInfo {
            rootfs_path: merged_rootfs_path(workload_id.as_str()),
            bundle_path: bundle_dir(workload_id.as_str()),
            layers: copy_strings(&self.manifests[idx].layers),
        };
        let ghost entry = (workload_id@, texts(layers@));
        self.overlays.push(OverlayRecord { workload_id: copy_string(workload_id), image: copy_string(image), layers });
        proof {
            let nv = self@;
            assert(nv.overlays =~= v.overlays.push(entry));
            assert(nv =~= prepare_post(v, image@, workload_id@));
            assert forall|i: int, j: int|
                0 <= i < nv.overlays.len() && 0 <= j < nv.overlays.len() && i != j
                    implies (#[trigger] nv.overlays[i]).0 != (#[trigger] nv.overlays[j]).0 by {
                if i < v.overlays.len() && j < v.overlays.len() {
                    assert(nv.overlays[i] == v.overlays[i] && nv.overlays[j] == v.overlays[j]);
                } else if i < v.overlays.len() {
                    assert(nv.overlays[i] == v.overlays[i]);
                } else {
                    assert(nv.overlays[j] == v.overlays[j]);
                }
            }
            assert forall|i: int, q: int|
                0 <= i < nv.overlays.len() && 0 <= q < nv.overlays[i].1.len() implies has_layer(
                    nv,
                    #[trigger] nv.overlays[i].1[q],
                ) by {
                assert(nv.layers == v.layers);
                if i < v.overlays.len() {
                    assert(nv.overlays[i] == v.overlays[i]);
                    assert(has_layer(v, v.overlays[i].1[q]));
                } else {
                    assert(nv.overlays[i].1[q] == v.manifests[idx as int].layers[q]);
                    assert(has_layer(v, v.manifests[idx as int].layers[q]));
                }
            }
        }
        Ok(info)
    }

    /// Forget the overlay of `workload_id`. Fails with `OverlayNotFound`,
    /// leaving the store unchanged, when the workload has none.
    pub fn cleanup_overlay(&mut self, workload_id: &String) -> (r: Result<(), StoreError>)
        requires
            store_wf(old(self)@),
        ensures
            store_wf(final(self)@),
            r is Ok <==> has_overlay(old(self)@, workload_id@),
            r is Err ==> r == Err::<(), StoreError>(StoreError::OverlayNotFound) && final(self)@ == old(self)@,
            r is Ok ==> final(self)@ == cleanup_post(old(self)@, workload_id@),
    {
        let ghost v = self@;
        let idx = match self.find_overlay(workload_id) {
            Some(i) => i,
            None => return Err(StoreError::OverlayNotFound),
        };
        proof {
            let c = choose|i: int| 0 <= i < v.overlays.len() && (#[trigger] v.overlays[i]).0 == workload_id@;
            if c != idx as int {
                assert(v.overlays[c].0 == v.overlays[idx as int].0);
            }
        }
        let _ = self.overlays.remove(idx);
        proof {
            let nv = self@;
            assert(nv.overlays =~= v.overlays.remove(idx as int));
            assert(nv =~= cleanup_post(v, workload_id@));
            assert forall|i: int, j: int|
                0 <= i < nv.overlays.len() && 0 <= j < nv.overlays.len() && i != j
                    implies (#[trigger] nv.overlays[i]).0 != (#[trigger] nv.overlays[j]).0 by {
                let i2 = if i < idx { i } else { i + 1 };
                let j2 = if j < idx { j } else { j + 1 };
                assert(nv.overlays[i] == v.overlays[i2] && nv.overlays[j] == v.overlays[j2]);
            }
            assert forall|i: int, q: int|
                0 <= i < nv.overlays.len() && 0 <= q < nv.overlays[i].1.len() implies has_layer(
                    nv,
                    #[trigger] nv.overlays[i].1[q],
                ) by {
                let i2 = if i < idx { i } else { i + 1 };
                assert(nv.overlays[i] == v.overlays[i2]);
                assert(nv.layers == v.layers);
                assert(has_layer(v, v.overlays[i2].1[q]));
            }
        }
        Ok(())
    }

    /// Drop the manifest cached for `reference`; its layers stay until
    /// garbage collection. Fails with `ImageNotFound` when none is cached.
    pub fn remove_image(&mut self, reference: &String) -> (r: Result<(), StoreError>)
        requires
            store_wf(old(self)@),
        ensures
            store_wf(final(self)@),
            r is Ok <==> has_image(old(self)@, reference@),
            r is Err ==> r == Err::<(), StoreError>(StoreError::ImageNotFound) && final(self)@ == old(self)@,
            r is Ok ==> final(self)@ == remove_image_post(old(self)@, reference@),
    {
        let ghost v = self@;
        let idx = match self.find_manifest(reference) {
            Some(i) => i,
            None => return Err(StoreError::ImageNotFound),
        };
        proof {
            let c = choose|i: int| 0 <= i < v.manifests.len() && (#[trigger] v.manifests[i]).reference == reference@;
            if c != idx as int {
                assert(v.manifests[c].reference == v.manifests[idx as int].reference);
            }
        }
        let _ = self.manifests.remove(idx);
        proof {
            let nv = self@;
            assert(nv.manifests =~= v.manifests.remove(idx as int));
            assert(nv =~= remove_image_post(v, reference@));
            assert forall|i: int, j: int|
                0 <= i < nv.manifests.len() && 0 <= j < nv.manifests.len() && i != j
                    implies (#[trigger] nv.manifests[i]).reference != (#[trigger] nv.manifests[j]).reference by {
                let i2 = if i < idx { i } else { i + 1 };
                let j2 = if j < idx { j } else { j + 1 };
                assert(nv.manifests[i] == v.manifests[i2] && nv.manifests[j] == v.manifests[j2]);
            }
            assert forall|i: int, q: int|
                0 <= i < nv.manifests.len() && 0 <= q < nv.manifests[i].layers.len() implies has_layer(
                    nv,
                    #[trigger] nv.manifests[i].layers[q],
                ) by {
                let i2 = if i < idx { i } else { i + 1 };
                assert(nv.manifests[i] == v.manifests[i2]);
                assert(nv.layers == v.layers);
                assert(has_layer(v, v.manifests[i2].layers[q]));
            }
        }
        Ok(())
    }

    /// The entries of `on_disk` (overlay directories found at start-up) that
    /// no live overlay accounts for: the orphans to remove.
    pub fn orphan_overlays(&self, on_disk: &Vec<String>) -> (r: Vec<String>)
        ensures
            texts(r@) == orphans(texts(on_disk@), self@),
    {
        let ghost ds = texts(on_disk@);
        let mut r: Vec<String> = Vec::new();
        let mut i: usize = 0;
        while i < on_disk.len()
            invariant
                ds == texts(on_disk@),
                0 <= i <= on_disk@.len(),
                texts(r@) == orphans(ds.subrange(0, i as int), self@),
            decreases on_disk@.len() - i,
        {
            assert(ds.subrange(0, i + 1).drop_last() =~= ds.subrange(0, i as int));
            assert(ds.subrange(0, i + 1).last() == on_disk@[i as int]@);
            if self.find_overlay(&on_disk[i]).is_none() {
                let ghost before = r@;
                r.push(copy_string(&on_disk[i]));
                assert(texts(r@) =~= texts(before).push(on_disk@[i as int]@));
            }
            i = i + 1;
        }
        assert(ds.subrange(0, i as int) =~= ds);
        r
    }

    /// Whether garbage collection would remove the layer `digest`.
    pub fn is_eligible(&self, digest: &String) -> (r: bool)
        ensures
            r == eligible(self@, digest@),
    {
        let mut i: usize = 0;
        while i < self.manifests.len()
            invariant
                0 <= i <= self.manifests@.len(),
                forall|j: int| 0 <= j < i ==> !(#[trigger] self@.manifests[j]).layers.contains(digest@),
            decreases self.manifests@.len() - i,
        {
            if contains_str(&self.manifests[i].layers, digest) {
                assert(self@.manifests[i as int].layers.contains(digest@));
                return false;
            }
            i = i + 1;
        }
        let mut k: usize = 0;
        while k < self.overlays.len()
            invariant
                0 <= k <= self.overlays@.len(),
                forall|j: int| 0 <= j < k ==> !(#[trigger] self@.overlays[j]).1.contains(digest@),
            decreases self.overlays@.len() - k,
        {
            if contains_str(&self.overlays[k].layers, digest) {
                assert(self@.overlays[k as int].1.contains(digest@));
                return false;
            }
            k = k + 1;
        }
        true
    }

    /// Reference count of a layer: how many cached manifests name it.
    pub fn refcount(&self, digest: &String) -> (r: u64)
        ensures
            r as nat == ref_count(self@.manifests, digest@),
    {
        let mut count: u64 = 0;
        let mut i: usize = 0;
        while i < self.manifests.len()
            invariant
                0 <= i <= self.manifests@.len(),
                count as nat == ref_count(self@.manifests.subrange(0, i as int), digest@),
                count <= i,
            decreases self.manifests@.len() - i,
        {
            let ghost ms = self@.manifests;
            assert(ms.subrange(0, i + 1).drop_last() =~= ms.subrange(0, i as int));
            if contains_str(&self.manifests[i].layers, digest) {
                count = count + 1;
            }
            i = i + 1;
        }
        assert(self@.manifests.subrange(0, i as int) =~= self@.manifests);
        count
    }

    /// Garbage collection: frees every layer that no cached manifest names
    /// and no live overlay uses. Returns the bytes freed and the digests of
    /// the removed layers. A dry run reports the same without changing the store.
    pub fn garbage_collect(&mut self, dry_run: bool) -> (r: (u64, Vec<String>))
        requires
            store_wf(old(self)@),
        ensures
            r.0 as nat == freed_bytes(old(self)@),
            texts(r.1@) == removed(old(self)@.layers, old(self)@),
            dry_run ==> final(self)@ == old(self)@,
            !dry_run ==> final(self)@ == gc_post(old(self)@),
            store_wf(final(self)@),
    {
        let ghost v = self@;
        let ghost ls = v.layers;
        let n = self.layers.len();
        let mut keep: Vec<LayerEntry> = Vec::new();
        let mut gone: Vec<String> = Vec::new();
        let mut total: u64 = 0;
        let mut i: usize = 0;
        while i < n
            invariant
                self@ == v,
                ls == v.layers,
                store_wf(v),
                n == ls.len(),
                0 <= i <= n,
                keep@.map_values(|l: LayerEntry| l@) == kept(ls.subrange(0, i as int), v),
                texts(gone@) == removed(ls.subrange(0, i as int), v),
                total as nat == freed(ls.subrange(0, i as int), v),
            decreases n - i,
        {
            let ghost pre = ls.subrange(0, i as int);
            assert(ls.subrange(0, i + 1).drop_last() =~= pre);
            assert(ls.subrange(0, i + 1).last() == ls[i as int]);
            let entry = &self.layers[i];
            assert(entry@ == ls[i as int]);
            if self.is_eligible(&entry.digest) {
                proof {
                    lemma_kept_freed_split(ls.subrange(0, i + 1), v);
                    lemma_sum_prefix(ls, i + 1);
                }
                total = total + entry.size;
                let ghost g = gone@;
                gone.push(copy_string(&entry.digest));
                assert(texts(gone@) =~= texts(g).push(entry.digest@));
            } else {
                let ghost kk = keep@;
                keep.push(LayerEntry { digest: copy_string(&entry.digest), size: entry.size });
                assert(keep@.map_values(|l: LayerEntry| l@) =~= kk.map_values(|l: LayerEntry| l@).push(ls[i as int]));
            }
            i = i + 1;
        }
        assert(ls.subrange(0, n as int) =~= ls);
        proof {
            lemma_kept_distinct(ls, v);
            lemma_kept_sum(ls, v);
            lemma_kept_from(ls, v);
        }
        if !dry_run {
            self.layers = keep;
            proof {
                let nv = self@;
                assert(nv.layers == kept(ls, v));
                assert(nv.manifests == v.manifests);
                assert(nv.overlays == v.overlays);
                assert forall|i: int, k: int|
                    0 <= i < nv.manifests.len() && 0 <= k < nv.manifests[i].layers.len() implies has_layer(
                        nv,
                        #[trigger] nv.manifests[i].layers[k],
                    ) by {
                    let d = nv.manifests[i].layers[k];
                    assert(v.manifests[i].layers.contains(d));
                    assert(has_layer(v, d));
                    let x = choose|x: int| 0 <= x < ls.len() && (#[trigger] ls[x]).0 == d;
                    lemma_kept_keeps(ls, v, x);
                }
                assert forall|i: int, k: int|
                    0 <= i < nv.overlays.len() && 0 <= k < nv.overlays[i].1.len() implies has_layer(
                        nv,
                        #[trigger] nv.overlays[i].1[k],
                    ) by {
                    let d = nv.overlays[i].1[k];
                    assert(v.overlays[i].1.contains(d));
                    assert(has_layer(v, d));
                    let x = choose|x: int| 0 <= x < ls.len() && (#[trigger] ls[x]).0 == d;
                    lemma_kept_keeps(ls, v, x);
                }
                assert(nv =~= (StoreView { layers: kept(ls, v), ..v }));
            }
        }
        (total, gone)
    }
}

} // verus!

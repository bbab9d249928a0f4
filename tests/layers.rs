use smolvm::layers::{ImageManifest, LayerEntry, LayerStore, StoreError};

fn manifest(reference: &str, layers: &[&str]) -> ImageManifest {
    ImageManifest {
        reference: reference.to_string(),
        digest: format!("sha256:{}", reference.len()),
        os: "linux".to_string(),
        architecture: "arm64".to_string(),
        layers: layers.iter().map(|l| l.to_string()).collect(),
        config_digest: "sha256:cfg".to_string(),
        size: 300,
    }
}

fn entry(digest: &str, size: u64) -> LayerEntry {
    LayerEntry { digest: digest.to_string(), size }
}

fn s(x: &str) -> String {
    x.to_string()
}

#[test]
fn pull_then_query_and_list() {
    let mut store = LayerStore::new();
    let info = store
        .commit_pull(manifest("alpine:3.18", &["l1", "l2"]), vec![entry("l1", 100), entry("l2", 200)])
        .unwrap();
    assert_eq!(info.layer_count, 2);
    assert_eq!(info.reference, "alpine:3.18");
    assert_eq!(store.counts(), (2, 1));
    assert_eq!(store.query(&s("alpine:3.18")).unwrap().os, "linux");
    assert!(store.query(&s("busybox")).is_none());
    assert_eq!(store.list_images().len(), 1);
    assert_eq!(store.refcount(&s("l1")), 1);
}

#[test]
fn failed_pull_leaves_no_layer() {
    let mut store = LayerStore::new();
    let r = store.commit_pull(manifest("alpine", &["l1", "l2"]), vec![entry("l1", 100)]);
    assert_eq!(r.unwrap_err(), StoreError::LayerMissing);
    assert_eq!(store.counts(), (0, 0));
    let r = store.commit_pull(manifest("big", &["a", "b"]), vec![entry("a", u64::MAX), entry("b", 1)]);
    assert_eq!(r.unwrap_err(), StoreError::SizeOverflow);
    assert_eq!(store.counts(), (0, 0));
}

#[test]
fn pulling_twice_changes_nothing() {
    let mut store = LayerStore::new();
    store.commit_pull(manifest("alpine", &["l1"]), vec![entry("l1", 100)]).unwrap();
    let before = store.list_images().len();
    store.commit_pull(manifest("alpine", &["l1"]), vec![entry("l1", 100)]).unwrap();
    assert_eq!(store.list_images().len(), before);
    assert_eq!(store.counts(), (1, 1));
    assert_eq!(store.garbage_collect(true).0, 0);
}

#[test]
fn shared_layers_are_stored_once() {
    let mut store = LayerStore::new();
    store.commit_pull(manifest("a", &["base", "x"]), vec![entry("base", 10), entry("x", 1)]).unwrap();
    store.commit_pull(manifest("b", &["base", "y"]), vec![entry("y", 2)]).unwrap();
    assert_eq!(store.counts(), (3, 2));
    assert_eq!(store.refcount(&s("base")), 2);
}

#[test]
fn gc_frees_only_unreferenced_layers() {
    let mut store = LayerStore::new();
    store.commit_pull(manifest("a", &["base", "x"]), vec![entry("base", 10), entry("x", 100)]).unwrap();
    store.commit_pull(manifest("b", &["base", "y"]), vec![entry("y", 1000)]).unwrap();
    store.remove_image(&s("a")).unwrap();
    assert_eq!(store.remove_image(&s("a")), Err(StoreError::ImageNotFound));
    assert_eq!(store.refcount(&s("x")), 0);
    let (dry, would) = store.garbage_collect(true);
    assert_eq!(dry, 100);
    assert_eq!(would, vec![s("x")]);
    assert_eq!(store.counts(), (3, 1));
    let (freed, removed) = store.garbage_collect(false);
    assert_eq!(freed, dry);
    assert_eq!(removed, vec![s("x")]);
    assert_eq!(store.counts(), (2, 1));
    assert!(!store.is_eligible(&s("base")));
    assert!(!store.is_eligible(&s("y")));
}

#[test]
fn overlay_holds_layers_against_gc() {
    let mut store = LayerStore::new();
    store.commit_pull(manifest("a", &["l1"]), vec![entry("l1", 7)]).unwrap();
    let info = store.prepare_overlay(&s("a"), &s("w1")).unwrap();
    assert_eq!(info.rootfs_path, "/storage/overlays/w1/merged");
    assert_eq!(info.bundle_path, "/storage/overlays/w1/bundle");
    assert_eq!(info.layers, vec![s("l1")]);
    store.remove_image(&s("a")).unwrap();
    assert_eq!(store.garbage_collect(false).0, 0);
    store.cleanup_overlay(&s("w1")).unwrap();
    assert_eq!(store.garbage_collect(false).0, 7);
}

#[test]
fn overlay_errors_and_cleanup_twice() {
    let mut store = LayerStore::new();
    assert_eq!(store.prepare_overlay(&s("a"), &s("w")).unwrap_err(), StoreError::ImageNotFound);
    store.commit_pull(manifest("a", &["l1"]), vec![entry("l1", 7)]).unwrap();
    store.prepare_overlay(&s("a"), &s("w")).unwrap();
    assert_eq!(store.prepare_overlay(&s("a"), &s("w")).unwrap_err(), StoreError::OverlayExists);
    assert_eq!(store.cleanup_overlay(&s("w")), Ok(()));
    assert_eq!(store.cleanup_overlay(&s("w")), Err(StoreError::OverlayNotFound));
    assert_eq!(store.counts(), (1, 1));
}

#[test]
fn orphans_are_untracked_overlays() {
    let mut store = LayerStore::new();
    store.commit_pull(manifest("a", &["l1"]), vec![entry("l1", 7)]).unwrap();
    store.prepare_overlay(&s("a"), &s("w1")).unwrap();
    let found = vec![s("w1"), s("old"), s("w2")];
    assert_eq!(store.orphan_overlays(&found), vec![s("old"), s("w2")]);
}

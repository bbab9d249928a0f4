//! The persistent storage disk: a sparse raw image formatted as ext4, with a
//! sibling marker file that records the formatting. This module sizes and
//! names the disks and decides, from what the caller observed on the host,
//! whether a disk must be (re)formatted and how.

use vstd::prelude::*;
use crate::util::{current_timestamp, decimal};

verus! {

/// Default size of the storage disk, in GiB.
pub const DEFAULT_STORAGE_SIZE_GB: u64 = 20;

/// Default size of the overlay disk, in GiB.
pub const DEFAULT_OVERLAY_SIZE_GB: u64 = 2;

/// File name of the storage disk.
pub const STORAGE_DISK_FILENAME: &'static str = "storage.raw";

/// File name of the overlay disk.
pub const OVERLAY_DISK_FILENAME: &'static str = "overlay.raw";

/// Bytes in a GiB.
pub const GIB: u64 = 1073741824;

/// Version of this implementation, recorded in new disks.
pub const IMPLEMENTATION_VERSION: &'static str = "0.1.0";

/// Failures of storage disk planning.
#[derive(Debug, Clone, Copy, PartialEq, Eq, Structural)]
pub enum StorageError {
    /// A disk of 0 GiB was asked for.
    ZeroSize,
    /// The size in bytes does not fit in 64 bits.
    TooLarge,
    /// The user's data directory is unknown.
    NoDataDir,
}

/// Format version record kept inside a disk.
#[derive(Debug, Clone)]
pub struct DiskVersion {
    pub format_version: u32,
    pub created_at: String,
    pub base_digest: String,
    pub smolvm_version: String,
}

impl DiskVersion {
    /// The current disk format version.
    pub const CURRENT_VERSION: u32 = 1;

    /// A version record for a new disk built from `base_digest`.
    pub fn new(base_digest: &str) -> (r: Self)
        ensures
            r.format_version == Self::CURRENT_VERSION,
            r.base_digest@ == base_digest@,
            r.smolvm_version@ == IMPLEMENTATION_VERSION@,
            exists|t: u64| r.created_at@ == decimal(t as nat),
    {
        DiskVersion {
            format_version: Self::CURRENT_VERSION,
            created_at: current_timestamp(),
            base_digest: base_digest.to_string(),
            smolvm_version: IMPLEMENTATION_VERSION.to_string(),
        }
    }

    /// A disk is usable unless its format is newer than this implementation's.
    pub fn is_compatible(&self) -> (r: bool)
        ensures
            r == (self.format_version <= Self::CURRENT_VERSION),
    {
        self.format_version <= Self::CURRENT_VERSION
    }
}

/// The marker file of a disk: `<disk>.formatted`.
pub fn disk_marker_path(disk_path: &str) -> (r: String)
    ensures
        r@ == disk_path@ + ".formatted"@,
{
    disk_path.to_string().concat(".formatted")
}

/// Whether the output of the OS file-type probe describes an ext2/3/4
/// filesystem. When the probe could not run, the disk is taken as valid.
pub fn probe_says_ext(probe_output: Option<&str>) -> (r: bool)
    ensures
        probe_output is None ==> r,
        probe_output is Some ==> r == (contains(probe_output->Some_0@, "ext4"@) || contains(
            probe_output->Some_0@,
            "ext2"@,
        ) || contains(probe_output->Some_0@, "ext3"@)),
{
    match probe_output {
        None => true,
        Some(out) => contains_ext(out, 0) || contains_ext(out, 1) || contains_ext(out, 2),
    }
}

/// `s` holds `t` somewhere.
pub open spec fn contains(s: Seq<char>, t: Seq<char>) -> bool {
    exists|i: int| 0 <= i && i + t.len() <= s.len() && #[trigger] s.subrange(i, i + t.len()) == t
}

pub open spec fn ext_name(k: int) -> Seq<char> {
    if k == 0 { "ext4"@ } else if k == 1 { "ext2"@ } else { "ext3"@ }
}

fn contains_ext(s: &str, k: u8) -> (r: bool)
    requires
        k < 3,
    ensures
        r == contains(s@, ext_name(k as int)),
{
    proof {
        reveal_strlit("ext4");
        reveal_strlit("ext2");
        reveal_strlit("ext3");
    }
    let last: char = if k == 0 { '4' } else if k == 1 { '2' } else { '3' };
    let ghost t = ext_name(k as int);
    assert(t =~= seq!['e', 'x', 't', last]);
    let n = s.unicode_len();
    if n < 4 {
        assert(!contains(s@, t));
        return false;
    }
    let mut i: usize = 0;
    while i <= n - 4
        invariant
            n == s@.len(),
            n >= 4,
            t == seq!['e', 'x', 't', last],
            t == ext_name(k as int),
            0 <= i <= n - 3,
            forall|j: int| 0 <= j < i ==> #[trigger] s@.subrange(j, j + t.len()) != t,
        decreases n - i,
    {
        if s.get_char(i) == 'e' && s.get_char(i + 1) == 'x' && s.get_char(i + 2) == 't' && s.get_char(i + 3) == last {
            assert(s@.subrange(i as int, i + 4) =~= t);
            assert(s@.subrange(i as int, i + t.len()) == t);
            return true;
        } else {
            assert(s@.subrange(i as int, i + t.len()) != t) by {
                if s@.subrange(i as int, i + 4) == t {
                    assert(s@.subrange(i as int, i + 4)[0] == s@[i as int]);
                    assert(s@.subrange(i as int, i + 4)[1] == s@[i + 1]);
                    assert(s@.subrange(i as int, i + 4)[2] == s@[i + 2]);
                    assert(s@.subrange(i as int, i + 4)[3] == s@[i + 3]);
                }
            }
        }
        i = i + 1;
    }
    false
}

/// What a format check decided, and the stale files to remove first.
#[derive(Debug, Clone, Copy, PartialEq, Eq, Structural)]
pub struct FormatCheck {
    pub needs_format: bool,
    pub remove_marker: bool,
    pub remove_disk: bool,
}

/// Decide whether a disk must be formatted. Without a marker it must. A
/// marker without its disk is stale and goes. A disk that the file-type
/// probe does not recognise as ext is corrupt: it goes with its marker.
pub fn disk_needs_format(marker_exists: bool, disk_exists: bool, looks_ext: bool) -> (r: FormatCheck)
    ensures
        !marker_exists ==> r == (FormatCheck { needs_format: true, remove_marker: false, remove_disk: false }),
        marker_exists && !disk_exists ==> r == (FormatCheck { needs_format: true, remove_marker: true, remove_disk: false }),
        marker_exists && disk_exists && !looks_ext ==> r == (FormatCheck { needs_format: true, remove_marker: true, remove_disk: true }),
        marker_exists && disk_exists && looks_ext ==> r == (FormatCheck { needs_format: false, remove_marker: false, remove_disk: false }),
{
    if !marker_exists {
        FormatCheck { needs_format: true, remove_marker: false, remove_disk: false }
    } else if !disk_exists {
        FormatCheck { needs_format: true, remove_marker: true, remove_disk: false }
    } else if !looks_ext {
        FormatCheck { needs_format: true, remove_marker: true, remove_disk: true }
    } else {
        FormatCheck { needs_format: false, remove_marker: false, remove_disk: false }
    }
}

/// How a disk gets formatted.
#[derive(Debug, Clone)]
pub enum FormatPlan {
    /// It is formatted already.
    AlreadyFormatted,
    /// Copy this pre-formatted template, extend it to the disk's size, and
    /// write the marker; the guest grows the filesystem at boot.
    CopyTemplate(String),
    /// Run the external ext4 formatter with this volume label, then write the marker.
    Mkfs(String),
}

/// Choose how to format: nothing if not needed, else the template when one
/// was found, else the external formatter.
pub fn format_plan(needs_format: bool, template: Option<String>, volume_label: &str) -> (r: FormatPlan)
    ensures
        !needs_format ==> r is AlreadyFormatted,
        needs_format && template is Some ==> r is CopyTemplate && r->CopyTemplate_0 == template->Some_0,
        needs_format && template is None ==> r is Mkfs && r->Mkfs_0@ == volume_label@,
{
    if !needs_format {
        FormatPlan::AlreadyFormatted
    } else {
        match template {
            Some(t) => FormatPlan::CopyTemplate(t),
            None => FormatPlan::Mkfs(volume_label.to_string()),
        }
    }
}

/// Size in bytes of a disk of `size_gb` GiB: 0 is refused, and so is a size
/// that does not fit in 64 bits.
pub fn disk_size_bytes(size_gb: u64) -> (r: Result<u64, StorageError>)
    ensures
        size_gb == 0 ==> r == Err::<u64, StorageError>(StorageError::ZeroSize),
        size_gb > 0 && size_gb * GIB > u64::MAX ==> r == Err::<u64, StorageError>(StorageError::TooLarge),
        size_gb > 0 && size_gb * GIB <= u64::MAX ==> r == Ok::<u64, StorageError>((size_gb * GIB) as u64),
{
    if size_gb == 0 {
        return Err(StorageError::ZeroSize);
    }
    if size_gb > u64::MAX / GIB {
        assert(size_gb * GIB > u64::MAX) by (nonlinear_arith)
            requires
                size_gb > u64::MAX / GIB,
        ;
        return Err(StorageError::TooLarge);
    }
    assert(size_gb * GIB <= u64::MAX) by (nonlinear_arith)
        requires
            size_gb <= u64::MAX / GIB,
    ;
    Ok(size_gb * GIB)
}

/// The disk to open at a path: an existing file keeps its length; otherwise
/// a sparse file of the asked size is to be created.
pub open spec fn open_result(path: Seq<char>, size_gb: u64, existing_len: Option<u64>, disk: (Seq<char>, u64), create: bool) -> bool {
    &&& disk.0 == path
    &&& match existing_len {
        Some(len) => disk.1 == len && !create,
        None => disk.1 == size_gb * GIB && create,
    }
}

/// Directory of a VM's host-side files under the data directory:
/// `<data>/smolvm/` for the default VM, `<data>/smolvm/vms/<name>/` for a named one.
pub fn vm_dir(data_dir: &str, name: &Option<String>) -> (r: String)
    ensures
        name is None ==> r@ == data_dir@ + "/smolvm/"@,
        name is Some ==> r@ == data_dir@ + "/smolvm/vms/"@ + name->Some_0@ + "/"@,
{
    match name {
        None => data_dir.to_string().concat("/smolvm/"),
        Some(n) => data_dir.to_string().concat("/smolvm/vms/").concat(n.as_str()).concat("/"),
    }
}

/// Path of the record store file under the data directory.
pub fn record_store_path(data_dir: &str) -> (r: String)
    ensures
        r@ == data_dir@ + "/smolvm/server/smolvm.json"@,
{
    data_dir.to_string().concat("/smolvm/server/smolvm.json")
}

/// The shared storage disk.
#[derive(Debug, Clone)]
pub struct StorageDisk {
    path: String,
    size_bytes: u64,
}

/// Relies on dirs::data_local_dir: the user's local data directory, if the
/// platform and environment define one (a non-UTF-8 path reads as `None`).
#[verifier::external_body]
fn data_local_dir() -> (r: Option<String>) {
    match dirs::data_local_dir() {
        Some(p) => p.to_str().map(String::from),
        None => None,
    }
}

/// Relies on dirs::data_dir: the user's data directory, if the platform and
/// environment define one (a non-UTF-8 path reads as `None`).
#[verifier::external_body]
fn data_dir() -> (r: Option<String>) {
    match dirs::data_dir() {
        Some(p) => p.to_str().map(String::from),
        None => None,
    }
}

/// Path of the storage disk under the user's data directory: the local data
/// directory when there is one, else the data directory.
pub fn storage_path_from(local: Option<String>, data: Option<String>) -> (r: Result<String, StorageError>)
    ensures
        local is Some ==> r is Ok && r->Ok_0@ == local->Some_0@ + "/smolvm/storage.raw"@,
        local is None && data is Some ==> r is Ok && r->Ok_0@ == data->Some_0@ + "/smolvm/storage.raw"@,
        local is None && data is None ==> r == Err::<String, StorageError>(StorageError::NoDataDir),
{
    match local {
        Some(d) => Ok(d.concat("/smolvm/storage.raw")),
        None => match data {
            Some(d) => Ok(d.concat("/smolvm/storage.raw")),
            None => Err(StorageError::NoDataDir),
        },
    }
}

impl StorageDisk {
    pub closed spec fn view(&self) -> (Seq<char>, u64) {
        (self.path@, self.size_bytes)
    }

    /// `<data dir>/smolvm/storage.raw`, the local data directory preferred.
    pub fn default_path() -> (r: Result<String, StorageError>)
        ensures
            r is Ok ==> exists|d: Seq<char>| r->Ok_0@ == d + "/smolvm/storage.raw"@,
            r is Err ==> r == Err::<String, StorageError>(StorageError::NoDataDir),
    {
        storage_path_from(data_local_dir(), data_dir())
    }

    /// Open the disk at `path`, whose current length is `existing_len` when
    /// the file exists. Returns the disk and whether the caller must create
    /// it as a sparse file of `size_bytes()` bytes.
    pub fn open_or_create_at(path: &str, size_gb: u64, existing_len: Option<u64>) -> (r: Result<(StorageDisk, bool), StorageError>)
        ensures
            size_gb == 0 ==> r == Err::<(StorageDisk, bool), StorageError>(StorageError::ZeroSize),
            size_gb > 0 && size_gb * GIB > u64::MAX ==> r == Err::<(StorageDisk, bool), StorageError>(StorageError::TooLarge),
            size_gb > 0 && size_gb * GIB <= u64::MAX ==> r is Ok && open_result(path@, size_gb, existing_len, r->Ok_0.0.view(), r->Ok_0.1),
    {
        let size_bytes = match disk_size_bytes(size_gb) {
            Ok(b) => b,
            Err(e) => return Err(e),
        };
        match existing_len {
            Some(len) => Ok((StorageDisk { path: path.to_string(), size_bytes: len }, false)),
            None => Ok((StorageDisk { path: path.to_string(), size_bytes }, true)),
        }
    }

    /// Open the disk at the default path with a custom size.
    pub fn open_or_create_with_size(size_gb: u64, existing_len: Option<u64>) -> (r: Result<(StorageDisk, bool), StorageError>)
        ensures
            size_gb == 0 ==> r == Err::<(StorageDisk, bool), StorageError>(StorageError::ZeroSize),
            size_gb > 0 && size_gb * GIB > u64::MAX ==> r == Err::<(StorageDisk, bool), StorageError>(StorageError::TooLarge),
            size_gb > 0 && size_gb * GIB <= u64::MAX ==> r == Err::<(StorageDisk, bool), StorageError>(StorageError::NoDataDir) || (
            r is Ok && exists|d: Seq<char>| open_result(d + "/smolvm/storage.raw"@, size_gb, existing_len, r->Ok_0.0.view(), r->Ok_0.1)),
    {
        if let Err(e) = disk_size_bytes(size_gb) {
            return Err(e);
        }
        let path = match Self::default_path() {
            Ok(p) => p,
            Err(e) => return Err(e),
        };
        Self::open_or_create_at(path.as_str(), size_gb, existing_len)
    }

    /// Open the disk at the default path with the default size (20 GiB).
    pub fn open_or_create(existing_len: Option<u64>) -> (r: Result<(StorageDisk, bool), StorageError>)
        ensures
            r == Err::<(StorageDisk, bool), StorageError>(StorageError::NoDataDir) || (r is Ok && exists|d: Seq<char>|
                open_result(d + "/smolvm/storage.raw"@, DEFAULT_STORAGE_SIZE_GB, existing_len, r->Ok_0.0.view(), r->Ok_0.1)),
    {
        Self::open_or_create_with_size(DEFAULT_STORAGE_SIZE_GB, existing_len)
    }

    /// Decide whether the disk must be formatted; see `disk_needs_format`.
    pub fn needs_format(&self, marker_exists: bool, disk_exists: bool, looks_ext: bool) -> (r: FormatCheck)
        ensures
            r == disk_needs_format_spec(marker_exists, disk_exists, looks_ext),
    {
        disk_needs_format(marker_exists, disk_exists, looks_ext)
    }

    /// How to bring the disk to a formatted state, given whether it needs
    /// formatting and the storage template found, if any.
    pub fn ensure_formatted(&self, needs_format: bool, template: Option<String>) -> (r: FormatPlan)
        ensures
            !needs_format ==> r is AlreadyFormatted,
            needs_format && template is Some ==> r is CopyTemplate && r->CopyTemplate_0 == template->Some_0,
            needs_format && template is None ==> r is Mkfs && r->Mkfs_0@ == "smolvm"@,
    {
        format_plan(needs_format, template, "smolvm")
    }

    /// Path of the disk image.
    pub fn path(&self) -> (r: &str)
        ensures
            r@ == self.view().0,
    {
        self.path.as_str()
    }

    /// Size in bytes.
    pub fn size_bytes(&self) -> (r: u64)
        ensures
            r == self.view().1,
    {
        self.size_bytes
    }

    /// Size in whole GiB.
    pub fn size_gb(&self) -> (r: u64)
        ensures
            r == self.view().1 / GIB,
    {
        self.size_bytes / GIB
    }

    /// Path of the marker file.
    pub fn marker_path(&self) -> (r: String)
        ensures
            r@ == self.view().0 + ".formatted"@,
    {
        disk_marker_path(self.path.as_str())
    }
}

/// The decision of `disk_needs_format`.
pub open spec fn disk_needs_format_spec(marker_exists: bool, disk_exists: bool, looks_ext: bool) -> FormatCheck {
    if !marker_exists {
        FormatCheck { needs_format: true, remove_marker: false, remove_disk: false }
    } else if !disk_exists {
        FormatCheck { needs_format: true, remove_marker: true, remove_disk: false }
    } else if !looks_ext {
        FormatCheck { needs_format: true, remove_marker: true, remove_disk: true }
    } else {
        FormatCheck { needs_format: false, remove_marker: false, remove_disk: false }
    }
}

/// The persistent rootfs overlay disk.
#[derive(Debug, Clone)]
pub struct OverlayDisk {
    path: String,
    size_bytes: u64,
}

impl OverlayDisk {
    pub closed spec fn view(&self) -> (Seq<char>, u64) {
        (self.path@, self.size_bytes)
    }

    /// Open the overlay disk at `path`; see `StorageDisk::open_or_create_at`.
    pub fn open_or_create_at(path: &str, size_gb: u64, existing_len: Option<u64>) -> (r: Result<(OverlayDisk, bool), StorageError>)
        ensures
            size_gb == 0 ==> r == Err::<(OverlayDisk, bool), StorageError>(StorageError::ZeroSize),
            size_gb > 0 && size_gb * GIB > u64::MAX ==> r == Err::<(OverlayDisk, bool), StorageError>(StorageError::TooLarge),
            size_gb > 0 && size_gb * GIB <= u64::MAX ==> r is Ok && open_result(path@, size_gb, existing_len, r->Ok_0.0.view(), r->Ok_0.1),
    {
        let size_bytes = match disk_size_bytes(size_gb) {
            Ok(b) => b,
            Err(e) => return Err(e),
        };
        match existing_len {
            Some(len) => Ok((OverlayDisk { path: path.to_string(), size_bytes: len }, false)),
            None => Ok((OverlayDisk { path: path.to_string(), size_bytes }, true)),
        }
    }

    /// Decide whether the disk must be formatted; see `disk_needs_format`.
    pub fn needs_format(&self, marker_exists: bool, disk_exists: bool, looks_ext: bool) -> (r: FormatCheck)
        ensures
            r == disk_needs_format_spec(marker_exists, disk_exists, looks_ext),
    {
        disk_needs_format(marker_exists, disk_exists, looks_ext)
    }

    /// How to bring the disk to a formatted state.
    pub fn ensure_formatted(&self, needs_format: bool, template: Option<String>) -> (r: FormatPlan)
        ensures
            !needs_format ==> r is AlreadyFormatted,
            needs_format && template is Some ==> r is CopyTemplate && r->CopyTemplate_0 == template->Some_0,
            needs_format && template is None ==> r is Mkfs && r->Mkfs_0@ == "smolvm-overlay"@,
    {
        format_plan(needs_format, template, "smolvm-overlay")
    }

    /// Path of the disk image.
    pub fn path(&self) -> (r: &str)
        ensures
            r@ == self.view().0,
    {
        self.path.as_str()
    }

    /// Size in bytes.
    pub fn size_bytes(&self) -> (r: u64)
        ensures
            r == self.view().1,
    {
        self.size_bytes
    }

    /// Path of the marker file.
    pub fn marker_path(&self) -> (r: String)
        ensures
            r@ == self.view().0 + ".formatted"@,
    {
        disk_marker_path(self.path.as_str())
    }
}

} // verus!

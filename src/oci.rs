//! OCI runtime bundle synthesis and validation of caller-supplied inputs.
//!
//! `OciSpec::new` builds the `config.json` model of a container bundle with
//! fixed defaults (capabilities, namespaces, masked paths, devices, mounts).

use vstd::prelude::*;
use crate::validation::is_ascii_alnum;
use crate::validation::is_alnum;

verus! {

/// OCI runtime specification (the subset used for container execution).
#[derive(Debug, Clone)]
pub struct OciSpec {
    pub oci_version: String,
    pub root: OciRoot,
    pub process: OciProcess,
    pub linux: OciLinux,
    pub mounts: Vec<OciMount>,
    pub hostname: Option<String>,
}

/// Root filesystem configuration.
#[derive(Debug, Clone)]
pub struct OciRoot {
    /// Path to the root filesystem (relative to the bundle or absolute).
    pub path: String,
    /// Whether the root filesystem is mounted read-only.
    pub readonly: bool,
}

/// Process configuration for the container.
#[derive(Debug, Clone)]
pub struct OciProcess {
    pub terminal: bool,
    pub user: OciUser,
    pub args: Vec<String>,
    /// Environment in `KEY=VALUE` form.
    pub env: Vec<String>,
    pub cwd: String,
    pub capabilities: Option<OciCapabilities>,
    pub rlimits: Option<Vec<OciRlimit>>,
    pub no_new_privileges: bool,
}

/// User and group ids.
#[derive(Debug, Clone)]
pub struct OciUser {
    pub uid: u32,
    pub gid: u32,
    pub additional_gids: Vec<u32>,
}

/// Linux capability sets.
#[derive(Debug, Clone)]
pub struct OciCapabilities {
    pub bounding: Vec<String>,
    pub effective: Vec<String>,
    pub inheritable: Vec<String>,
    pub permitted: Vec<String>,
    pub ambient: Vec<String>,
}

/// A resource limit.
#[derive(Debug, Clone)]
pub struct OciRlimit {
    pub rlimit_type: String,
    pub hard: u64,
    pub soft: u64,
}

/// Linux-specific configuration.
#[derive(Debug, Clone)]
pub struct OciLinux {
    pub namespaces: Vec<OciNamespace>,
    pub devices: Vec<OciDevice>,
    pub masked_paths: Vec<String>,
    pub readonly_paths: Vec<String>,
}

/// A device node created in the container.
#[derive(Debug, Clone)]
pub struct OciDevice {
    /// `c` (char), `b` (block) or `p` (pipe).
    pub device_type: String,
    pub path: String,
    pub major: u32,
    pub minor: u32,
    pub file_mode: Option<u32>,
    pub uid: Option<u32>,
    pub gid: Option<u32>,
}

/// A namespace to create (or join, when `path` is set).
#[derive(Debug, Clone)]
pub struct OciNamespace {
    pub ns_type: String,
    pub path: Option<String>,
}

/// A mount inside the container.
#[derive(Debug, Clone)]
pub struct OciMount {
    pub destination: String,
    pub mount_type: Option<String>,
    pub source: String,
    pub options: Vec<String>,
}

/// The characters of each string in a sequence.
pub open spec fn texts(v: Seq<String>) -> Seq<Seq<char>> {
    v.map_values(|s: String| s@)
}

pub open spec fn default_capabilities_spec() -> Seq<Seq<char>> {
    seq![
        "CAP_CHOWN"@, "CAP_DAC_OVERRIDE"@, "CAP_FSETID"@, "CAP_FOWNER"@, "CAP_MKNOD"@,
        "CAP_NET_RAW"@, "CAP_SETGID"@, "CAP_SETUID"@, "CAP_SETFCAP"@, "CAP_SETPCAP"@,
        "CAP_NET_BIND_SERVICE"@, "CAP_SYS_CHROOT"@, "CAP_KILL"@, "CAP_AUDIT_WRITE"@,
    ]
}

pub open spec fn masked_paths_spec() -> Seq<Seq<char>> {
    seq![
        "/proc/asound"@, "/proc/acpi"@, "/proc/kcore"@, "/proc/keys"@, "/proc/latency_stats"@,
        "/proc/timer_list"@, "/proc/timer_stats"@, "/proc/sched_debug"@, "/proc/scsi"@,
        "/sys/firmware"@,
    ]
}

pub open spec fn readonly_paths_spec() -> Seq<Seq<char>> {
    seq!["/proc/bus"@, "/proc/fs"@, "/proc/irq"@, "/proc/sys"@, "/proc/sysrq-trigger"@]
}

pub open spec fn namespaces_spec() -> Seq<Seq<char>> {
    seq!["pid"@, "mount"@, "ipc"@, "uts"@]
}

pub open spec fn default_env_spec() -> Seq<Seq<char>> {
    seq![
        "PATH=/usr/local/sbin:/usr/local/bin:/usr/sbin:/usr/bin:/sbin:/bin"@,
        "HOME=/root"@,
        "TERM=xterm-256color"@,
    ]
}

/// `KEY=VALUE`.
pub open spec fn env_entry(k: Seq<char>, v: Seq<char>) -> Seq<char> {
    k + "="@ + v
}

/// The (path, major, minor) of each default device node.
pub open spec fn default_devices_spec() -> Seq<(Seq<char>, u32, u32)> {
    seq![
        ("/dev/null"@, 1u32, 3u32), ("/dev/zero"@, 1u32, 5u32), ("/dev/full"@, 1u32, 7u32),
        ("/dev/random"@, 1u32, 8u32), ("/dev/urandom"@, 1u32, 9u32), ("/dev/tty"@, 5u32, 0u32),
    ]
}

/// A character device owned by root with mode 0666.
pub open spec fn device_matches(d: OciDevice, want: (Seq<char>, u32, u32)) -> bool {
    &&& d.device_type@ == "c"@
    &&& d.path@ == want.0
    &&& d.major == want.1
    &&& d.minor == want.2
    &&& d.file_mode == Some(0o666u32)
    &&& d.uid == Some(0u32)
    &&& d.gid == Some(0u32)
}

/// The (destination, type, source, options) of each default mount.
pub open spec fn default_mounts_spec() -> Seq<(Seq<char>, Seq<char>, Seq<char>, Seq<Seq<char>>)> {
    seq![
        ("/proc"@, "proc"@, "proc"@, seq!["nosuid"@, "noexec"@, "nodev"@]),
        ("/dev"@, "tmpfs"@, "tmpfs"@, seq!["nosuid"@, "strictatime"@, "mode=755"@, "size=65536k"@]),
        ("/dev/pts"@, "devpts"@, "devpts"@, seq!["nosuid"@, "noexec"@, "newinstance"@, "ptmxmode=0666"@, "mode=0620"@]),
        ("/dev/shm"@, "tmpfs"@, "shm"@, seq!["nosuid"@, "noexec"@, "nodev"@, "mode=1777"@, "size=65536k"@]),
        ("/dev/mqueue"@, "mqueue"@, "mqueue"@, seq!["nosuid"@, "noexec"@, "nodev"@]),
        ("/sys"@, "sysfs"@, "sysfs"@, seq!["nosuid"@, "noexec"@, "nodev"@, "ro"@]),
        ("/sys/fs/cgroup"@, "cgroup2"@, "cgroup"@, seq!["nosuid"@, "noexec"@, "nodev"@, "ro"@]),
    ]
}

pub open spec fn mount_matches(m: OciMount, want: (Seq<char>, Seq<char>, Seq<char>, Seq<Seq<char>>)) -> bool {
    &&& m.destination@ == want.0
    &&& m.mount_type is Some && m.mount_type->Some_0@ == want.1
    &&& m.source@ == want.2
    &&& texts(m.options@) == want.3
}

fn strings(lits: &[&str]) -> (r: Vec<String>)
    ensures
        texts(r@) == lits@.map_values(|s: &str| s@),
{
    let mut r: Vec<String> = Vec::new();
    let mut i: usize = 0;
    while i < lits.len()
        invariant
            0 <= i <= lits@.len(),
            r@.len() == i,
            forall|j: int| 0 <= j < i ==> (#[trigger] r@[j])@ == lits@[j]@,
        decreases lits@.len() - i,
    {
        r.push(lits[i].to_string());
        i = i + 1;
    }
    assert(texts(r@) =~= lits@.map_values(|s: &str| s@));
    r
}

/// The default capability allow-list for root containers.
fn default_capabilities() -> (r: Vec<String>)
    ensures
        texts(r@) == default_capabilities_spec(),
{
    let r = strings(
        &[
            "CAP_CHOWN", "CAP_DAC_OVERRIDE", "CAP_FSETID", "CAP_FOWNER", "CAP_MKNOD",
            "CAP_NET_RAW", "CAP_SETGID", "CAP_SETUID", "CAP_SETFCAP", "CAP_SETPCAP",
            "CAP_NET_BIND_SERVICE", "CAP_SYS_CHROOT", "CAP_KILL", "CAP_AUDIT_WRITE",
        ],
    );
    assert(texts(r@) =~= default_capabilities_spec());
    r
}

fn char_device(path: &str, major: u32, minor: u32) -> (d: OciDevice)
    ensures
        device_matches(d, (path@, major, minor)),
{
    OciDevice {
        device_type: "c".to_string(),
        path: path.to_string(),
        major,
        minor,
        file_mode: Some(0o666),
        uid: Some(0),
        gid: Some(0),
    }
}

/// The default device nodes: null, zero, full, random, urandom and tty.
fn default_devices() -> (r: Vec<OciDevice>)
    ensures
        r@.len() == default_devices_spec().len(),
        forall|i: int| 0 <= i < r@.len() ==> device_matches(#[trigger] r@[i], default_devices_spec()[i]),
{
    let r = vec![
        char_device("/dev/null", 1, 3),
        char_device("/dev/zero", 1, 5),
        char_device("/dev/full", 1, 7),
        char_device("/dev/random", 1, 8),
        char_device("/dev/urandom", 1, 9),
        char_device("/dev/tty", 5, 0),
    ];
    r
}

fn mount_of(destination: &str, mount_type: &str, source: &str, options: &[&str]) -> (m: OciMount)
    ensures
        mount_matches(m, (destination@, mount_type@, source@, options@.map_values(|s: &str| s@))),
{
    OciMount {
        destination: destination.to_string(),
        mount_type: Some(mount_type.to_string()),
        source: source.to_string(),
        options: strings(options),
    }
}

/// The default mounts: proc, /dev, devpts, shm, mqueue, sysfs (ro) and cgroup2 (ro).
fn default_mounts() -> (r: Vec<OciMount>)
    ensures
        r@.len() == default_mounts_spec().len(),
        forall|i: int| 0 <= i < r@.len() ==> mount_matches(#[trigger] r@[i], default_mounts_spec()[i]),
{
    let m0 = mount_of("/proc", "proc", "proc", &["nosuid", "noexec", "nodev"]);
    let m1 = mount_of("/dev", "tmpfs", "tmpfs", &["nosuid", "strictatime", "mode=755", "size=65536k"]);
    let m2 = mount_of(
        "/dev/pts",
        "devpts",
        "devpts",
        &["nosuid", "noexec", "newinstance", "ptmxmode=0666", "mode=0620"],
    );
    let m3 = mount_of(
        "/dev/shm",
        "tmpfs",
        "shm",
        &["nosuid", "noexec", "nodev", "mode=1777", "size=65536k"],
    );
    let m4 = mount_of("/dev/mqueue", "mqueue", "mqueue", &["nosuid", "noexec", "nodev"]);
    let m5 = mount_of("/sys", "sysfs", "sysfs", &["nosuid", "noexec", "nodev", "ro"]);
    let m6 = mount_of("/sys/fs/cgroup", "cgroup2", "cgroup", &["nosuid", "noexec", "nodev", "ro"]);
    proof {
        let sp = default_mounts_spec();
        assert(texts(m0.options@) =~= sp[0].3);
        assert(texts(m1.options@) =~= sp[1].3);
        assert(texts(m2.options@) =~= sp[2].3);
        assert(texts(m3.options@) =~= sp[3].3);
        assert(texts(m4.options@) =~= sp[4].3);
        assert(texts(m5.options@) =~= sp[5].3);
        assert(texts(m6.options@) =~= sp[6].3);
    }
    vec![m0, m1, m2, m3, m4, m5, m6]
}

/// Length of an image reference's allowed range, in characters.
pub const MAX_IMAGE_REF_LENGTH: usize = 512;

/// Longest environment key, in characters.
pub const MAX_ENV_KEY_LEN: usize = 256;

/// Longest environment value, in bytes.
pub const MAX_ENV_VALUE_LEN: usize = 32768;

/// Characters allowed in an image reference: `[A-Za-z0-9._/:@-]`.
pub open spec fn ref_char_ok(c: char) -> bool {
    is_alnum(c) || c == '.' || c == '-' || c == '_' || c == '/' || c == ':' || c == '@'
}

pub open spec fn has_dot_dot(s: Seq<char>) -> bool {
    exists|i: int| 0 <= i && i + 1 < s.len() && #[trigger] s[i] == '.' && s[i + 1] == '.'
}

pub open spec fn has_slash(s: Seq<char>) -> bool {
    exists|i: int| 0 <= i < s.len() && #[trigger] s[i] == '/'
}

/// A well-formed image reference: 1..=512 characters of `[A-Za-z0-9._/:@-]`,
/// starting and ending with a letter or digit, and not holding `..`
/// together with `/`. Shell metacharacters are outside the character set.
pub open spec fn image_ref_ok(s: Seq<char>) -> bool {
    &&& 1 <= s.len() <= MAX_IMAGE_REF_LENGTH
    &&& forall|i: int| 0 <= i < s.len() ==> ref_char_ok(#[trigger] s[i])
    &&& is_alnum(s[0])
    &&& is_alnum(s.last())
    &&& !(has_dot_dot(s) && has_slash(s))
}

/// Characters that could drive a shell.
pub open spec fn forbidden_char(c: char) -> bool {
    c == '$' || c == '`' || c == '|' || c == ';' || c == '&' || c == '>' || c == '<' || c == '\n'
        || c == '\r' || c == '\0'
}

/// Validate an OCI image reference (`[registry/][repository/]name[:tag][@digest]`).
pub fn validate_image_reference(image: &str) -> (r: Result<(), String>)
    ensures
        r is Ok <==> image_ref_ok(image@),
{
    let n = image.unicode_len();
    if n == 0 {
        return Err("image reference cannot be empty".to_string());
    }
    if n > MAX_IMAGE_REF_LENGTH {
        return Err("image reference too long".to_string());
    }
    let mut forbidden = false;
    let mut dot_dot = false;
    let mut slash = false;
    let mut all_ok = true;
    let mut i: usize = 0;
    while i < n
        invariant
            n == image@.len(),
            0 <= i <= n,
            forbidden ==> exists|j: int| 0 <= j < i && forbidden_char(#[trigger] image@[j]),
            dot_dot <==> exists|j: int| 0 <= j && j + 1 < n && j < i && #[trigger] image@[j] == '.' && image@[j + 1] == '.',
            slash <==> exists|j: int| 0 <= j < i && #[trigger] image@[j] == '/',
            all_ok <==> forall|j: int| 0 <= j < i ==> ref_char_ok(#[trigger] image@[j]),
        decreases n - i,
    {
        let c = image.get_char(i);
        if c == '$' || c == '`' || c == '|' || c == ';' || c == '&' || c == '>' || c == '<' || c == '\n'
            || c == '\r' || c == '\0' {
            forbidden = true;
        }
        if c == '/' {
            slash = true;
        }
        if c == '.' && i + 1 < n && image.get_char(i + 1) == '.' {
            dot_dot = true;
        }
        if !(is_ascii_alnum(c) || c == '.' || c == '-' || c == '_' || c == '/' || c == ':' || c == '@') {
            all_ok = false;
        }
        i = i + 1;
    }
    if forbidden {
        let ghost j = choose|j: int| 0 <= j < n && forbidden_char(#[trigger] image@[j]);
        assert(!ref_char_ok(image@[j]));
        return Err("image reference contains a forbidden character".to_string());
    }
    if dot_dot && slash {
        return Err("image reference contains suspicious path traversal".to_string());
    }
    if !all_ok {
        return Err("image reference contains invalid characters".to_string());
    }
    if !is_ascii_alnum(image.get_char(0)) {
        return Err("image reference must start with alphanumeric character".to_string());
    }
    if !is_ascii_alnum(image.get_char(n - 1)) {
        return Err("image reference must end with alphanumeric character".to_string());
    }
    Ok(())
}

/// An environment key: 1..=256 characters matching `[A-Za-z_][A-Za-z0-9_]*`.
pub open spec fn env_key_ok(k: Seq<char>) -> bool {
    &&& 1 <= k.len() <= MAX_ENV_KEY_LEN
    &&& (is_alpha(k[0]) || k[0] == '_')
    &&& forall|i: int| 0 <= i < k.len() ==> (is_alnum(#[trigger] k[i]) || k[i] == '_')
}

pub open spec fn is_alpha(c: char) -> bool {
    ('a' <= c && c <= 'z') || ('A' <= c && c <= 'Z')
}

/// Size of a string in UTF-8 bytes, as `str::len` reports it.
pub open spec fn byte_len(s: Seq<char>) -> usize {
    vstd::utf8::encode_utf8(s).len() as usize
}

/// Every key is well-formed and every value is at most 32 KiB.
pub open spec fn env_ok(env: Seq<(String, String)>) -> bool {
    forall|i: int| 0 <= i < env.len() ==> env_key_ok((#[trigger] env[i]).0@) && byte_len(env[i].1@) <= MAX_ENV_VALUE_LEN
}

fn env_key_valid(key: &String) -> (r: bool)
    ensures
        r == env_key_ok(key@),
{
    let n = key.as_str().unicode_len();
    if n == 0 || n > MAX_ENV_KEY_LEN {
        return false;
    }
    let first = key.as_str().get_char(0);
    if !(('a' <= first && first <= 'z') || ('A' <= first && first <= 'Z') || first == '_') {
        return false;
    }
    let mut i: usize = 0;
    while i < n
        invariant
            n == key@.len(),
            0 <= i <= n,
            forall|j: int| 0 <= j < i ==> (is_alnum(#[trigger] key@[j]) || key@[j] == '_'),
        decreases n - i,
    {
        let c = key.as_str().get_char(i);
        if !(is_ascii_alnum(c) || c == '_') {
            return false;
        }
        i = i + 1;
    }
    true
}

/// Validate environment variables: keys match `[A-Za-z_][A-Za-z0-9_]*` and
/// are at most 256 characters; values are at most 32 KiB.
pub fn validate_env_vars(env: &[(String, String)]) -> (r: Result<(), String>)
    ensures
        r is Ok <==> env_ok(env@),
{
    let mut i: usize = 0;
    while i < env.len()
        invariant
            0 <= i <= env@.len(),
            forall|j: int| 0 <= j < i ==> env_key_ok((#[trigger] env@[j]).0@) && byte_len(env@[j].1@) <= MAX_ENV_VALUE_LEN,
        decreases env@.len() - i,
    {
        let key = &env[i].0;
        let value = env[i].1.as_str();
        if !env_key_valid(key) {
            return Err("environment variable key is invalid".to_string());
        }
        let value_len = value.len();
        assert(value_len == byte_len(env@[i as int].1@));
        if value_len > MAX_ENV_VALUE_LEN {
            return Err("environment variable value exceeds the size limit".to_string());
        }
        i = i + 1;
    }
    Ok(())
}

/// What `OciSpec::new` builds: the caller's command, environment (after the
/// three defaults), working directory and terminal flag, with every other
/// field at its fixed default.
pub open spec fn is_default_spec(
    r: OciSpec,
    command: Seq<String>,
    env: Seq<(String, String)>,
    workdir: Seq<char>,
    tty: bool,
) -> bool {
    &&& default_config(r, command, env, workdir, tty)
    &&& r.mounts@.len() == default_mounts_spec().len()
    &&& forall|i: int| 0 <= i < r.mounts@.len() ==> mount_matches(#[trigger] r.mounts@[i], default_mounts_spec()[i])
}

/// Every field but the mounts as `OciSpec::new` sets it.
pub open spec fn default_config(
    r: OciSpec,
    command: Seq<String>,
    env: Seq<(String, String)>,
    workdir: Seq<char>,
    tty: bool,
) -> bool {
    &&& r.oci_version@ == "1.0.2"@
    &&& r.root.path@ == "rootfs"@
    &&& !r.root.readonly
    &&& r.process.terminal == tty
    &&& r.process.user.uid == 0 && r.process.user.gid == 0
    &&& r.process.user.additional_gids@.len() == 0
    &&& r.process.args@ == command
    &&& r.process.env@.len() == 3 + env.len()
    &&& texts(r.process.env@).subrange(0, 3) == default_env_spec()
    &&& forall|i: int| 0 <= i < env.len() ==> (#[trigger] r.process.env@[3 + i])@ == env_entry(env[i].0@, env[i].1@)
    &&& r.process.cwd@ == workdir
    &&& r.process.capabilities is Some
    &&& texts(r.process.capabilities->Some_0.bounding@) == default_capabilities_spec()
    &&& texts(r.process.capabilities->Some_0.effective@) == default_capabilities_spec()
    &&& texts(r.process.capabilities->Some_0.permitted@) == default_capabilities_spec()
    &&& r.process.capabilities->Some_0.inheritable@.len() == 0
    &&& r.process.capabilities->Some_0.ambient@.len() == 0
    &&& r.process.rlimits is Some
    &&& r.process.rlimits->Some_0@.len() == 1
    &&& r.process.rlimits->Some_0@[0].rlimit_type@ == "RLIMIT_NOFILE"@
    &&& r.process.rlimits->Some_0@[0].hard == 1024
    &&& r.process.rlimits->Some_0@[0].soft == 1024
    &&& !r.process.no_new_privileges
    &&& r.linux.namespaces@.len() == 4
    &&& forall|i: int| 0 <= i < 4 ==> (#[trigger] r.linux.namespaces@[i]).ns_type@ == namespaces_spec()[i]
        && r.linux.namespaces@[i].path is None
    &&& r.linux.devices@.len() == default_devices_spec().len()
    &&& forall|i: int| 0 <= i < r.linux.devices@.len() ==> device_matches(#[trigger] r.linux.devices@[i], default_devices_spec()[i])
    &&& texts(r.linux.masked_paths@) == masked_paths_spec()
    &&& texts(r.linux.readonly_paths@) == readonly_paths_spec()
    &&& r.hostname is Some && r.hostname->Some_0@ == "container"@
}

/// Options of a bind mount: `bind, rprivate`, then `ro` when read-only.
pub open spec fn bind_options(read_only: bool) -> Seq<Seq<char>> {
    if read_only {
        seq!["bind"@, "rprivate"@, "ro"@]
    } else {
        seq!["bind"@, "rprivate"@]
    }
}

fn namespace(ns_type: &str) -> (r: OciNamespace)
    ensures
        r.ns_type@ == ns_type@,
        r.path is None,
{
    OciNamespace { ns_type: ns_type.to_string(), path: None }
}

impl OciSpec {
    /// Create a spec with the default settings for running `command` as root.
    pub fn new(command: &[String], env: &[(String, String)], workdir: &str, tty: bool) -> (r: Self)
        ensures
            is_default_spec(r, command@, env@, workdir@, tty),
    {
        let mut env_strings = strings(
            &[
                "PATH=/usr/local/sbin:/usr/local/bin:/usr/sbin:/usr/bin:/sbin:/bin",
                "HOME=/root",
                "TERM=xterm-256color",
            ],
        );
        assert(texts(env_strings@) =~= default_env_spec());
        let mut i: usize = 0;
        while i < env.len()
            invariant
                0 <= i <= env@.len(),
                env_strings@.len() == 3 + i,
                texts(env_strings@).subrange(0, 3) == default_env_spec(),
                forall|j: int| 0 <= j < i ==> (#[trigger] env_strings@[3 + j])@ == env_entry(env@[j].0@, env@[j].1@),
            decreases env@.len() - i,
        {
            let entry = env[i].0.clone().concat("=").concat(env[i].1.as_str());
            let ghost before = env_strings@;
            env_strings.push(entry);
            assert(texts(env_strings@).subrange(0, 3) =~= texts(before).subrange(0, 3));
            i = i + 1;
        }
        let mut args: Vec<String> = Vec::new();
        let mut k: usize = 0;
        while k < command.len()
            invariant
                0 <= k <= command@.len(),
                args@ == command@.subrange(0, k as int),
            decreases command@.len() - k,
        {
            args.push(command[k].clone());
            k = k + 1;
            assert(args@ =~= command@.subrange(0, k as int));
        }
        assert(args@ =~= command@);
        let capabilities = OciCapabilities {
            bounding: default_capabilities(),
            effective: default_capabilities(),
            inheritable: Vec::new(),
            permitted: default_capabilities(),
            ambient: Vec::new(),
        };
        let masked_paths = strings(
            &[
                "/proc/asound", "/proc/acpi", "/proc/kcore", "/proc/keys", "/proc/latency_stats",
                "/proc/timer_list", "/proc/timer_stats", "/proc/sched_debug", "/proc/scsi",
                "/sys/firmware",
            ],
        );
        assert(texts(masked_paths@) =~= masked_paths_spec());
        let readonly_paths = strings(
            &["/proc/bus", "/proc/fs", "/proc/irq", "/proc/sys", "/proc/sysrq-trigger"],
        );
        assert(texts(readonly_paths@) =~= readonly_paths_spec());
        let namespaces = vec![namespace("pid"), namespace("mount"), namespace("ipc"), namespace("uts")];
        let rlimits = vec![OciRlimit { rlimit_type: "RLIMIT_NOFILE".to_string(), hard: 1024, soft: 1024 }];
        OciSpec {
            oci_version: "1.0.2".to_string(),
            root: OciRoot { path: "rootfs".to_string(), readonly: false },
            process: OciProcess {
                terminal: tty,
                user: OciUser { uid: 0, gid: 0, additional_gids: Vec::new() },
                args,
                env: env_strings,
                cwd: workdir.to_string(),
                capabilities: Some(capabilities),
                rlimits: Some(rlimits),
                no_new_privileges: false,
            },
            linux: OciLinux {
                namespaces,
                devices: default_devices(),
                masked_paths,
                readonly_paths,
            },
            mounts: default_mounts(),
            hostname: Some("container".to_string()),
        }
    }

    /// Append a bind mount of `source` at `destination`, read-only when asked.
    pub fn add_bind_mount(&mut self, source: &str, destination: &str, read_only: bool)
        ensures
            final(self).mounts@.len() == old(self).mounts@.len() + 1,
            final(self).mounts@.subrange(0, old(self).mounts@.len() as int) == old(self).mounts@,
            final(self).mounts@.last().destination@ == destination@,
            final(self).mounts@.last().source@ == source@,
            final(self).mounts@.last().mount_type is Some,
            final(self).mounts@.last().mount_type->Some_0@ == "bind"@,
            texts(final(self).mounts@.last().options@) == bind_options(read_only),
            final(self).oci_version == old(self).oci_version,
            final(self).root == old(self).root,
            final(self).process == old(self).process,
            final(self).linux == old(self).linux,
            final(self).hostname == old(self).hostname,
    {
        let mut options = vec!["bind".to_string(), "rprivate".to_string()];
        if read_only {
            options.push("ro".to_string());
        }
        assert(texts(options@) =~= bind_options(read_only));
        let m = OciMount {
            destination: destination.to_string(),
            mount_type: Some("bind".to_string()),
            source: source.to_string(),
            options,
        };
        self.mounts.push(m);
        assert(self.mounts@.subrange(0, old(self).mounts@.len() as int) =~= old(self).mounts@);
    }
}

} // verus!

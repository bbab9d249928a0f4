//! The container runtime adapter: the OCI runtime's command line, the
//! bundle of a `Run`, bounded output capture, and container ids.

use vstd::prelude::*;
use crate::oci::{bind_options, default_config, default_mounts_spec, mount_matches, texts, OciSpec};
use crate::paths::virtiofs_mount_path;

verus! {

/// Default bound on each captured output stream: 4 MiB.
pub const MAX_CAPTURE_BYTES: usize = 4194304;

/// Exit code reported for a run stopped at its timeout (128 + SIGKILL).
pub const TIMEOUT_EXIT_CODE: i32 = 137;

/// Appended to a capture that was cut at its bound.
pub const TRUNCATION_MARKER: &'static str = "\n[output truncated]\n";

pub open spec fn run_args_spec(bundle: Seq<char>, id: Seq<char>) -> Seq<Seq<char>> {
    seq!["--cgroup-manager=disabled"@, "run"@, "--bundle"@, bundle, id]
}

/// Arguments of the OCI runtime for running container `id` from `bundle`.
/// The cgroup manager is disabled: the guest mounts cgroup2 read-only.
pub fn runtime_run_args(bundle: &str, id: &str) -> (r: Vec<String>)
    ensures
        r@.map_values(|s: String| s@) == run_args_spec(bundle@, id@),
{
    let r = vec![
        "--cgroup-manager=disabled".to_string(),
        "run".to_string(),
        "--bundle".to_string(),
        bundle.to_string(),
        id.to_string(),
    ];
    assert(r@.map_values(|s: String| s@) =~= run_args_spec(bundle@, id@));
    r
}

/// What a bounded capture keeps of `data`: all of it when it fits, else the
/// first `limit` bytes.
pub open spec fn captured(data: Seq<u8>, limit: nat) -> Seq<u8> {
    if data.len() <= limit { data } else { data.subrange(0, limit as int) }
}

/// Keep at most `limit` bytes of an output stream; returns the kept bytes
/// and whether any were cut (the caller appends the truncation marker).
pub fn capture_output(data: &[u8], limit: usize) -> (r: (Vec<u8>, bool))
    ensures
        r.0@ == captured(data@, limit as nat),
        r.1 == (data@.len() > limit),
{
    let n = if data.len() <= limit { data.len() } else { limit };
    let mut out: Vec<u8> = Vec::new();
    let mut i: usize = 0;
    while i < n
        invariant
            0 <= i <= n,
            n <= data@.len(),
            n == (if data@.len() <= limit { data@.len() } else { limit as nat }),
            out@ == data@.subrange(0, i as int),
        decreases n - i,
    {
        out.push(data[i]);
        i = i + 1;
        assert(out@ =~= data@.subrange(0, i as int));
    }
    assert(data@.subrange(0, data@.len() as int) =~= data@);
    (out, data.len() > limit)
}

/// A bind mount of the virtiofs share `m.0` at `m.1`, read-only when `m.2`.
pub open spec fn is_share_bind(o: crate::oci::OciMount, m: (String, String, bool)) -> bool {
    &&& o.destination@ == m.1@
    &&& o.source@ == "/mnt/virtiofs/"@ + m.0@
    &&& o.mount_type is Some && o.mount_type->Some_0@ == "bind"@
    &&& texts(o.options@) == bind_options(m.2)
}

/// The bundle config of a `Run`: the default spec (see `OciSpec::new`) with
/// the working directory (or `/`), no terminal, the default mounts, and then
/// each mount `(tag, container path, read-only)` bound from its virtiofs
/// mount point.
pub fn run_spec(
    command: &[String],
    env: &[(String, String)],
    workdir: &Option<String>,
    mounts: &[(String, String, bool)],
) -> (r: OciSpec)
    ensures
        default_config(r, command@, env@, match workdir { Some(w) => w@, None => "/"@ }, false),
        r.mounts@.len() == default_mounts_spec().len() + mounts@.len(),
        forall|i: int| 0 <= i < default_mounts_spec().len() ==> mount_matches(#[trigger] r.mounts@[i], default_mounts_spec()[i]),
        forall|i: int| 0 <= i < mounts@.len() ==> is_share_bind(#[trigger] r.mounts@[default_mounts_spec().len() + i], mounts@[i]),
{
    let cwd: &str = match workdir {
        Some(w) => w.as_str(),
        None => "/",
    };
    let mut spec = OciSpec::new(command, env, cwd, false);
    let base = spec.mounts.len();
    let mut i: usize = 0;
    while i < mounts.len()
        invariant
            0 <= i <= mounts@.len(),
            base == default_mounts_spec().len(),
            spec.mounts@.len() == base + i,
            default_config(spec, command@, env@, cwd@, false),
            forall|j: int| 0 <= j < base ==> mount_matches(#[trigger] spec.mounts@[j], default_mounts_spec()[j]),
            forall|j: int| 0 <= j < i ==> is_share_bind(#[trigger] spec.mounts@[base + j], mounts@[j]),
        decreases mounts@.len() - i,
    {
        let source = virtiofs_mount_path(mounts[i].0.as_str());
        let ghost before = spec.mounts@;
        spec.add_bind_mount(source.as_str(), mounts[i].1.as_str(), mounts[i].2);
        proof {
            assert forall|j: int| 0 <= j < base + i implies #[trigger] spec.mounts@[j] == before[j] by {
                assert(spec.mounts@.subrange(0, before.len() as int)[j] == before[j]);
            }
            assert forall|j: int| 0 <= j < base implies mount_matches(#[trigger] spec.mounts@[j], default_mounts_spec()[j]) by {
                assert(spec.mounts@[j] == before[j]);
            }
            assert forall|j: int| 0 <= j < i implies is_share_bind(#[trigger] spec.mounts@[base + j], mounts@[j]) by {
                assert(spec.mounts@[base + j] == before[base + j]);
            }
            assert(spec.mounts@[base + i] == spec.mounts@.last());
        }
        i = i + 1;
    }
    spec
}

/// The lower-case hex digit of a value below 16.
pub open spec fn hex_digit(d: nat) -> char {
    if d < 10 { ((d + 48) as u8) as char } else { ((d + 87) as u8) as char }
}

/// `v` as `k` lower-case hex digits, most significant first.
pub open spec fn hex_digits(v: nat, k: nat) -> Seq<char>
    decreases k,
{
    if k == 0 {
        Seq::empty()
    } else {
        hex_digits(v / 16, (k - 1) as nat).push(hex_digit(v % 16))
    }
}

fn hex_digit_str(d: u32) -> (r: &'static str)
    requires
        d < 16,
    ensures
        r@ == seq![hex_digit(d as nat)],
{
    proof {
        reveal_strlit("0"); reveal_strlit("1"); reveal_strlit("2"); reveal_strlit("3");
        reveal_strlit("4"); reveal_strlit("5"); reveal_strlit("6"); reveal_strlit("7");
        reveal_strlit("8"); reveal_strlit("9"); reveal_strlit("a"); reveal_strlit("b");
        reveal_strlit("c"); reveal_strlit("d"); reveal_strlit("e"); reveal_strlit("f");
    }
    let r = if d == 0 { "0" } else if d == 1 { "1" } else if d == 2 { "2" } else if d == 3 { "3" }
    else if d == 4 { "4" } else if d == 5 { "5" } else if d == 6 { "6" } else if d == 7 { "7" }
    else if d == 8 { "8" } else if d == 9 { "9" } else if d == 10 { "a" } else if d == 11 { "b" }
    else if d == 12 { "c" } else if d == 13 { "d" } else if d == 14 { "e" } else { "f" };
    assert(r@ =~= seq![hex_digit(d as nat)]);
    r
}

/// The low eight hex digits of `v`, zero-padded.
pub fn hex8_string(v: u32) -> (r: String)
    ensures
        r@ == hex_digits(v as nat, 8),
{
    let mut out = String::new();
    let mut m: u32 = v;
    let mut k: u32 = 0;
    while k < 8
        invariant
            k <= 8,
            hex_digits(v as nat, 8) == hex_digits(m as nat, (8 - k) as nat) + out@,
        decreases 8 - k,
    {
        let d = m % 16;
        let ghost before = out@;
        out = hex_digit_str(d).to_string().concat(out.as_str());
        proof {
            let rest = (8 - k - 1) as nat;
            assert(hex_digits(m as nat, (8 - k) as nat) == hex_digits((m / 16) as nat, rest).push(hex_digit((m % 16) as nat)));
            assert(hex_digits(m as nat, (8 - k) as nat) + before =~= hex_digits((m / 16) as nat, rest) + out@);
        }
        m = m / 16;
        k = k + 1;
    }
    assert(hex_digits(m as nat, 0) + out@ =~= out@);
    out
}

/// A container id: `smolvm-`, then the low 32 bits of a nanosecond
/// timestamp and 32 random bits, each as eight hex digits.
pub fn container_id_from(time_low: u32, random: u32) -> (r: String)
    ensures
        r@ == "smolvm-"@ + hex_digits(time_low as nat, 8) + hex_digits(random as nat, 8),
        r@.len() == 23,
{
    let t = hex8_string(time_low);
    let rnd = hex8_string(random);
    proof {
        reveal_strlit("smolvm-");
        lemma_hex_digits_len(time_low as nat, 8);
        lemma_hex_digits_len(random as nat, 8);
    }
    "smolvm-".to_string().concat(t.as_str()).concat(rnd.as_str())
}

pub proof fn lemma_hex_digits_len(v: nat, k: nat)
    ensures
        hex_digits(v, k).len() == k,
    decreases k,
{
    if k > 0 {
        lemma_hex_digits_len(v / 16, (k - 1) as nat);
    }
}

} // verus!

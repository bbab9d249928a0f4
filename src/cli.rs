//! Parsing of command-line specifications: `KEY=VALUE` environment entries,
//! `HOST:GUEST` port mappings and `host:guest[:ro]` volume mounts, and the
//! small text helpers of the listing commands.

use vstd::prelude::*;
use crate::agent::PortMapping;

verus! {

/// Index of the first `c` in `s` at or after `from`.
pub open spec fn find_from(s: Seq<char>, c: char, from: int) -> Option<int>
    decreases s.len() - from,
{
    if from < 0 || from >= s.len() {
        None
    } else if s[from] == c {
        Some(from)
    } else {
        find_from(s, c, from + 1)
    }
}

/// The parts of `s` before and after its first `c`.
pub open spec fn split_once(s: Seq<char>, c: char) -> Option<(Seq<char>, Seq<char>)> {
    match find_from(s, c, 0) {
        Some(i) => Some((s.subrange(0, i), s.subrange(i + 1, s.len() as int))),
        None => None,
    }
}

pub proof fn lemma_find_from_bounds(s: Seq<char>, c: char, from: int)
    ensures
        find_from(s, c, from) matches Some(i) ==> from <= i < s.len() && s[i] == c,
    decreases s.len() - from,
{
    if 0 <= from < s.len() && s[from] != c {
        lemma_find_from_bounds(s, c, from + 1);
    }
}

pub(crate) fn find_char(s: &str, c: char) -> (r: Option<usize>)
    ensures
        match find_from(s@, c, 0) {
            Some(i) => r == Some(i as usize),
            None => r is None,
        },
{
    let n = s.unicode_len();
    let mut i: usize = 0;
    while i < n
        invariant
            n == s@.len(),
            0 <= i <= n,
            find_from(s@, c, 0) == find_from(s@, c, i as int),
        decreases n - i,
    {
        if s.get_char(i) == c {
            return Some(i);
        }
        i = i + 1;
    }
    None
}

fn split_at_char(s: &str, c: char) -> (r: Option<(&str, &str)>)
    ensures
        match split_once(s@, c) {
            Some(p) => r is Some && r->Some_0.0@ == p.0 && r->Some_0.1@ == p.1,
            None => r is None,
        },
{
    proof {
        lemma_find_from_bounds(s@, c, 0);
    }
    match find_char(s, c) {
        Some(i) => {
            let n = s.unicode_len();
            Some((s.substring_char(0, i), s.substring_char(i + 1, n)))
        },
        None => None,
    }
}

/// Parse `KEY=VALUE`: split at the first `=`; the key must not be empty.
pub fn parse_env_spec(spec: &str) -> (r: Option<(String, String)>)
    ensures
        match split_once(spec@, '=') {
            Some(p) => if p.0.len() > 0 {
                r is Some && r->Some_0.0@ == p.0 && r->Some_0.1@ == p.1
            } else {
                r is None
            },
            None => r is None,
        },
{
    match split_at_char(spec, '=') {
        Some((key, value)) => {
            if key.unicode_len() == 0 {
                None
            } else {
                Some((key.to_string(), value.to_string()))
            }
        },
        None => None,
    }
}

pub open spec fn is_digit(c: char) -> bool {
    '0' <= c && c <= '9'
}

/// The value of a string of decimal digits.
pub open spec fn digits_value(s: Seq<char>) -> nat
    decreases s.len(),
{
    if s.len() == 0 {
        0
    } else {
        digits_value(s.drop_last()) * 10 + (s.last() as nat - '0' as nat) as nat
    }
}

/// The digits of an unsigned number: what follows an optional leading `+`.
pub open spec fn unsigned_body(s: Seq<char>) -> Seq<char> {
    if s.len() > 0 && s[0] == '+' { s.drop_first() } else { s }
}

/// What `u16::from_str` accepts: an optional `+`, then one or more decimal
/// digits whose value fits in 16 bits.
pub open spec fn parse_u16_spec(s: Seq<char>) -> Option<u16> {
    let body = unsigned_body(s);
    if body.len() > 0 && (forall|i: int| 0 <= i < body.len() ==> is_digit(#[trigger] body[i]))
        && digits_value(body) <= 65535 {
        Some(digits_value(body) as u16)
    } else {
        None
    }
}

pub proof fn lemma_digits_value_mono(s: Seq<char>, i: int)
    requires
        0 <= i <= s.len(),
        forall|j: int| 0 <= j < s.len() ==> is_digit(#[trigger] s[j]),
    ensures
        digits_value(s.subrange(0, i)) <= digits_value(s),
    decreases s.len() - i,
{
    if i < s.len() {
        lemma_digits_value_mono(s, i + 1);
        let p = s.subrange(0, i + 1);
        assert(p.drop_last() =~= s.subrange(0, i));
        assert(digits_value(p) == digits_value(s.subrange(0, i)) * 10 + (p.last() as nat - '0' as nat) as nat);
    } else {
        assert(s.subrange(0, i) =~= s);
    }
}

/// Parse a port number as `u16::from_str` does.
pub fn parse_u16(s: &str) -> (r: Option<u16>)
    ensures
        r == parse_u16_spec(s@),
{
    let n = s.unicode_len();
    let start: usize = if n > 0 && s.get_char(0) == '+' { 1 } else { 0 };
    let ghost body = unsigned_body(s@);
    assert(body =~= s@.subrange(start as int, n as int));
    if start >= n {
        return None;
    }
    let mut value: u32 = 0;
    let mut i: usize = start;
    while i < n
        invariant
            n == s@.len(),
            start <= i <= n,
            body == s@.subrange(start as int, n as int),
            body == unsigned_body(s@),
            forall|j: int| 0 <= j < i - start ==> is_digit(#[trigger] body[j]),
            value as nat == digits_value(body.subrange(0, i - start)),
            value <= 65535,
        decreases n - i,
    {
        let c = s.get_char(i);
        assert(body[i - start] == c);
        if !('0' <= c && c <= '9') {
            assert(!is_digit(body[i - start]));
            return None;
        }
        let ghost p = body.subrange(0, i - start + 1);
        assert(p.drop_last() =~= body.subrange(0, i - start));
        assert(p.last() == c);
        let ghost before = value;
        value = value * 10 + (c as u32 - '0' as u32);
        assert(value as nat == digits_value(p));
        if value > 65535 {
            proof {
                if forall|j: int| 0 <= j < body.len() ==> is_digit(#[trigger] body[j]) {
                    lemma_digits_value_mono(body, i - start + 1);
                }
            }
            return None;
        }
        i = i + 1;
        assert(forall|j: int| 0 <= j < i - start ==> is_digit(#[trigger] body[j]));
    }
    assert(body.subrange(0, n - start) =~= body);
    Some(value as u16)
}

/// Parse a port mapping: `HOST:GUEST`, or one port used on both sides.
pub fn parse_port(s: &str) -> (r: Result<PortMapping, String>)
    ensures
        match split_once(s@, ':') {
            Some(p) => match (parse_u16_spec(p.0), parse_u16_spec(p.1)) {
                (Some(h), Some(g)) => r == Ok::<PortMapping, String>(PortMapping { host: h, guest: g }),
                _ => r is Err,
            },
            None => match parse_u16_spec(s@) {
                Some(port) => r == Ok::<PortMapping, String>(PortMapping { host: port, guest: port }),
                None => r is Err,
            },
        },
{
    match split_at_char(s, ':') {
        Some((host, guest)) => {
            let h = match parse_u16(host) {
                Some(h) => h,
                None => return Err("invalid host port: ".to_string().concat(host)),
            };
            let g = match parse_u16(guest) {
                Some(g) => g,
                None => return Err("invalid guest port: ".to_string().concat(guest)),
            };
            Ok(PortMapping::new(h, g))
        },
        None => match parse_u16(s) {
            Some(port) => Ok(PortMapping::same(port)),
            None => Err("invalid port: ".to_string().concat(s)),
        },
    }
}

/// `s` cut to `max` characters, ending in `...` when it was longer.
pub fn truncate(s: &str, max: usize) -> (r: String)
    requires
        s@.len() > max ==> max >= 3,
    ensures
        s@.len() <= max ==> r@ == s@,
        s@.len() > max ==> r@ == s@.subrange(0, max - 3) + "..."@,
{
    let n = s.unicode_len();
    if n <= max {
        s.to_string()
    } else {
        s.substring_char(0, max - 3).to_string().concat("...")
    }
}

/// The label of a VM: its name, or `default`.
pub fn vm_label(name: &Option<String>) -> (r: String)
    ensures
        name is Some ==> r@ == name->Some_0@,
        name is None ==> r@ == "default"@,
{
    match name {
        Some(n) => n.clone(),
        None => "default".to_string(),
    }
}

/// A volume mount as written on the command line, before the host path is
/// checked: `host:guest[:ro]`, read-only when the third part is `ro`.
pub open spec fn mount_spec_parts(s: Seq<char>) -> Option<(Seq<char>, Seq<char>, bool)> {
    match split_once(s, ':') {
        None => None,
        Some(p) => match split_once(p.1, ':') {
            None => Some((p.0, p.1, false)),
            Some(q) => match split_once(q.1, ':') {
                None => Some((p.0, q.0, q.1 == "ro"@)),
                Some(t) => Some((p.0, q.0, t.0 == "ro"@)),
            },
        },
    }
}

fn is_ro(s: &str) -> (r: bool)
    ensures
        r == (s@ == "ro"@),
{
    proof {
        reveal_strlit("ro");
    }
    if s.unicode_len() == 2 && s.get_char(0) == 'r' && s.get_char(1) == 'o' {
        assert(s@ =~= "ro"@);
        true
    } else {
        false
    }
}

/// Split a volume specification into host path, guest path and read-only
/// flag; fails when it has no `:`.
pub fn parse_mount_spec(spec: &str) -> (r: Result<(String, String, bool), String>)
    ensures
        match mount_spec_parts(spec@) {
            Some(m) => r is Ok && r->Ok_0.0@ == m.0 && r->Ok_0.1@ == m.1 && r->Ok_0.2 == m.2,
            None => r is Err,
        },
{
    match split_at_char(spec, ':') {
        None => Err("invalid volume specification: expected host:container[:ro]".to_string()),
        Some((host, rest)) => match split_at_char(rest, ':') {
            None => Ok((host.to_string(), rest.to_string(), false)),
            Some((guest, tail)) => match split_at_char(tail, ':') {
                None => Ok((host.to_string(), guest.to_string(), is_ro(tail))),
                Some((third, _)) => Ok((host.to_string(), guest.to_string(), is_ro(third))),
            },
        },
    }
}

/// Parse every volume specification, failing on the first malformed one.
pub fn parse_mounts_as_tuples(specs: &[String]) -> (r: Result<Vec<(String, String, bool)>, String>)
    ensures
        r is Ok <==> forall|i: int| 0 <= i < specs@.len() ==> (#[trigger] mount_spec_parts(specs@[i]@)) is Some,
        r is Ok ==> r->Ok_0@.len() == specs@.len() && forall|i: int| 0 <= i < specs@.len() ==> {
            let m = mount_spec_parts(specs@[i]@)->Some_0;
            (#[trigger] r->Ok_0@[i]).0@ == m.0 && r->Ok_0@[i].1@ == m.1 && r->Ok_0@[i].2 == m.2
        },
{
    let mut out: Vec<(String, String, bool)> = Vec::new();
    let mut i: usize = 0;
    while i < specs.len()
        invariant
            0 <= i <= specs@.len(),
            out@.len() == i,
            forall|j: int| 0 <= j < i ==> (#[trigger] mount_spec_parts(specs@[j]@)) is Some,
            forall|j: int| 0 <= j < i ==> {
                let m = mount_spec_parts(specs@[j]@)->Some_0;
                (#[trigger] out@[j]).0@ == m.0 && out@[j].1@ == m.1 && out@[j].2 == m.2
            },
        decreases specs@.len() - i,
    {
        match parse_mount_spec(specs[i].as_str()) {
            Ok(m) => out.push(m),
            Err(e) => return Err(e),
        }
        i = i + 1;
    }
    Ok(out)
}

} // verus!

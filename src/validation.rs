//! Validation of user-chosen resource names and commands.

use vstd::prelude::*;

verus! {

/// Errors reported to API callers.
#[derive(Debug, Clone, PartialEq, Eq)]
pub enum ApiError {
    /// The request was malformed.
    BadRequest(String),
    /// The named resource does not exist.
    NotFound(String),
    /// The named resource already exists.
    Conflict(String),
}

/// Characters allowed anywhere in a resource name.
pub open spec fn name_char_ok(c: char) -> bool {
    ('a' <= c && c <= 'z') || ('A' <= c && c <= 'Z') || ('0' <= c && c <= '9') || c == '-'
        || c == '_'
}

/// ASCII letters and digits.
pub open spec fn is_alnum(c: char) -> bool {
    ('a' <= c && c <= 'z') || ('A' <= c && c <= 'Z') || ('0' <= c && c <= '9')
}

/// A valid resource name: 1..=max_len characters from `[A-Za-z0-9_-]`,
/// starting with a letter or digit, not ending with a hyphen, and without
/// two hyphens in a row.
pub open spec fn resource_name_ok(name: Seq<char>, max_len: nat) -> bool {
    &&& 1 <= name.len() <= max_len
    &&& is_alnum(name[0])
    &&& name.last() != '-'
    &&& forall|i: int| 0 <= i < name.len() ==> name_char_ok(#[trigger] name[i])
    &&& forall|i: int| 0 < i < name.len() ==> !(#[trigger] name[i] == '-' && name[i - 1] == '-')
}

/// Whether `c` is an ASCII letter or digit.
pub fn is_ascii_alnum(c: char) -> (r: bool)
    ensures
        r == is_alnum(c),
{
    ('a' <= c && c <= 'z') || ('A' <= c && c <= 'Z') || ('0' <= c && c <= '9')
}

/// Validate a resource name with the common API rules.
pub fn validate_resource_name(name: &str, kind: &str, max_len: usize) -> (r: Result<(), ApiError>)
    ensures
        r is Ok <==> resource_name_ok(name@, max_len as nat),
        r is Err ==> r->Err_0 is BadRequest,
{
    let n = name.unicode_len();
    if n == 0 {
        return Err(ApiError::BadRequest(kind.to_string().concat(" name cannot be empty")));
    }
    if n > max_len {
        return Err(ApiError::BadRequest(kind.to_string().concat(" name too long")));
    }
    let first = name.get_char(0);
    if !is_ascii_alnum(first) {
        return Err(ApiError::BadRequest(kind.to_string().concat(" name must start with a letter or digit")));
    }
    if name.get_char(n - 1) == '-' {
        return Err(ApiError::BadRequest(kind.to_string().concat(" name cannot end with a hyphen")));
    }
    let mut prev_was_hyphen = false;
    let mut i: usize = 0;
    while i < n
        invariant
            n == name@.len(),
            0 <= i <= n,
            n >= 1,
            prev_was_hyphen == (i > 0 && name@[i - 1] == '-'),
            forall|j: int| 0 <= j < i ==> name_char_ok(#[trigger] name@[j]),
            forall|j: int| 0 < j < i ==> !(#[trigger] name@[j] == '-' && name@[j - 1] == '-'),
        decreases n - i,
    {
        let c = name.get_char(i);
        if c == '-' {
            if prev_was_hyphen {
                return Err(ApiError::BadRequest(kind.to_string().concat(" name cannot contain consecutive hyphens")));
            }
            prev_was_hyphen = true;
        } else {
            prev_was_hyphen = false;
        }
        if !is_ascii_alnum(c) && c != '-' && c != '_' {
            if c == '/' || c == '\\' {
                return Err(ApiError::BadRequest(kind.to_string().concat(" name cannot contain path separators")));
            }
            return Err(ApiError::BadRequest(kind.to_string().concat(" name contains an invalid character")));
        }
        i = i + 1;
    }
    Ok(())
}

/// Validate that a command is not empty.
pub fn validate_command(cmd: &[String]) -> (r: Result<(), ApiError>)
    ensures
        r is Ok <==> cmd@.len() > 0,
        r is Err ==> r->Err_0 is BadRequest,
{
    if cmd.len() == 0 {
        return Err(ApiError::BadRequest("command cannot be empty".to_string()));
    }
    Ok(())
}

} // verus!

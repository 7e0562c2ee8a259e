//! Turning a raw gallery title into a safe directory name.
//!
//! Path separators are replaced by underscores and the result is truncated
//! to at most [`crate::config::MAX_FILE_NAME_LEN`] characters. Truncation
//! counts whole characters, so it can never split a multi-byte character.

use vstd::prelude::*;
use crate::config::MAX_FILE_NAME_LEN;
use crate::strutil::{chars_to_string, str_chars};

verus! {

/// Replace a path separator in a raw title character by an underscore.
pub open spec fn spec_replace_sep(c: char) -> char {
    if c == '/' {
        '_'
    } else {
        c
    }
}

/// The directory name made from a raw title: separators replaced,
/// then truncated to the first `MAX_FILE_NAME_LEN` characters.
pub open spec fn spec_sanitize_title(s: Seq<char>) -> Seq<char> {
    let replaced = Seq::new(s.len(), |i: int| spec_replace_sep(s[i]));
    if replaced.len() <= MAX_FILE_NAME_LEN {
        replaced
    } else {
        replaced.subrange(0, MAX_FILE_NAME_LEN as int)
    }
}

/// Sanitize a raw gallery title into the name of its output directory.
pub fn sanitize_title(title: &str) -> (r: String)
    ensures
        r@ == spec_sanitize_title(title@),
        r@.len() <= MAX_FILE_NAME_LEN,
{
    let chars = str_chars(title);
    let mut out: Vec<char> = Vec::new();
    let mut i: usize = 0;
    while i < chars.len() && i < MAX_FILE_NAME_LEN
        invariant
            i <= chars@.len(),
            i <= MAX_FILE_NAME_LEN,
            chars@ == title@,
            out@.len() == i,
            forall|j: int| 0 <= j < i ==> out@[j] == spec_replace_sep(title@[j]),
        decreases chars@.len() - i,
    {
        let c = chars[i];
        if c == '/' {
            out.push('_');
        } else {
            out.push(c);
        }
        i = i + 1;
    }
    proof {
        assert(out@ =~= spec_sanitize_title(title@));
    }
    chars_to_string(&out)
}

/// Sanitizing is idempotent: the directory name of a sanitized title is
/// that sanitized title itself.
pub proof fn lemma_sanitize_idempotent(s: Seq<char>)
    ensures
        spec_sanitize_title(spec_sanitize_title(s)) == spec_sanitize_title(s),
{
    let once = spec_sanitize_title(s);
    assert forall|i: int| 0 <= i < once.len() implies once[i] != '/' by {
        assert(once[i] == spec_replace_sep(s[i]));
    }
    assert(spec_sanitize_title(once) =~= once);
}

/// A sanitized title never exceeds the configured length limit and holds
/// no path separator.
pub proof fn lemma_sanitize_safe(s: Seq<char>)
    ensures
        spec_sanitize_title(s).len() <= MAX_FILE_NAME_LEN,
        forall|i: int| 0 <= i < spec_sanitize_title(s).len() ==> spec_sanitize_title(s)[i] != '/',
{
    let once = spec_sanitize_title(s);
    assert forall|i: int| 0 <= i < once.len() implies once[i] != '/' by {
        assert(once[i] == spec_replace_sep(s[i]));
    }
}

} // verus!

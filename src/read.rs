//! Content files: front matter, a `===` line, then the body.

use vstd::prelude::*;
use vstd::std_specs::iter::IteratorSpec;

use crate::work::ContentError;

verus! {

/// The line that separates front matter from body.
pub const FRONT_MATTER_SPLIT: &'static str = "===";

/// `s` holds the separator at character index `k`.
pub open spec fn split_at_index(s: Seq<char>, k: int) -> bool {
    0 <= k && k + 3 <= s.len() && s[k] == '=' && s[k + 1] == '=' && s[k + 2] == '='
}

/// The characters of `s`, one by one.
fn chars_of(s: &str) -> (r: Vec<char>)
    ensures
        r@ == s@,
{
    let mut it = s.chars();
    let mut v: Vec<char> = Vec::new();
    loop
        invariant
            v@ + it.remaining() == s@,
            it.decrease() is Some,
        ensures
            v@ == s@,
        decreases it.decrease()->0,
    {
        match it.next() {
            Some(c) => {
                v.push(c);
            },
            None => {
                assert(it.remaining().len() == 0);
                assert(v@ + it.remaining() =~= v@);
                break;
            },
        }
    }
    v
}

/// `k` is the first index at which `s` holds the separator.
pub open spec fn first_split(s: Seq<char>, k: int) -> bool {
    split_at_index(s, k) && forall|j: int| 0 <= j < k ==> !split_at_index(s, j)
}

/// Splits a content file at the first `===` into its front matter and its
/// body; a file without one is malformed.
pub fn split_front_matter(file: &str) -> (r: Result<(String, String), ContentError>)
    ensures
        r is Err <==> !exists|k: int| split_at_index(file@, k),
        r matches Err(e) ==> e == ContentError::MissingSplitter,
        r matches Ok((front, body)) ==> exists|k: int|
            first_split(file@, k) && front@ == file@.take(k) && body@ == file@.skip(k + 3),
{
    let cs = chars_of(file);
    let n = cs.len();
    let mut k: usize = 0;
    while k < n && n - k >= 3
        invariant
            k <= n,
            n == file@.len(),
            cs@ == file@,
            forall|j: int| 0 <= j < k ==> !split_at_index(file@, j),
        decreases n - k,
    {
        if cs[k] == '=' && cs[k + 1] == '=' && cs[k + 2] == '=' {
            let front = String::from_str(file.substring_char(0, k));
            let body = String::from_str(file.substring_char(k + 3, n));
            assert(file@.subrange(0, k as int) =~= file@.take(k as int));
            assert(file@.subrange(k + 3, n as int) =~= file@.skip(k + 3));
            assert(first_split(file@, k as int));
            return Ok((front, body));
        }
        k = k + 1;
    }
    assert forall|j: int| !split_at_index(file@, j) by {
        if 0 <= j && j + 3 <= n {
            assert(j < k);
        }
    }
    Err(ContentError::MissingSplitter)
}

} // verus!

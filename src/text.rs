//! String helpers over the character views that vstd gives to `str` and `String`.

use vstd::prelude::*;
use vstd::string::*;

verus! {

/// Equality of two string slices, character by character.
pub fn str_eq(a: &str, b: &str) -> (r: bool)
    ensures
        r == (a@ == b@),
{
    let n = a.unicode_len();
    let m = b.unicode_len();
    if n != m {
        return false;
    }
    let mut i: usize = 0;
    while i < n
        invariant
            n == a@.len(),
            m == b@.len(),
            n == m,
            i <= n,
            forall|k: int| 0 <= k < i ==> a@[k] == b@[k],
        decreases n - i,
    {
        if a.get_char(i) != b.get_char(i) {
            return false;
        }
        i = i + 1;
    }
    assert(a@ =~= b@);
    true
}

/// A path made of `base` and `rel`, with `/` between them; an absolute `rel`
/// (or an empty `base`) stands alone.
pub open spec fn joined(base: Seq<char>, rel: Seq<char>) -> Seq<char> {
    if base.len() == 0 || (rel.len() > 0 && rel[0] == '/') {
        rel
    } else if base[base.len() - 1] == '/' {
        base + rel
    } else {
        base + seq!['/'] + rel
    }
}

/// Joins `rel` onto `base` as [`joined`] describes.
pub fn join_path(base: &str, rel: &str) -> (r: String)
    ensures
        r@ == joined(base@, rel@),
{
    let n = base.unicode_len();
    let rel_absolute = rel.unicode_len() > 0 && rel.get_char(0) == '/';
    if n == 0 || rel_absolute {
        return rel.to_owned();
    }
    let mut r = base.to_owned();
    if base.get_char(n - 1) != '/' {
        r.append("/");
        proof {
            reveal_strlit("/");
        }
    }
    r.append(rel);
    r
}

} // verus!

//! Text helpers: comparison of string slices and joining of path components.

use vstd::prelude::*;

verus! {

/// The path obtained by appending `name` to `base`, as a Unix path join does:
/// an absolute `name` replaces `base`; otherwise a `/` is put between the two
/// unless `base` is empty or already ends with one.
pub open spec fn joined_path(base: Seq<char>, name: Seq<char>) -> Seq<char> {
    if name.len() > 0 && name[0] == '/' {
        name
    } else if base.len() == 0 || base.last() == '/' {
        base + name
    } else {
        base + seq!['/'] + name
    }
}

/// Whether two string slices hold the same characters.
pub fn str_eq(a: &str, b: &str) -> (r: bool)
    ensures
        r == (a@ == b@),
{
    let n = a.unicode_len();
    let m = b.unicode_len();
    if n != m {
        return false;
    }
    let mut i: usize = 0;
    while i < n
        invariant
            n == a@.len(),
            m == b@.len(),
            n == m,
            i <= n,
            forall|j: int| 0 <= j < i ==> a@[j] == b@[j],
        decreases n - i,
    {
        if a.get_char(i) != b.get_char(i) {
            return false;
        }
        i = i + 1;
    }
    assert(a@ =~= b@);
    true
}

/// Joins a path component onto a base path (see [`joined_path`]).
pub fn join_path(base: &str, name: &str) -> (r: String)
    ensures
        r@ == joined_path(base@, name@),
{
    let name_len = name.unicode_len();
    if name_len > 0 && name.get_char(0) == '/' {
        return String::from_str(name);
    }
    let base_len = base.unicode_len();
    let mut out = String::from_str(base);
    if base_len > 0 && base.get_char(base_len - 1) != '/' {
        out.append("/");
        proof {
            reveal_strlit("/");
        }
        assert(out@ == base@ + seq!['/']);
    }
    out.append(name);
    out
}

/// A joined path always ends with the name; a relative name is put after the
/// whole base with exactly one `/` between them (none when the base is empty),
/// and an absolute name is the result by itself.
pub proof fn lemma_joined_path_shape(base: Seq<char>, name: Seq<char>)
    ensures
        joined_path(base, name).len() >= name.len(),
        joined_path(base, name).subrange(
            joined_path(base, name).len() - name.len(),
            joined_path(base, name).len() as int,
        ) == name,
        name.len() > 0 && name[0] == '/' ==> joined_path(base, name) == name,
        !(name.len() > 0 && name[0] == '/') && base.len() > 0 ==> {
            let j = joined_path(base, name);
            &&& j.len() >= base.len()
            &&& j.subrange(0, base.len() as int) == base
            &&& j[j.len() - name.len() - 1] == '/'
            &&& (base.last() == '/' ==> j.len() == base.len() + name.len())
            &&& (base.last() != '/' ==> j.len() == base.len() + 1 + name.len())
        },
        !(name.len() > 0 && name[0] == '/') && base.len() == 0 ==> joined_path(base, name) == name,
{
    let j = joined_path(base, name);
    assert(j.subrange(j.len() - name.len(), j.len() as int) =~= name);
    if !(name.len() > 0 && name[0] == '/') {
        if base.len() > 0 {
            assert(j.subrange(0, base.len() as int) =~= base);
            if base.last() == '/' {
                assert(j == base + name);
                assert(j[base.len() - 1] == base[base.len() - 1]);
            } else {
                assert(j == base + seq!['/'] + name);
                assert(j[base.len() as int] == '/');
            }
        } else {
            assert(j =~= name);
        }
    }
}

} // verus!

//! Character-exact string helpers the controller is specified and proved
//! over: prefix tests, prefix stripping, equality and concatenation.

use vstd::prelude::*;
use vstd::string::StrSliceExecFns;
use vstd::string::StringExecFns;

verus! {

/// `p` is a (not necessarily proper) prefix of `s`.
pub open spec fn is_prefix_of(p: Seq<char>, s: Seq<char>) -> bool {
    p.len() <= s.len() && s.subrange(0, p.len() as int) == p
}

/// Whether `s` starts with `p`, character for character.
pub fn str_starts_with(s: &str, p: &str) -> (r: bool)
    ensures
        r == is_prefix_of(p@, s@),
{
    let sl = s.unicode_len();
    let pl = p.unicode_len();
    if pl > sl {
        return false;
    }
    let mut i: usize = 0;
    while i < pl
        invariant
            i <= pl,
            pl == p@.len(),
            sl == s@.len(),
            pl <= sl,
            forall|j: int| 0 <= j < i ==> s@[j] == p@[j],
        decreases pl - i,
    {
        if s.get_char(i) != p.get_char(i) {
            proof {
                assert(s@.subrange(0, pl as int)[i as int] == s@[i as int]);
            }
            return false;
        }
        i += 1;
    }
    proof {
        assert(s@.subrange(0, pl as int) =~= p@);
    }
    true
}

/// Round-trip law for prefix stripping: rejoining a prefix with what
/// stripping it left gives back the original string. In particular an
/// autocompleted text echoed with its modifier prefix re-reads, after the
/// strip, as exactly the text minus the prefix.
pub proof fn lemma_strip_prefix_round_trip(p: Seq<char>, t: Seq<char>)
    requires
        is_prefix_of(p, t),
    ensures
        p + t.skip(p.len() as int) == t,
{
    assert(p + t.skip(p.len() as int) =~= t);
}

/// `s` with the prefix `p` removed, or `None` where `p` is not a prefix.
pub fn strip_prefix_string(s: &str, p: &str) -> (r: Option<String>)
    ensures
        r is Some <==> is_prefix_of(p@, s@),
        r matches Some(t) ==> t@ == s@.skip(p@.len() as int),
{
    if str_starts_with(s, p) {
        let pl = p.unicode_len();
        let sl = s.unicode_len();
        let rest = s.substring_char(pl, sl);
        proof {
            assert(s@.subrange(pl as int, sl as int) =~= s@.skip(pl as int));
        }
        Some(rest.to_owned())
    } else {
        None
    }
}

/// Character-for-character equality of two string slices.
pub fn str_eq(a: &str, b: &str) -> (r: bool)
    ensures
        r == (a@ == b@),
{
    let al = a.unicode_len();
    let bl = b.unicode_len();
    if al != bl {
        return false;
    }
    let r = str_starts_with(a, b);
    proof {
        if r {
            assert(a@.subrange(0, bl as int) =~= a@);
        } else {
            if a@ == b@ {
                assert(a@.subrange(0, bl as int) =~= b@);
            }
        }
    }
    r
}

/// The concatenation of two string slices as an owned string.
pub fn concat_strs(a: &str, b: &str) -> (r: String)
    ensures
        r@ == a@ + b@,
{
    let mut s = a.to_owned();
    s.append(b);
    s
}

/// A copy of a list of strings, character-exact.
pub fn clone_strings(v: &Vec<String>) -> (r: Vec<String>)
    ensures
        r.deep_view() == v.deep_view(),
{
    let mut r: Vec<String> = Vec::new();
    let mut i: usize = 0;
    while i < v.len()
        invariant
            i <= v.len(),
            r.deep_view() =~= v.deep_view().take(i as int),
        decreases v.len() - i,
    {
        let ghost prev: Seq<Seq<char>> = r.deep_view();
        r.push(v[i].clone());
        proof {
            assert(v.deep_view()[i as int] == v@[i as int]@);
            assert(r.deep_view() =~= prev.push(v@[i as int]@));
            assert(r.deep_view() =~= v.deep_view().take(i as int + 1));
        }
        i += 1;
    }
    proof {
        assert(v.deep_view().take(v@.len() as int) =~= v.deep_view());
    }
    r
}

} // verus!

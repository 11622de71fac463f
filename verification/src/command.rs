//! Resolving a desktop entry's exec line into a spawnable argv: shell-style
//! word splitting, then dropping freedesktop field codes (tokens that start
//! with `%`). The spawn itself happens outside the library.

use vstd::prelude::*;

verus! {

/// What `shell_words::split` returns on this input: the words of a
/// POSIX-shell-like splitting, or nothing where a quote is left unclosed.
/// The result depends on the characters alone.
pub uninterp spec fn shell_split(s: Seq<char>) -> Option<Seq<Seq<char>>>;

/// Relies on shell_words::split: splits a command line into words by shell
/// quoting rules; a malformed line is an error, mapped to `None` here.
#[verifier::external_body]
fn split_shell(s: &str) -> (r: Option<Vec<String>>)
    ensures
        r is Some <==> shell_split(s@) is Some,
        r matches Some(v) ==> v.deep_view() == shell_split(s@).unwrap(),
{
    shell_words::split(s).ok()
}

/// A word survives into the argv unless it is a freedesktop field code,
/// a token beginning with `%`.
pub open spec fn keeps_token(w: Seq<char>) -> bool {
    !(w.len() > 0 && w[0] == '%')
}

/// The argv with field-code tokens dropped.
pub open spec fn spec_strip_field_codes(ws: Seq<Seq<char>>) -> Seq<Seq<char>> {
    ws.filter(|w: Seq<char>| keeps_token(w))
}

/// Drops field-code tokens from a word list, keeping the order.
pub fn strip_field_codes(words: &Vec<String>) -> (r: Vec<String>)
    ensures
        r.deep_view() == spec_strip_field_codes(words.deep_view()),
{
    let mut r: Vec<String> = Vec::new();
    let mut i: usize = 0;
    while i < words.len()
        invariant
            i <= words@.len(),
            r.deep_view() =~= spec_strip_field_codes(words.deep_view().take(i as int)),
        decreases words@.len() - i,
    {
        let ghost prefix = words.deep_view().take(i as int);
        let ghost dv = r.deep_view();
        let w = &words[i];
        let keep = if w.as_str().unicode_len() == 0 {
            true
        } else {
            w.as_str().get_char(0) != '%'
        };
        if keep {
            r.push(w.clone());
        }
        proof {
            assert(words.deep_view()[i as int] == words@[i as int]@);
            assert(words.deep_view().take(i as int + 1) =~= prefix.push(words@[i as int]@));
            if keep {
                assert(r.deep_view() =~= dv.push(words@[i as int]@));
            }
            assert(keep == keeps_token(words@[i as int]@));
            prefix.lemma_filter_push(words@[i as int]@, |w: Seq<char>| keeps_token(w));
            assert(r.deep_view() =~= spec_strip_field_codes(words.deep_view().take(i as int + 1)));
        }
        i += 1;
    }
    proof {
        assert(words.deep_view().take(words@.len() as int) =~= words.deep_view());
    }
    r
}

/// The spawnable argv for an exec line: its shell words with field codes
/// dropped, or `None` where the line is malformed.
pub fn resolve_command(exec: &str) -> (r: Option<Vec<String>>)
    ensures
        r is Some <==> shell_split(exec@) is Some,
        r matches Some(v) ==> v.deep_view() == spec_strip_field_codes(shell_split(exec@).unwrap()),
{
    match split_shell(exec) {
        Some(words) => Some(strip_field_codes(&words)),
        None => None,
    }
}

} // verus!

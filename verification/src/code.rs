//! Validation of wormhole codes.
//!
//! A code is a numeric nameplate followed by dash-separated password words,
//! each drawn from the collaborator's built-in word list. Malformed input is
//! rejected here before any network activity takes place.

use vstd::prelude::*;
use vstd::string::{StrSliceExecFns, StringExecFns};
use vstd::utf8::is_ascii_chars;

verus! {

/// The completions that the collaborator's built-in word list offers for a
/// prefix. A word is on the list exactly when it appears among its own
/// completions; the leading-dash form selects the list used for the words in
/// even positions.
pub uninterp spec fn completions_of(prefix: Seq<char>) -> Seq<Seq<char>>;

/// Relies on magic_wormhole::Wordlist::default_wordlist and
/// Wordlist::get_completions: the completions offered for a prefix are a
/// function of the prefix alone, drawn from the fixed built-in word list.
#[verifier::external_body]
fn wordlist_completions(prefix: &str) -> (r: Vec<String>)
    ensures
        r.deep_view() == completions_of(prefix@),
{
    magic_wormhole::Wordlist::default_wordlist(2).get_completions(prefix)
}

/// A password word is acceptable when the word list completes it to itself,
/// in either of the two alternating positions.
pub open spec fn word_on_list(w: Seq<char>) -> bool {
    completions_of(w).contains(w) || completions_of(seq!['-'] + w).contains(w)
}

/// A nameplate is one or more digits naming a number at least 1.
pub open spec fn nameplate_ok(w: Seq<char>) -> bool {
    &&& w.len() >= 1
    &&& forall|j: int| 0 <= j < w.len() ==> '0' <= #[trigger] w[j] <= '9'
    &&& exists|j: int| 0 <= j < w.len() && w[j] != '0'
}

/// The segments of `s` between its dashes, in order; `s` itself when it has
/// no dash. There is always at least one segment.
pub open spec fn split_dash(s: Seq<char>) -> Seq<Seq<char>>
    decreases s.len(),
{
    if s.len() == 0 {
        seq![Seq::<char>::empty()]
    } else {
        let prev = split_dash(s.drop_last());
        if s.last() == '-' {
            prev.push(Seq::<char>::empty())
        } else {
            prev.update(prev.len() - 1, prev.last().push(s.last()))
        }
    }
}

pub proof fn lemma_split_dash_len(s: Seq<char>)
    ensures
        split_dash(s).len() >= 1,
    decreases s.len(),
{
    if s.len() > 0 {
        lemma_split_dash_len(s.drop_last());
    }
}

/// A code is well formed when it is ASCII, splits into a nameplate and at
/// least one password word, the nameplate is a positive number, and every
/// word is on the word list.
pub open spec fn code_wellformed(s: Seq<char>) -> bool {
    let parts = split_dash(s);
    &&& is_ascii_chars(s)
    &&& parts.len() >= 2
    &&& nameplate_ok(parts[0])
    &&& forall|j: int|
        1 <= j < parts.len() ==> (#[trigger] parts[j]).len() >= 1 && word_on_list(parts[j])
}

fn contains_string(v: &Vec<String>, w: &String) -> (r: bool)
    ensures
        r == v.deep_view().contains(w@),
{
    let mut i: usize = 0;
    while i < v.len()
        invariant
            i <= v.len(),
            forall|j: int| 0 <= j < i ==> v.deep_view()[j] != w@,
        decreases v.len() - i,
    {
        if v[i].eq(w) {
            assert(v.deep_view()[i as int] == w@);
            return true;
        }
        i = i + 1;
    }
    false
}

fn is_wordlist_word(w: &String) -> (r: bool)
    ensures
        r == word_on_list(w@),
{
    proof {
        reveal_strlit("-");
        assert(("-")@ =~= seq!['-']);
    }
    let plain = wordlist_completions(w.as_str());
    if contains_string(&plain, w) {
        return true;
    }
    let dashed = String::from_str("-").concat(w.as_str());
    assert(dashed@ == seq!['-'] + w@);
    let shifted = wordlist_completions(dashed.as_str());
    contains_string(&shifted, w)
}

fn is_nameplate(w: &String) -> (r: bool)
    ensures
        r == nameplate_ok(w@),
{
    let s = w.as_str();
    let n = s.unicode_len();
    if n == 0 {
        return false;
    }
    let mut has_nonzero = false;
    let mut i: usize = 0;
    while i < n
        invariant
            i <= n,
            n == s@.len(),
            s@ == w@,
            forall|j: int| 0 <= j < i ==> '0' <= #[trigger] s@[j] <= '9',
            has_nonzero == exists|j: int| 0 <= j < i && s@[j] != '0',
        decreases n - i,
    {
        let c = s.get_char(i);
        if c < '0' || c > '9' {
            assert(!nameplate_ok(w@));
            return false;
        }
        if c != '0' {
            has_nonzero = true;
            assert(s@[i as int] != '0');
        }
        i = i + 1;
    }
    has_nonzero
}

fn split_code(code: &str) -> (parts: Vec<String>)
    requires
        code.is_ascii(),
    ensures
        parts@.len() == split_dash(code@).len(),
        forall|k: int| 0 <= k < parts@.len() ==> (#[trigger] parts@[k])@ == split_dash(code@)[k],
{
    let n = code.unicode_len();
    let mut parts: Vec<String> = Vec::new();
    let mut start: usize = 0;
    let mut i: usize = 0;
    proof {
        assert(code@.take(0) =~= Seq::<char>::empty());
    }
    while i < n
        invariant
            code.is_ascii(),
            n == code@.len(),
            start <= i <= n,
            split_dash(code@.take(i as int)).len() == parts@.len() + 1,
            forall|k: int|
                0 <= k < parts@.len() ==> (#[trigger] parts@[k])@ == split_dash(
                    code@.take(i as int),
                )[k],
            split_dash(code@.take(i as int)).last() == code@.subrange(start as int, i as int),
        decreases n - i,
    {
        let ghost before = split_dash(code@.take(i as int));
        proof {
            lemma_split_dash_len(code@.take(i as int));
            assert(code@.take(i + 1).drop_last() =~= code@.take(i as int));
            assert(code@.take(i + 1).last() == code@[i as int]);
        }
        let c = code.get_char(i);
        if c == '-' {
            let seg = code.substring_ascii(start, i);
            parts.push(seg.to_owned());
            proof {
                assert(split_dash(code@.take(i + 1)) == before.push(Seq::<char>::empty()));
                assert(code@.subrange(i + 1, i + 1) =~= Seq::<char>::empty());
                assert(parts@.last()@ == before[before.len() - 1]);
            }
            start = i + 1;
        } else {
            proof {
                assert(split_dash(code@.take(i + 1)) == before.update(
                    before.len() - 1,
                    before.last().push(code@[i as int]),
                ));
                assert(code@.subrange(start as int, i as int).push(code@[i as int])
                    =~= code@.subrange(start as int, i + 1));
            }
        }
        i = i + 1;
    }
    proof {
        assert(code@.take(n as int) =~= code@);
        lemma_split_dash_len(code@);
    }
    let seg = code.substring_ascii(start, n);
    parts.push(seg.to_owned());
    parts
}

/// Decides whether `code` is a well-formed wormhole code, without any
/// network activity.
pub fn is_valid_code(code: &str) -> (r: bool)
    ensures
        r == code_wellformed(code@),
{
    if !code.is_ascii() {
        return false;
    }
    let parts = split_code(code);
    if parts.len() < 2 {
        return false;
    }
    if !is_nameplate(&parts[0]) {
        return false;
    }
    let mut j: usize = 1;
    while j < parts.len()
        invariant
            1 <= j <= parts@.len(),
            parts@.len() == split_dash(code@).len(),
            forall|k: int| 0 <= k < parts@.len() ==> (#[trigger] parts@[k])@ == split_dash(code@)[k],
            forall|k: int|
                1 <= k < j ==> (#[trigger] split_dash(code@)[k]).len() >= 1 && word_on_list(
                    split_dash(code@)[k],
                ),
        decreases parts@.len() - j,
    {
        let w = &parts[j];
        if w.as_str().is_empty() {
            return false;
        }
        if !is_wordlist_word(w) {
            return false;
        }
        j = j + 1;
    }
    true
}

} // verus!

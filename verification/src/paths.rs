//! Path text manipulation: deriving the offered file name from a path and
//! joining an output directory with an offered file name.

use vstd::prelude::*;
use vstd::string::{StrSliceExecFns, StringExecFns};

verus! {

/// `s` with every trailing `'/'` removed.
pub open spec fn strip_trailing_slashes(s: Seq<char>) -> Seq<char>
    decreases s.len(),
{
    if s.len() > 0 && s.last() == '/' {
        strip_trailing_slashes(s.drop_last())
    } else {
        s
    }
}

/// The suffix of `s` after its last `'/'`; all of `s` when it has none.
pub open spec fn after_last_slash(s: Seq<char>) -> Seq<char>
    decreases s.len(),
{
    if s.len() == 0 {
        s
    } else if s.last() == '/' {
        Seq::<char>::empty()
    } else {
        after_last_slash(s.drop_last()).push(s.last())
    }
}

/// The name a transfer offer carries for `path`: its last component, with
/// trailing slashes ignored; `file` when no component is left or the last
/// component is the parent directory.
pub open spec fn offer_name(path: Seq<char>) -> Seq<char> {
    let name = after_last_slash(strip_trailing_slashes(path));
    if name.len() == 0 || name == seq!['.', '.'] {
        "file"@
    } else {
        name
    }
}

/// `dir` and `name` joined with a single `'/'`; `name` alone when `dir` is
/// empty, and no second slash when `dir` already ends with one.
pub open spec fn joined_path(dir: Seq<char>, name: Seq<char>) -> Seq<char> {
    if dir.len() == 0 {
        name
    } else if dir.last() == '/' {
        dir + name
    } else {
        dir + seq!['/'] + name
    }
}

proof fn lemma_after_last_slash_suffix(s: Seq<char>, i: int)
    requires
        0 <= i <= s.len(),
        forall|j: int| i <= j < s.len() ==> s[j] != '/',
        i > 0 ==> s[i - 1] == '/',
    ensures
        after_last_slash(s) == s.subrange(i, s.len() as int),
    decreases s.len(),
{
    if s.len() == 0 {
        assert(after_last_slash(s) =~= s.subrange(0, 0));
    } else if i == s.len() {
        assert(s.subrange(i, s.len() as int) =~= Seq::<char>::empty());
        if i > 0 {
            assert(s.last() == '/');
        }
    } else {
        assert(s.last() != '/');
        lemma_after_last_slash_suffix(s.drop_last(), i);
        assert(s.drop_last().subrange(i, s.len() - 1) =~= s.subrange(i, s.len() - 1));
        assert(s.subrange(i, s.len() - 1).push(s.last()) =~= s.subrange(i, s.len() as int));
    }
}

/// Derives the file name to offer for `path`: the last path component, or
/// `file` when the path leaves none (empty, all slashes, or ending in the
/// parent directory).
pub fn file_name_for_offer(path: &str) -> (r: String)
    ensures
        r@ == offer_name(path@),
{
    let n = path.unicode_len();
    proof {
        assert(path@.take(n as int) =~= path@);
    }
    let mut m = n;
    while m > 0 && path.get_char(m - 1) == '/'
        invariant
            m <= n,
            n == path@.len(),
            strip_trailing_slashes(path@) == strip_trailing_slashes(path@.take(m as int)),
        decreases m,
    {
        proof {
            assert(path@.take(m as int).drop_last() =~= path@.take(m - 1));
        }
        m = m - 1;
    }
    proof {
        if m > 0 {
            assert(path@.take(m as int).last() == path@[m - 1]);
        }
        assert(strip_trailing_slashes(path@.take(m as int)) == path@.take(m as int));
    }
    let mut i = m;
    while i > 0 && path.get_char(i - 1) != '/'
        invariant
            i <= m <= n,
            n == path@.len(),
            forall|j: int| i <= j < m ==> path@[j] != '/',
        decreases i,
    {
        i = i - 1;
    }
    proof {
        assert(forall|j: int|
            i <= j < m ==> path@.take(m as int)[j] == path@[j] && path@[j] != '/');
        lemma_after_last_slash_suffix(path@.take(m as int), i as int);
        assert(path@.take(m as int).subrange(i as int, m as int) =~= path@.subrange(
            i as int,
            m as int,
        ));
    }
    let name = path.substring_char(i, m);
    let len = name.unicode_len();
    let is_parent = len == 2 && name.get_char(0) == '.' && name.get_char(1) == '.';
    if len == 0 || is_parent {
        proof {
            if len != 0 {
                assert(name@ =~= seq!['.', '.']);
            }
        }
        String::from_str("file")
    } else {
        proof {
            assert(seq!['.', '.'].len() == 2);
            assert(name@ != seq!['.', '.']);
        }
        name.to_owned()
    }
}

/// Joins the output directory with the offered file name, inserting a slash
/// only where one is missing.
pub fn join_output_path(output_dir: &str, filename: &str) -> (r: String)
    ensures
        r@ == joined_path(output_dir@, filename@),
{
    let n = output_dir.unicode_len();
    if n == 0 {
        return filename.to_owned();
    }
    let mut joined = output_dir.to_owned();
    if output_dir.get_char(n - 1) != '/' {
        proof {
            reveal_strlit("/");
            assert(("/")@ =~= seq!['/']);
        }
        joined.append("/");
    }
    joined.append(filename);
    joined
}

} // verus!

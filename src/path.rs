//! Paths as strings, with `/` as the separator, the way Unix `PathBuf`
//! joins and truncates them.

use vstd::prelude::*;

verus! {

/// `child` appended to `dir`: an absolute child replaces `dir`; otherwise a
/// separator is put between them unless `dir` is empty or already ends in
/// one.
pub open spec fn join_path(dir: Seq<char>, child: Seq<char>) -> Seq<char> {
    if child.len() > 0 && child[0] == '/' {
        child
    } else if dir.len() == 0 || dir.last() == '/' {
        dir + child
    } else {
        dir + seq!['/'] + child
    }
}

/// Index of the last separator in `p`, or -1 where there is none.
pub open spec fn last_separator(p: Seq<char>) -> int
    decreases p.len(),
{
    if p.len() == 0 {
        -1
    } else if p.last() == '/' {
        p.len() - 1
    } else {
        last_separator(p.drop_last())
    }
}

/// `p` without its last component: what precedes the last separator, the
/// root where that separator is the first character, and the empty path
/// where `p` has no separator.
pub open spec fn parent_path(p: Seq<char>) -> Seq<char> {
    let k = last_separator(p);
    if k < 0 {
        Seq::empty()
    } else if k == 0 {
        seq!['/']
    } else {
        p.subrange(0, k)
    }
}

/// The last component of `p`, where it is not empty.
pub open spec fn file_name_of(p: Seq<char>) -> Option<Seq<char>> {
    let name = p.subrange(last_separator(p) + 1, p.len() as int);
    if name.len() == 0 {
        None
    } else {
        Some(name)
    }
}

/// A file name that names one file: not empty, and without a separator.
pub open spec fn is_plain_file_name(s: Seq<char>) -> bool {
    s.len() > 0 && forall|i: int| 0 <= i < s.len() ==> s[i] != '/'
}

proof fn lemma_no_separator_after_last(p: Seq<char>)
    ensures
        forall|i: int| last_separator(p) < i < p.len() ==> p[i] != '/',
    decreases p.len(),
{
    if p.len() > 0 && p.last() != '/' {
        lemma_no_separator_after_last(p.drop_last());
        lemma_last_separator_bounds(p.drop_last());
        assert forall|i: int| last_separator(p) < i < p.len() implies p[i] != '/' by {
            if i < p.len() - 1 {
                assert(p[i] == p.drop_last()[i]);
            }
        }
    }
}

/// A file name taken from a path holds no separator.
pub proof fn lemma_file_name_plain(p: Seq<char>)
    requires
        file_name_of(p) is Some,
    ensures
        is_plain_file_name(file_name_of(p)->0),
{
    lemma_last_separator_bounds(p);
    lemma_no_separator_after_last(p);
}

proof fn lemma_last_separator_bounds(p: Seq<char>)
    ensures
        -1 <= last_separator(p) < p.len(),
        last_separator(p) >= 0 ==> p[last_separator(p)] == '/',
    decreases p.len(),
{
    if p.len() > 0 && p.last() != '/' {
        lemma_last_separator_bounds(p.drop_last());
    }
}

/// The index of the last separator in `p`.
fn find_last_separator(p: &str) -> (r: Option<usize>)
    ensures
        match r {
            Some(k) => k as int == last_separator(p@),
            None => last_separator(p@) == -1,
        },
{
    let n = p.unicode_len();
    let mut i: usize = n;
    assert(p@.subrange(0, n as int) =~= p@);
    while i > 0
        invariant
            n == p@.len(),
            i <= n,
            last_separator(p@) == last_separator(p@.subrange(0, i as int)),
        decreases i,
    {
        let ghost q = p@.subrange(0, i as int);
        assert(q.drop_last() =~= p@.subrange(0, i - 1));
        if p.get_char(i - 1) == '/' {
            return Some(i - 1);
        }
        i = i - 1;
    }
    assert(p@.subrange(0, 0) =~= Seq::<char>::empty());
    None
}

/// Joins `child` onto `dir`.
pub fn join(dir: &str, child: &str) -> (r: String)
    ensures
        r@ == join_path(dir@, child@),
{
    if child.unicode_len() > 0 && child.get_char(0) == '/' {
        return child.to_owned();
    }
    let n = dir.unicode_len();
    if n == 0 || dir.get_char(n - 1) == '/' {
        String::from_str(dir).concat(child)
    } else {
        proof {
            reveal_strlit("/");
        }
        String::from_str(dir).concat("/").concat(child)
    }
}

/// The parent of `p`.
pub fn parent(p: &str) -> (r: String)
    ensures
        r@ == parent_path(p@),
{
    proof {
        lemma_last_separator_bounds(p@);
    }
    match find_last_separator(p) {
        None => String::new(),
        Some(k) => {
            if k == 0 {
                proof {
                    reveal_strlit("/");
                }
                "/".to_owned()
            } else {
                p.substring_char(0, k).to_owned()
            }
        },
    }
}

/// The last component of `p`.
pub fn file_name(p: &str) -> (r: Option<String>)
    ensures
        match r {
            Some(s) => file_name_of(p@) == Some(s@),
            None => file_name_of(p@) is None,
        },
{
    proof {
        lemma_last_separator_bounds(p@);
    }
    let n = p.unicode_len();
    let start: usize = match find_last_separator(p) {
        None => 0,
        Some(k) => k + 1,
    };
    if start == n {
        None
    } else {
        Some(p.substring_char(start, n).to_owned())
    }
}

} // verus!

//! Paths as character sequences: the root test, the parent of a canonical
//! path, directory comparison and joining a name onto a directory.

use vstd::prelude::*;
use vstd::string::*;

verus! {

/// A path that names the filesystem root: one or more slashes and nothing else.
pub open spec fn is_root_path(s: Seq<char>) -> bool {
    s.len() > 0 && forall|i: int| 0 <= i < s.len() ==> s[i] == '/'
}

/// The index of the last slash of `s`, or -1 where it has none.
pub open spec fn last_slash(s: Seq<char>) -> int
    decreases s.len(),
{
    if s.len() == 0 {
        -1
    } else if s.last() == '/' {
        s.len() - 1
    } else {
        last_slash(s.drop_last())
    }
}

/// `s` without trailing slashes, keeping a lone slash.
pub open spec fn trim_trailing(s: Seq<char>) -> Seq<char>
    decreases s.len(),
{
    if s.len() > 1 && s.last() == '/' {
        trim_trailing(s.drop_last())
    } else {
        s
    }
}

/// The parent directory of a path: what stands before its last component.
/// The root is its own parent, and a bare name has the empty parent.
pub open spec fn parent_of(s: Seq<char>) -> Seq<char> {
    let t = trim_trailing(s);
    let k = last_slash(t);
    if k < 0 {
        Seq::empty()
    } else if k == 0 {
        seq!['/']
    } else {
        trim_trailing(t.take(k))
    }
}

/// Whether two paths name the same directory, trailing slashes aside.
pub open spec fn same_dir(a: Seq<char>, b: Seq<char>) -> bool {
    trim_trailing(a) == trim_trailing(b)
}

/// `name` placed inside directory `dir`.
pub open spec fn join(dir: Seq<char>, name: Seq<char>) -> Seq<char> {
    if dir.len() > 0 && dir.last() == '/' {
        dir + name
    } else {
        dir + seq!['/'] + name
    }
}

proof fn lemma_last_slash_step(s: Seq<char>, i: int)
    requires
        0 < i <= s.len(),
        s[i - 1] != '/',
    ensures
        last_slash(s.take(i)) == last_slash(s.take(i - 1)),
{
    assert(s.take(i).drop_last() =~= s.take(i - 1));
}

proof fn lemma_trim_step(s: Seq<char>, i: int)
    requires
        1 < i <= s.len(),
        s[i - 1] == '/',
    ensures
        trim_trailing(s.take(i)) == trim_trailing(s.take(i - 1)),
{
    assert(s.take(i).drop_last() =~= s.take(i - 1));
}

/// Whether `path` names the filesystem root.
pub fn is_fs_root(path: &str) -> (r: bool)
    ensures
        r == is_root_path(path@),
{
    let n = path.unicode_len();
    if n == 0 {
        return false;
    }
    let mut i: usize = 0;
    while i < n
        invariant
            n == path@.len(),
            i <= n,
            forall|j: int| 0 <= j < i ==> path@[j] == '/',
        decreases n - i,
    {
        if path.get_char(i) != '/' {
            return false;
        }
        i += 1;
    }
    true
}

/// The index of the last slash of `s`.
fn last_slash_index(s: &str) -> (r: Option<usize>)
    ensures
        match r {
            Some(k) => k == last_slash(s@) && k < s@.len(),
            None => last_slash(s@) == -1,
        },
{
    let mut i = s.unicode_len();
    proof {
        assert(s@.take(i as int) =~= s@);
    }
    while i > 0
        invariant
            i <= s@.len(),
            last_slash(s@) == last_slash(s@.take(i as int)),
        decreases i,
    {
        if s.get_char(i - 1) == '/' {
            return Some(i - 1);
        }
        proof {
            lemma_last_slash_step(s@, i as int);
        }
        i -= 1;
    }
    None
}

/// The length of `s` once its trailing slashes are dropped.
fn trimmed_len(s: &str) -> (r: usize)
    ensures
        r <= s@.len(),
        trim_trailing(s@) == s@.take(r as int),
{
    let mut e = s.unicode_len();
    proof {
        assert(s@.take(e as int) =~= s@);
    }
    while e > 1 && s.get_char(e - 1) == '/'
        invariant
            e <= s@.len(),
            trim_trailing(s@) == trim_trailing(s@.take(e as int)),
        decreases e,
    {
        proof {
            lemma_trim_step(s@, e as int);
        }
        e -= 1;
    }
    e
}

/// `s` without trailing slashes.
pub fn trim_trailing_slashes(s: &str) -> (r: String)
    ensures
        r@ == trim_trailing(s@),
{
    let e = trimmed_len(s);
    String::from_str(s.substring_char(0, e))
}

/// The parent of a canonical path; the root is its own parent.
pub fn parent_path(path: &str) -> (r: String)
    ensures
        r@ == parent_of(path@),
{
    let t = trim_trailing_slashes(path);
    match last_slash_index(t.as_str()) {
        None => String::new(),
        Some(k) => {
            if k == 0 {
                proof {
                    reveal_strlit("/");
                    assert("/"@ =~= seq!['/']);
                }
                String::from_str("/")
            } else {
                trim_trailing_slashes(t.as_str().substring_char(0, k))
            }
        },
    }
}

/// Whether two paths name the same directory, trailing slashes aside.
pub fn is_same_dir(a: &str, b: &str) -> (r: bool)
    ensures
        r == same_dir(a@, b@),
{
    let ta = trim_trailing_slashes(a);
    let tb = trim_trailing_slashes(b);
    ta == tb
}

/// The path of `name` inside directory `dir`.
pub fn join_path(dir: &str, name: &str) -> (r: String)
    ensures
        r@ == join(dir@, name@),
{
    proof {
        reveal_strlit("/");
        assert("/"@ =~= seq!['/']);
    }
    let n = dir.unicode_len();
    if n > 0 && dir.get_char(n - 1) == '/' {
        String::from_str(dir).concat(name)
    } else {
        String::from_str(dir).concat("/").concat(name)
    }
}

} // verus!

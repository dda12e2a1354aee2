//! The operating system's name, version and id, read from the text of an
//! os-release file (`KEY=value` lines), and the kernel's version line.

use vstd::prelude::*;
use vstd::string::*;

verus! {

/// The characters that Unicode gives the White_Space property.
pub open spec fn is_ws(c: char) -> bool {
    ('\u{9}' <= c && c <= '\u{d}') || c == ' ' || c == '\u{85}' || c == '\u{a0}' || c
        == '\u{1680}' || ('\u{2000}' <= c && c <= '\u{200a}') || c == '\u{2028}' || c == '\u{2029}'
        || c == '\u{202f}' || c == '\u{205f}' || c == '\u{3000}'
}

pub open spec fn trim_start(s: Seq<char>) -> Seq<char>
    decreases s.len(),
{
    if s.len() > 0 && is_ws(s[0]) {
        trim_start(s.drop_first())
    } else {
        s
    }
}

pub open spec fn trim_end(s: Seq<char>) -> Seq<char>
    decreases s.len(),
{
    if s.len() > 0 && is_ws(s.last()) {
        trim_end(s.drop_last())
    } else {
        s
    }
}

/// `s` without leading and trailing white space.
pub open spec fn trim_ws(s: Seq<char>) -> Seq<char> {
    trim_end(trim_start(s))
}

/// How many times `c` occurs in `s`.
pub open spec fn count_of(s: Seq<char>, c: char) -> nat
    decreases s.len(),
{
    if s.len() == 0 {
        0
    } else {
        count_of(s.drop_last(), c) + if s.last() == c {
            1nat
        } else {
            0nat
        }
    }
}

/// The index of the last `c` in `s`, or -1.
pub open spec fn last_of(s: Seq<char>, c: char) -> int
    decreases s.len(),
{
    if s.len() == 0 {
        -1
    } else if s.last() == c {
        s.len() - 1
    } else {
        last_of(s.drop_last(), c)
    }
}

/// The key and value that a line assigns: a trimmed line with exactly one
/// `=`, split there.
pub open spec fn line_pair(l: Seq<char>) -> Option<(Seq<char>, Seq<char>)> {
    let t = trim_ws(l);
    if count_of(t, '=') == 1 {
        let p = last_of(t, '=');
        Some((t.take(p), t.skip(p + 1)))
    } else {
        None
    }
}

pub open spec fn add_line(ps: Seq<(Seq<char>, Seq<char>)>, l: Seq<char>) -> Seq<(Seq<char>, Seq<char>)> {
    match line_pair(l) {
        Some(p) => ps.push(p),
        None => ps,
    }
}

/// The pairs of the complete lines of `s`, and the line still open at its end.
pub open spec fn scan_lines(s: Seq<char>) -> (Seq<(Seq<char>, Seq<char>)>, Seq<char>)
    decreases s.len(),
{
    if s.len() == 0 {
        (Seq::empty(), Seq::empty())
    } else {
        let (ps, cur) = scan_lines(s.drop_last());
        if s.last() == '\n' {
            (add_line(ps, cur), Seq::empty())
        } else {
            (ps, cur.push(s.last()))
        }
    }
}

/// The assignments of the text `s`, line by line.
pub open spec fn release_pairs(s: Seq<char>) -> Seq<(Seq<char>, Seq<char>)> {
    add_line(scan_lines(s).0, scan_lines(s).1)
}

/// The value that the last assignment of `k` gives it.
pub open spec fn lookup(ps: Seq<(Seq<char>, Seq<char>)>, k: Seq<char>) -> Option<Seq<char>>
    decreases ps.len(),
{
    if ps.len() == 0 {
        None
    } else if ps.last().0 == k {
        Some(ps.last().1)
    } else {
        lookup(ps.drop_last(), k)
    }
}

pub open spec fn pairs_view(v: Seq<(String, String)>) -> Seq<(Seq<char>, Seq<char>)> {
    v.map_values(|p: (String, String)| (p.0@, p.1@))
}

/// `s` without leading and trailing white space.
pub fn trim(s: &str) -> (r: &str)
    ensures
        r@ == trim_ws(s@),
{
    let n = s.unicode_len();
    let mut i: usize = 0;
    proof {
        assert(s@.skip(0) =~= s@);
    }
    while i < n && is_white(s.get_char(i))
        invariant
            n == s@.len(),
            i <= n,
            trim_start(s@) == trim_start(s@.skip(i as int)),
        decreases n - i,
    {
        proof {
            assert(s@.skip(i as int).drop_first() =~= s@.skip(i + 1));
        }
        i += 1;
    }
    proof {
        assert(trim_start(s@) == s@.skip(i as int));
        assert(s@.subrange(i as int, n as int) =~= s@.skip(i as int));
    }
    let mut e: usize = n;
    while e > i && is_white(s.get_char(e - 1))
        invariant
            n == s@.len(),
            i <= e <= n,
            trim_ws(s@) == trim_end(s@.subrange(i as int, e as int)),
        decreases e,
    {
        proof {
            assert(s@.subrange(i as int, e as int).drop_last() =~= s@.subrange(i as int, e - 1));
        }
        e -= 1;
    }
    s.substring_char(i, e)
}

fn is_white(c: char) -> (r: bool)
    ensures
        r == is_ws(c),
{
    ('\u{9}' <= c && c <= '\u{d}') || c == ' ' || c == '\u{85}' || c == '\u{a0}' || c
        == '\u{1680}' || ('\u{2000}' <= c && c <= '\u{200a}') || c == '\u{2028}' || c == '\u{2029}'
        || c == '\u{202f}' || c == '\u{205f}' || c == '\u{3000}'
}

/// The key and value that one line assigns.
pub fn parse_line(l: &str) -> (r: Option<(String, String)>)
    ensures
        match r {
            Some(p) => line_pair(l@) == Some((p.0@, p.1@)),
            None => line_pair(l@) is None,
        },
{
    let t = trim(l);
    let n = t.unicode_len();
    let mut cnt: usize = 0;
    let mut pos: usize = 0;
    let mut i: usize = 0;
    while i < n
        invariant
            n == t@.len(),
            i <= n,
            cnt == count_of(t@.take(i as int), '='),
            cnt <= i,
            cnt > 0 ==> pos == last_of(t@.take(i as int), '=') && pos < i,
            cnt == 0 ==> last_of(t@.take(i as int), '=') == -1,
        decreases n - i,
    {
        proof {
            assert(t@.take(i + 1).drop_last() =~= t@.take(i as int));
        }
        if t.get_char(i) == '=' {
            cnt += 1;
            pos = i;
        }
        i += 1;
    }
    proof {
        assert(t@.take(n as int) =~= t@);
    }
    if cnt == 1 {
        Some((String::from_str(t.substring_char(0, pos)), String::from_str(t.substring_char(pos + 1, n))))
    } else {
        None
    }
}

/// The assignments of an os-release text, line by line; a later assignment
/// of a key overrides an earlier one (see `release_value`).
pub fn parse_os_release(contents: &str) -> (r: Vec<(String, String)>)
    ensures
        pairs_view(r@) == release_pairs(contents@),
{
    let n = contents.unicode_len();
    let mut pairs: Vec<(String, String)> = Vec::new();
    let mut start: usize = 0;
    let mut i: usize = 0;
    proof {
        assert(pairs_view(pairs@) =~= Seq::<(Seq<char>, Seq<char>)>::empty());
        assert(contents@.take(0) =~= Seq::<char>::empty());
        assert(contents@.subrange(0, 0) =~= Seq::<char>::empty());
    }
    while i < n
        invariant
            n == contents@.len(),
            start <= i <= n,
            scan_lines(contents@.take(i as int)) == (pairs_view(pairs@), contents@.subrange(
                start as int,
                i as int,
            )),
        decreases n - i,
    {
        proof {
            assert(contents@.take(i + 1).drop_last() =~= contents@.take(i as int));
        }
        if contents.get_char(i) == '\n' {
            let line = contents.substring_char(start, i);
            let ghost before = pairs@;
            match parse_line(line) {
                Some(p) => {
                    pairs.push(p);
                    proof {
                        assert(pairs_view(pairs@) =~= pairs_view(before).push((p.0@, p.1@)));
                    }
                },
                None => {},
            }
            start = i + 1;
            proof {
                assert(contents@.subrange(start as int, i + 1) =~= Seq::<char>::empty());
            }
        } else {
            proof {
                assert(contents@.subrange(start as int, i + 1) =~= contents@.subrange(
                    start as int,
                    i as int,
                ).push(contents@[i as int]));
            }
        }
        i += 1;
    }
    proof {
        assert(contents@.take(n as int) =~= contents@);
    }
    let last = contents.substring_char(start, n);
    let ghost before = pairs@;
    match parse_line(last) {
        Some(p) => {
            pairs.push(p);
            proof {
                assert(pairs_view(pairs@) =~= pairs_view(before).push((p.0@, p.1@)));
            }
        },
        None => {},
    }
    pairs
}

/// The value that the last assignment of `key` gives it.
pub fn release_value(pairs: &Vec<(String, String)>, key: &str) -> (r: Option<String>)
    ensures
        match r {
            Some(v) => lookup(pairs_view(pairs@), key@) == Some(v@),
            None => lookup(pairs_view(pairs@), key@) is None,
        },
{
    let k = String::from_str(key);
    let mut j = pairs.len();
    proof {
        assert(pairs_view(pairs@).take(j as int) =~= pairs_view(pairs@));
    }
    while j > 0
        invariant
            j <= pairs@.len(),
            k@ == key@,
            lookup(pairs_view(pairs@), key@) == lookup(pairs_view(pairs@).take(j as int), key@),
        decreases j,
    {
        let ghost pv = pairs_view(pairs@);
        proof {
            assert(pv.take(j as int).drop_last() =~= pv.take(j - 1));
            assert(pv.take(j as int).last() == (pairs@[j - 1].0@, pairs@[j - 1].1@));
        }
        if pairs[j - 1].0 == k {
            return Some(pairs[j - 1].1.clone());
        }
        j -= 1;
    }
    None
}

/// What is known of the running system.
#[derive(Debug, Clone, PartialEq, Eq)]
pub struct OsRelease {
    /// The system's name, without version; "UNIX" where none is given.
    pub name: String,
    /// The system's version, where given.
    pub version: Option<String>,
    /// The system's lower-case id; "unix" where none is given.
    pub id: String,
    /// The kernel's version line.
    pub uname: String,
}

impl OsRelease {
    /// The facts from the text of an os-release file and of the kernel's
    /// version file.
    pub fn parse(os_release: &str, uname: &str) -> (r: OsRelease)
        ensures
            r.name@ == match lookup(release_pairs(os_release@), "NAME"@) {
                Some(v) => v,
                None => "UNIX"@,
            },
            match r.version {
                Some(v) => lookup(release_pairs(os_release@), "VERSION"@) == Some(v@),
                None => lookup(release_pairs(os_release@), "VERSION"@) is None,
            },
            r.id@ == match lookup(release_pairs(os_release@), "ID"@) {
                Some(v) => v,
                None => "unix"@,
            },
            r.uname@ == trim_ws(uname@),
    {
        let pairs = parse_os_release(os_release);
        let name = match release_value(&pairs, "NAME") {
            Some(v) => v,
            None => String::from_str("UNIX"),
        };
        let version = release_value(&pairs, "VERSION");
        let id = match release_value(&pairs, "ID") {
            Some(v) => v,
            None => String::from_str("unix"),
        };
        OsRelease { name, version, id, uname: String::from_str(trim(uname)) }
    }
}

} // verus!

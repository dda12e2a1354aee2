//! Turning the children of a directory into a listing: hidden entries are
//! filtered out on request, the rest is sorted by raw name bytes, and a
//! marker that leads to the parent directory comes first unless the
//! directory is the filesystem root.

use vstd::prelude::*;
use vstd::string::*;
use crate::ftype::{FileEntry, FileType};
use crate::paths::{is_root_path, parent_of, is_fs_root, parent_path};

verus! {

/// Byte-wise lexicographic order on names: `a` sorts strictly before `b`.
pub open spec fn bytes_lt(a: Seq<u8>, b: Seq<u8>) -> bool
    decreases a.len(),
{
    if b.len() == 0 {
        false
    } else if a.len() == 0 {
        true
    } else if a[0] != b[0] {
        a[0] < b[0]
    } else {
        bytes_lt(a.drop_first(), b.drop_first())
    }
}

/// Entry `a` sorts strictly before entry `b`.
pub open spec fn name_before(a: FileEntry, b: FileEntry) -> bool {
    bytes_lt(a.file_name@, b.file_name@)
}

/// The entries that a listing keeps, in their original order.
pub open spec fn shown(s: Seq<FileEntry>, show_hidden: bool) -> Seq<FileEntry>
    decreases s.len(),
{
    if s.len() == 0 {
        s
    } else if show_hidden || !s.last().is_hidden {
        shown(s.drop_last(), show_hidden).push(s.last())
    } else {
        shown(s.drop_last(), show_hidden)
    }
}

/// `e` inserted into `s` after every entry that does not sort after it.
pub open spec fn insert_by_name(s: Seq<FileEntry>, e: FileEntry) -> Seq<FileEntry>
    decreases s.len(),
{
    if s.len() == 0 {
        seq![e]
    } else if name_before(e, s.last()) {
        insert_by_name(s.drop_last(), e).push(s.last())
    } else {
        s.push(e)
    }
}

/// The stable sort of `s` by raw name bytes.
pub open spec fn sort_by_name(s: Seq<FileEntry>) -> Seq<FileEntry>
    decreases s.len(),
{
    if s.len() == 0 {
        s
    } else {
        insert_by_name(sort_by_name(s.drop_last()), s.last())
    }
}

/// No entry sorts strictly before an entry that precedes it.
pub open spec fn sorted_by_name(s: Seq<FileEntry>) -> bool {
    forall|i: int, j: int| 0 <= i < j < s.len() ==> !name_before(#[trigger] s[j], #[trigger] s[i])
}

/// The name given to the parent-directory marker.
pub open spec fn marker_name() -> Seq<u8> {
    // ".. [UP]"
    seq![0x2eu8, 0x2eu8, 0x20u8, 0x5bu8, 0x55u8, 0x50u8, 0x5du8]
}

/// The nominal size shown for the parent-directory marker.
pub const MARKER_SIZE: u64 = 4096;

/// `e` is the marker that leads to `parent`.
pub open spec fn is_marker(e: FileEntry, parent: Seq<char>) -> bool {
    &&& e.file_name@ == marker_name()
    &&& e.path@ == parent
    &&& e.byte_size == MARKER_SIZE
    &&& e.file_type == FileType::ParentDirectory
    &&& !e.is_hidden
}

/// Where the marker of a directory leads: the parent of its canonical form,
/// or the root where the canonical form could not be had.
pub open spec fn marker_target(canonical: Option<Seq<char>>) -> Seq<char> {
    match canonical {
        Some(c) => parent_of(c),
        None => seq!['/'],
    }
}

/// Whether the directory is the filesystem root: judged on its canonical
/// form where that could be had, else on the path as given.
pub open spec fn listing_root(dir: Seq<char>, canonical: Option<Seq<char>>) -> bool {
    match canonical {
        Some(c) => is_root_path(c),
        None => is_root_path(dir),
    }
}

/// The entries of a listing after the marker, if any.
pub open spec fn listing_body(r: Seq<FileEntry>, dir: Seq<char>, canonical: Option<Seq<char>>) -> Seq<FileEntry> {
    if listing_root(dir, canonical) {
        r
    } else {
        r.drop_first()
    }
}

/// `r` is the listing of directory `dir` with children `children`.
pub open spec fn is_listing(
    r: Seq<FileEntry>,
    dir: Seq<char>,
    canonical: Option<Seq<char>>,
    children: Seq<FileEntry>,
    show_hidden: bool,
) -> bool {
    let body = sort_by_name(shown(children, show_hidden));
    if listing_root(dir, canonical) {
        r == body
    } else {
        &&& r.len() == body.len() + 1
        &&& is_marker(r[0], marker_target(canonical))
        &&& r.drop_first() == body
    }
}

proof fn lemma_lt_irreflexive(a: Seq<u8>)
    ensures
        !bytes_lt(a, a),
    decreases a.len(),
{
    if a.len() > 0 {
        lemma_lt_irreflexive(a.drop_first());
    }
}

proof fn lemma_lt_asymmetric(a: Seq<u8>, b: Seq<u8>)
    requires
        bytes_lt(a, b),
    ensures
        !bytes_lt(b, a),
    decreases a.len(),
{
    if a.len() > 0 && b.len() > 0 && a[0] == b[0] {
        lemma_lt_asymmetric(a.drop_first(), b.drop_first());
    }
}

proof fn lemma_lt_transitive(a: Seq<u8>, b: Seq<u8>, c: Seq<u8>)
    requires
        bytes_lt(a, b),
        bytes_lt(b, c),
    ensures
        bytes_lt(a, c),
    decreases a.len(),
{
    if a.len() > 0 && b.len() > 0 && c.len() > 0 && a[0] == b[0] && b[0] == c[0] {
        lemma_lt_transitive(a.drop_first(), b.drop_first(), c.drop_first());
    }
}

proof fn lemma_lt_total(a: Seq<u8>, b: Seq<u8>)
    requires
        a != b,
    ensures
        bytes_lt(a, b) || bytes_lt(b, a),
    decreases a.len(),
{
    if a.len() == 0 && b.len() == 0 {
        assert(a =~= b);
    } else if a.len() > 0 && b.len() > 0 && a[0] == b[0] {
        if a.drop_first() == b.drop_first() {
            assert(a.drop_first().len() == b.drop_first().len());
            assert(a.len() == b.len());
            assert forall|i: int| 0 <= i < a.len() implies a[i] == b[i] by {
                if i > 0 {
                    assert(a[i] == a.drop_first()[i - 1]);
                    assert(b[i] == b.drop_first()[i - 1]);
                }
            }
            assert(a =~= b);
        }
        lemma_lt_total(a.drop_first(), b.drop_first());
    }
}

proof fn lemma_insert_multiset(s: Seq<FileEntry>, e: FileEntry)
    ensures
        insert_by_name(s, e).to_multiset() =~= s.to_multiset().insert(e),
    decreases s.len(),
{
    if s.len() == 0 {
        Seq::<FileEntry>::empty().to_multiset_ensures();
        assert(seq![e] =~= Seq::<FileEntry>::empty().push(e));
        assert(s =~= Seq::<FileEntry>::empty());
    } else {
        let d = s.drop_last();
        let l = s.last();
        assert(s =~= d.push(l));
        d.to_multiset_ensures();
        if name_before(e, l) {
            lemma_insert_multiset(d, e);
            insert_by_name(d, e).to_multiset_ensures();
        } else {
            s.to_multiset_ensures();
        }
    }
}

proof fn lemma_sort_multiset(s: Seq<FileEntry>)
    ensures
        sort_by_name(s).to_multiset() =~= s.to_multiset(),
    decreases s.len(),
{
    if s.len() > 0 {
        let d = s.drop_last();
        assert(s =~= d.push(s.last()));
        lemma_sort_multiset(d);
        lemma_insert_multiset(sort_by_name(d), s.last());
        d.to_multiset_ensures();
    }
}

/// The same entries, as far as membership goes, stand in a sequence and in its sort.
proof fn lemma_sort_contains(s: Seq<FileEntry>, x: FileEntry)
    ensures
        sort_by_name(s).contains(x) <==> s.contains(x),
{
    lemma_sort_multiset(s);
    s.to_multiset_ensures();
    sort_by_name(s).to_multiset_ensures();
    assert(sort_by_name(s).to_multiset().count(x) == s.to_multiset().count(x));
}

proof fn lemma_push_contains(s: Seq<FileEntry>, e: FileEntry, x: FileEntry)
    ensures
        s.push(e).contains(x) <==> (s.contains(x) || x == e),
{
    if s.push(e).contains(x) {
        let k = choose|k: int| 0 <= k < s.len() + 1 && s.push(e)[k] == x;
        if k < s.len() {
            assert(s[k] == x);
        }
    }
    if s.contains(x) {
        let k = choose|k: int| 0 <= k < s.len() && s[k] == x;
        assert(s.push(e)[k] == x);
    }
    assert(s.push(e)[s.len() as int] == e);
}

proof fn lemma_insert_sorted_keeps_order(s: Seq<FileEntry>, e: FileEntry)
    requires
        sorted_by_name(s),
    ensures
        sorted_by_name(insert_by_name(s, e)),
    decreases s.len(),
{
    if s.len() > 0 {
        let d = s.drop_last();
        let l = s.last();
        assert(s =~= d.push(l));
        if name_before(e, l) {
            assert(sorted_by_name(d)) by {
                assert forall|i: int, j: int| 0 <= i < j < d.len() implies !name_before(
                    #[trigger] d[j],
                    #[trigger] d[i],
                ) by {
                    assert(d[i] == s[i] && d[j] == s[j]);
                }
            }
            lemma_insert_sorted_keeps_order(d, e);
            let m = insert_by_name(d, e);
            lemma_insert_multiset(d, e);
            m.to_multiset_ensures();
            d.to_multiset_ensures();
            assert forall|i: int| 0 <= i < m.len() implies !name_before(l, #[trigger] m[i]) by {
                assert(m.contains(m[i]));
                assert(m.to_multiset().count(m[i]) > 0);
                if m[i] == e {
                    lemma_lt_asymmetric(e.file_name@, l.file_name@);
                } else {
                    assert(d.to_multiset().count(m[i]) > 0);
                    assert(d.contains(m[i]));
                    let k = choose|k: int| 0 <= k < d.len() && d[k] == m[i];
                    assert(s[k] == m[i]);
                    assert(!name_before(s[s.len() - 1], s[k]));
                }
            }
            let r = m.push(l);
            assert forall|i: int, j: int| 0 <= i < j < r.len() implies !name_before(
                #[trigger] r[j],
                #[trigger] r[i],
            ) by {
                if j == r.len() - 1 {
                    assert(r[j] == l && r[i] == m[i]);
                } else {
                    assert(r[j] == m[j] && r[i] == m[i]);
                }
            }
        } else {
            let r = s.push(e);
            assert forall|i: int, j: int| 0 <= i < j < r.len() implies !name_before(
                #[trigger] r[j],
                #[trigger] r[i],
            ) by {
                if j == r.len() - 1 {
                    let x = s[i];
                    assert(r[i] == x && r[j] == e);
                    if i < s.len() - 1 {
                        assert(!name_before(s[s.len() - 1], s[i]));
                    }
                    if name_before(e, x) {
                        if x.file_name@ == l.file_name@ {
                        } else {
                            lemma_lt_total(x.file_name@, l.file_name@);
                            lemma_lt_transitive(e.file_name@, x.file_name@, l.file_name@);
                        }
                    }
                } else {
                    assert(r[j] == s[j] && r[i] == s[i]);
                }
            }
        }
    } else {
        assert(insert_by_name(s, e) =~= seq![e]);
    }
}

proof fn lemma_sort_is_sorted(s: Seq<FileEntry>)
    ensures
        sorted_by_name(sort_by_name(s)),
    decreases s.len(),
{
    if s.len() > 0 {
        lemma_sort_is_sorted(s.drop_last());
        lemma_insert_sorted_keeps_order(sort_by_name(s.drop_last()), s.last());
    }
}

proof fn lemma_shown_contains(s: Seq<FileEntry>, show_hidden: bool, x: FileEntry)
    ensures
        shown(s, show_hidden).contains(x) <==> (s.contains(x) && (show_hidden || !x.is_hidden)),
    decreases s.len(),
{
    if s.len() > 0 {
        let d = s.drop_last();
        let l = s.last();
        assert(s =~= d.push(l));
        lemma_shown_contains(d, show_hidden, x);
        lemma_push_contains(d, l, x);
        lemma_push_contains(shown(d, show_hidden), l, x);
    }
}

/// Where hidden entries are not shown, no entry of a listing is hidden.
pub proof fn lemma_listing_hides_hidden(
    r: Seq<FileEntry>,
    dir: Seq<char>,
    canonical: Option<Seq<char>>,
    children: Seq<FileEntry>,
)
    requires
        is_listing(r, dir, canonical, children, false),
    ensures
        forall|i: int| 0 <= i < r.len() ==> !(#[trigger] r[i]).is_hidden,
{
    let body = sort_by_name(shown(children, false));
    assert forall|i: int| 0 <= i < r.len() implies !(#[trigger] r[i]).is_hidden by {
        if listing_root(dir, canonical) || i > 0 {
            let k = if listing_root(dir, canonical) { i } else { i - 1 };
            assert(body[k] == r[i]);
            assert(body.contains(r[i]));
            lemma_sort_contains(shown(children, false), r[i]);
            lemma_shown_contains(children, false, r[i]);
        }
    }
}

/// Every readable child that is shown (all of them where hidden entries are
/// shown) appears in the listing.
pub proof fn lemma_listing_keeps_children(
    r: Seq<FileEntry>,
    dir: Seq<char>,
    canonical: Option<Seq<char>>,
    children: Seq<FileEntry>,
    show_hidden: bool,
    c: FileEntry,
)
    requires
        is_listing(r, dir, canonical, children, show_hidden),
        children.contains(c),
        show_hidden || !c.is_hidden,
    ensures
        r.contains(c),
{
    let body = sort_by_name(shown(children, show_hidden));
    lemma_shown_contains(children, show_hidden, c);
    lemma_sort_contains(shown(children, show_hidden), c);
    let k = choose|k: int| 0 <= k < body.len() && body[k] == c;
    if !listing_root(dir, canonical) {
        assert(r[k + 1] == body[k]);
    }
}

/// The parent-directory marker stands first exactly where the directory is
/// not the filesystem root, whatever the names of the children.
pub proof fn lemma_marker_first_iff_not_root(
    r: Seq<FileEntry>,
    dir: Seq<char>,
    canonical: Option<Seq<char>>,
    children: Seq<FileEntry>,
    show_hidden: bool,
)
    requires
        is_listing(r, dir, canonical, children, show_hidden),
        forall|i: int| 0 <= i < children.len() ==> (#[trigger] children[i]).file_type != FileType::ParentDirectory,
    ensures
        (r.len() > 0 && r[0].file_type == FileType::ParentDirectory) <==> !listing_root(dir, canonical),
{
    if listing_root(dir, canonical) && r.len() > 0 {
        let sh = shown(children, show_hidden);
        assert(r.contains(r[0]));
        lemma_sort_contains(sh, r[0]);
        lemma_shown_contains(children, show_hidden, r[0]);
    }
}

/// The entries after the marker are exactly the children that are shown,
/// each as often as among the children.
pub proof fn lemma_listing_body_is_shown_children(
    r: Seq<FileEntry>,
    dir: Seq<char>,
    canonical: Option<Seq<char>>,
    children: Seq<FileEntry>,
    show_hidden: bool,
)
    requires
        is_listing(r, dir, canonical, children, show_hidden),
    ensures
        listing_body(r, dir, canonical).to_multiset() =~= shown(children, show_hidden).to_multiset(),
{
    lemma_sort_multiset(shown(children, show_hidden));
}

/// Where no child is itself a marker, the listing holds exactly one marker
/// outside the root, at its head, and none at the root.
pub proof fn lemma_single_marker(
    r: Seq<FileEntry>,
    dir: Seq<char>,
    canonical: Option<Seq<char>>,
    children: Seq<FileEntry>,
    show_hidden: bool,
)
    requires
        is_listing(r, dir, canonical, children, show_hidden),
        forall|i: int| 0 <= i < children.len() ==> (#[trigger] children[i]).file_type != FileType::ParentDirectory,
    ensures
        !listing_root(dir, canonical) ==> r[0].file_type == FileType::ParentDirectory,
        forall|i: int|
            (if listing_root(dir, canonical) { 0int } else { 1int }) <= i < r.len()
                ==> (#[trigger] r[i]).file_type != FileType::ParentDirectory,
{
    let sh = shown(children, show_hidden);
    let body = sort_by_name(sh);
    assert forall|i: int|
        (if listing_root(dir, canonical) { 0int } else { 1int }) <= i < r.len()
            implies (#[trigger] r[i]).file_type != FileType::ParentDirectory by {
        let k = if listing_root(dir, canonical) { i } else { i - 1 };
        assert(body[k] == r[i]);
        assert(body.contains(r[i]));
        lemma_sort_contains(sh, r[i]);
        lemma_shown_contains(children, show_hidden, r[i]);
    }
}

/// The entries after the marker are sorted by raw name bytes.
pub proof fn lemma_listing_sorted(
    r: Seq<FileEntry>,
    dir: Seq<char>,
    canonical: Option<Seq<char>>,
    children: Seq<FileEntry>,
    show_hidden: bool,
)
    requires
        is_listing(r, dir, canonical, children, show_hidden),
    ensures
        sorted_by_name(listing_body(r, dir, canonical)),
{
    lemma_sort_is_sorted(shown(children, show_hidden));
}

/// Whether name `a` sorts strictly before name `b`.
pub fn name_lt(a: &Vec<u8>, b: &Vec<u8>) -> (r: bool)
    ensures
        r == bytes_lt(a@, b@),
{
    let mut i: usize = 0;
    proof {
        assert(a@.skip(0) =~= a@);
        assert(b@.skip(0) =~= b@);
    }
    loop
        invariant
            i <= a@.len(),
            i <= b@.len(),
            bytes_lt(a@, b@) == bytes_lt(a@.skip(i as int), b@.skip(i as int)),
        decreases a@.len() - i,
    {
        if i == b.len() {
            return false;
        }
        if i == a.len() {
            return true;
        }
        if a[i] != b[i] {
            return a[i] < b[i];
        }
        proof {
            assert(a@.skip(i as int).drop_first() =~= a@.skip(i + 1));
            assert(b@.skip(i as int).drop_first() =~= b@.skip(i + 1));
        }
        i += 1;
    }
}

proof fn lemma_insert_at(s: Seq<FileEntry>, e: FileEntry, j: int)
    requires
        0 <= j <= s.len(),
        forall|k: int| j <= k < s.len() ==> name_before(e, #[trigger] s[k]),
        j == 0 || !name_before(e, s[j - 1]),
    ensures
        insert_by_name(s, e) == s.insert(j, e),
    decreases s.len(),
{
    if j == s.len() {
        assert(s.insert(j, e) =~= s.push(e));
        if s.len() == 0 {
            assert(s.insert(j, e) =~= seq![e]);
        }
    } else {
        let l = s.last();
        assert(name_before(e, s[s.len() - 1]));
        let d = s.drop_last();
        assert forall|k: int| j <= k < d.len() implies name_before(e, #[trigger] d[k]) by {
            assert(d[k] == s[k]);
        }
        lemma_insert_at(d, e, j);
        assert(d.insert(j, e).push(l) =~= s.insert(j, e));
    }
}

/// Inserts `e` into `rows` after every entry that does not sort after it.
fn insert_sorted(rows: &mut Vec<FileEntry>, e: FileEntry)
    ensures
        final(rows)@ == insert_by_name(old(rows)@, e),
{
    let mut j = rows.len();
    loop
        invariant
            j <= rows@.len(),
            rows@ == old(rows)@,
            forall|k: int| j <= k < rows@.len() ==> name_before(e, #[trigger] rows@[k]),
        ensures
            j <= rows@.len(),
            rows@ == old(rows)@,
            forall|k: int| j <= k < rows@.len() ==> name_before(e, #[trigger] rows@[k]),
            j == 0 || !name_before(e, rows@[j - 1]),
        decreases j,
    {
        if j == 0 || !name_lt(&e.file_name, &rows[j - 1].file_name) {
            break;
        }
        j -= 1;
    }
    proof {
        lemma_insert_at(rows@, e, j as int);
    }
    rows.insert(j, e);
}

/// The entries of `children` that are kept, sorted by raw name bytes.
pub fn sorted_children(children: Vec<FileEntry>, show_hidden: bool) -> (r: Vec<FileEntry>)
    ensures
        r@ == sort_by_name(shown(children@, show_hidden)),
{
    let ghost orig = children@;
    let n = children.len();
    let mut rest = children;
    let mut rows: Vec<FileEntry> = Vec::new();
    let mut i: usize = 0;
    proof {
        assert(orig.skip(0) =~= orig);
        assert(orig.take(0) =~= Seq::<FileEntry>::empty());
    }
    while rest.len() > 0
        invariant
            i <= orig.len(),
            orig.len() == n,
            rest@.len() + i == orig.len(),
            rest@ == orig.skip(i as int),
            rows@ == sort_by_name(shown(orig.take(i as int), show_hidden)),
        decreases rest@.len(),
    {
        let e = rest.remove(0);
        proof {
            assert(orig.take(i + 1).drop_last() =~= orig.take(i as int));
            assert(orig.take(i + 1).last() == e);
            assert(rest@ =~= orig.skip(i + 1));
        }
        if show_hidden || !e.is_hidden {
            proof {
                let sh = shown(orig.take(i as int), show_hidden);
                assert(sh.push(e).drop_last() =~= sh);
            }
            insert_sorted(&mut rows, e);
        }
        i += 1;
    }
    proof {
        assert(orig.take(i as int) =~= orig);
    }
    rows
}

/// The marker entry that leads from a directory to its parent.
pub fn parent_dir(canonical: Option<&str>) -> (r: FileEntry)
    ensures
        is_marker(r, marker_target(
            match canonical {
                Some(c) => Some(c@),
                None => None,
            },
        )),
{
    let path = match canonical {
        Some(c) => parent_path(c),
        None => {
            proof {
                reveal_strlit("/");
                assert("/"@ =~= seq!['/']);
            }
            String::from_str("/")
        },
    };
    let name: Vec<u8> = vec![0x2eu8, 0x2eu8, 0x20u8, 0x5bu8, 0x55u8, 0x50u8, 0x5du8];
    proof {
        assert(name@ =~= marker_name());
    }
    FileEntry {
        file_name: name,
        path,
        byte_size: MARKER_SIZE,
        file_type: FileType::ParentDirectory,
        is_hidden: false,
    }
}

/// The listing of directory `dir` from its readable children. `canonical` is
/// the canonical form of `dir`, where it could be had.
pub fn build_listing(
    dir: &str,
    canonical: Option<&str>,
    children: Vec<FileEntry>,
    show_hidden: bool,
) -> (r: Vec<FileEntry>)
    ensures
        is_listing(
            r@,
            dir@,
            match canonical {
                Some(c) => Some(c@),
                None => None,
            },
            children@,
            show_hidden,
        ),
{
    let mut rows = sorted_children(children, show_hidden);
    let root = match canonical {
        Some(c) => is_fs_root(c),
        None => is_fs_root(dir),
    };
    if !root {
        let up = parent_dir(canonical);
        let ghost body = rows@;
        rows.insert(0, up);
        proof {
            assert(rows@.drop_first() =~= body);
        }
    }
    rows
}

} // verus!

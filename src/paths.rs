//! Unix paths as byte strings: joining, base names, parents and containment.
use vstd::prelude::*;

verus! {

/// The byte `/`, which separates path components.
pub const SEP: u8 = 0x2f;

/// The byte `.`.
pub const DOT: u8 = 0x2e;

/// A path is absolute when it starts with a separator.
pub open spec fn is_absolute(p: Seq<u8>) -> bool {
    p.len() > 0 && p[0] == SEP
}

/// `dir` joined with `name`, as on Unix: an absolute `name` replaces `dir`, an
/// empty `dir` gives `name`, and one separator stands between the two.
pub open spec fn join_spec(dir: Seq<u8>, name: Seq<u8>) -> Seq<u8> {
    if is_absolute(name) || dir.len() == 0 {
        name
    } else if dir.last() == SEP {
        dir + name
    } else {
        dir.push(SEP) + name
    }
}

/// Length of `p` once its trailing separators are taken off.
pub open spec fn trimmed_len(p: Seq<u8>) -> nat
    decreases p.len(),
{
    if p.len() > 0 && p.last() == SEP {
        trimmed_len(p.drop_last())
    } else {
        p.len()
    }
}

/// Index at which the last component of `p.subrange(0, n)` starts: just after
/// the last separator before `n`, or 0.
pub open spec fn segment_start(p: Seq<u8>, n: nat) -> nat
    decreases n,
{
    if n == 0 || n > p.len() {
        0
    } else if p[n - 1] == SEP {
        n
    } else {
        segment_start(p, (n - 1) as nat)
    }
}

/// The last component of `p`, trailing separators ignored.
pub open spec fn last_segment(p: Seq<u8>) -> Seq<u8> {
    p.subrange(segment_start(p, trimmed_len(p)) as int, trimmed_len(p) as int)
}

/// `.` or `..`: components that name no entry of their own.
pub open spec fn is_dot_name(s: Seq<u8>) -> bool {
    (s.len() == 1 && s[0] == DOT) || (s.len() == 2 && s[0] == DOT && s[1] == DOT)
}

/// The base name of `p`: its last component, or empty where that is `.` or `..`.
pub open spec fn file_name_spec(p: Seq<u8>) -> Seq<u8> {
    if is_dot_name(last_segment(p)) {
        Seq::empty()
    } else {
        last_segment(p)
    }
}

/// The directory part of `p`: all before its last component, with trailing
/// separators taken off, but `/` where only the root is left.
pub open spec fn parent_spec(p: Seq<u8>) -> Seq<u8> {
    let s = segment_start(p, trimmed_len(p));
    let q = p.subrange(0, s as int);
    if trimmed_len(q) == 0 && s > 0 {
        q.subrange(0, 1)
    } else {
        q.subrange(0, trimmed_len(q) as int)
    }
}

/// Where the link at `link` points when its text is `text`: an absolute text
/// as it stands, a relative one taken from the link's own directory.
pub open spec fn resolve_spec(link: Seq<u8>, text: Seq<u8>) -> Seq<u8> {
    join_spec(parent_spec(link), text)
}

/// `target` lies in the tree of `root`, component by component: it is `root`
/// itself, or `root` followed by a separator and more. Both are meant to be
/// canonical paths (absolute, no `.` or `..`, no doubled separators).
pub open spec fn within_spec(root: Seq<u8>, target: Seq<u8>) -> bool {
    target == root || (target.len() > root.len() && target.subrange(0, root.len() as int) == root
        && (root.len() > 0 && root.last() == SEP || target[root.len() as int] == SEP))
}

/// Appends the bytes of `src` to `out`.
fn append(out: &mut Vec<u8>, src: &Vec<u8>)
    ensures
        final(out)@ == old(out)@ + src@,
{
    let mut i: usize = 0;
    while i < src.len()
        invariant
            i <= src.len(),
            out@ == old(out)@ + src@.subrange(0, i as int),
        decreases src.len() - i,
    {
        out.push(src[i]);
        i = i + 1;
        assert(src@.subrange(0, i as int) == src@.subrange(0, i - 1 as int).push(src@[i - 1]));
    }
    assert(src@.subrange(0, src.len() as int) == src@);
}

/// A copy of the bytes of `p` from `a` up to `b`.
fn slice(p: &Vec<u8>, a: usize, b: usize) -> (r: Vec<u8>)
    requires
        a <= b <= p.len(),
    ensures
        r@ == p@.subrange(a as int, b as int),
{
    let mut r: Vec<u8> = Vec::new();
    let mut i: usize = a;
    while i < b
        invariant
            a <= i <= b <= p.len(),
            r@ == p@.subrange(a as int, i as int),
        decreases b - i,
    {
        r.push(p[i]);
        i = i + 1;
        assert(p@.subrange(a as int, i as int) == p@.subrange(a as int, i - 1 as int).push(p@[i - 1]));
    }
    r
}

/// Length of the first `n` bytes of `p` once trailing separators are taken off.
fn trim_len(p: &Vec<u8>, n: usize) -> (r: usize)
    requires
        n <= p.len(),
    ensures
        r == trimmed_len(p@.subrange(0, n as int)),
        r <= n,
{
    let mut m: usize = n;
    while m > 0 && p[m - 1] == SEP
        invariant
            m <= n <= p.len(),
            trimmed_len(p@.subrange(0, n as int)) == trimmed_len(p@.subrange(0, m as int)),
        decreases m,
    {
        assert(p@.subrange(0, m as int).drop_last() == p@.subrange(0, m - 1 as int));
        m = m - 1;
    }
    m
}

/// Index at which the last component of the first `n` bytes of `p` starts.
fn seg_start(p: &Vec<u8>, n: usize) -> (r: usize)
    requires
        n <= p.len(),
    ensures
        r == segment_start(p@, n as nat),
        r <= n,
{
    let mut m: usize = n;
    while m > 0 && p[m - 1] != SEP
        invariant
            m <= n <= p.len(),
            segment_start(p@, n as nat) == segment_start(p@, m as nat),
        decreases m,
    {
        m = m - 1;
    }
    m
}

/// A copy of the path `p`.
pub(crate) fn copy_path(p: &Vec<u8>) -> (r: Vec<u8>)
    ensures
        r@ == p@,
{
    let r = slice(p, 0, p.len());
    assert(p@.subrange(0, p.len() as int) == p@);
    r
}

/// `dir` joined with `name`.
pub fn join(dir: &Vec<u8>, name: &Vec<u8>) -> (r: Vec<u8>)
    ensures
        r@ == join_spec(dir@, name@),
{
    let mut r: Vec<u8> = Vec::new();
    let absolute = name.len() > 0 && name[0] == SEP;
    if !absolute && dir.len() > 0 {
        append(&mut r, dir);
        if dir[dir.len() - 1] != SEP {
            r.push(SEP);
        }
    }
    append(&mut r, name);
    r
}

/// The base name of `p` (empty where its last component is `.` or `..`).
pub fn file_name(p: &Vec<u8>) -> (r: Vec<u8>)
    ensures
        r@ == file_name_spec(p@),
{
    let t = trim_len(p, p.len());
    assert(p@.subrange(0, p.len() as int) == p@);
    let s = seg_start(p, t);
    let raw = slice(p, s, t);
    let dots = (raw.len() == 1 && raw[0] == DOT) || (raw.len() == 2 && raw[0] == DOT && raw[1] == DOT);
    if dots {
        Vec::new()
    } else {
        raw
    }
}

/// The directory part of `p`.
pub fn parent(p: &Vec<u8>) -> (r: Vec<u8>)
    ensures
        r@ == parent_spec(p@),
{
    let t = trim_len(p, p.len());
    assert(p@.subrange(0, p.len() as int) == p@);
    let s = seg_start(p, t);
    let k = trim_len(p, s);
    if k == 0 && s > 0 {
        slice(p, 0, 1)
    } else {
        slice(p, 0, k)
    }
}

/// Where the link at `link` points when its text is `text`.
pub fn resolve_link(link: &Vec<u8>, text: &Vec<u8>) -> (r: Vec<u8>)
    ensures
        r@ == resolve_spec(link@, text@),
{
    let dir = parent(link);
    join(&dir, text)
}

/// Whether `target` lies in the tree of `root`, component by component.
pub fn is_within(root: &Vec<u8>, target: &Vec<u8>) -> (r: bool)
    ensures
        r == within_spec(root@, target@),
{
    if target.len() < root.len() {
        assert(target@ != root@);
        return false;
    }
    let mut i: usize = 0;
    while i < root.len()
        invariant
            i <= root.len() <= target.len(),
            target@.subrange(0, i as int) == root@.subrange(0, i as int),
        decreases root.len() - i,
    {
        if target[i] != root[i] {
            assert(target@.subrange(0, root.len() as int)[i as int] != root@[i as int]);
            assert(target@.subrange(0, root.len() as int) != root@);
            assert(target@ != root@);
            return false;
        }
        i = i + 1;
        assert(target@.subrange(0, i as int) == target@.subrange(0, i - 1 as int).push(target@[i - 1]));
        assert(root@.subrange(0, i as int) == root@.subrange(0, i - 1 as int).push(root@[i - 1]));
    }
    assert(root@.subrange(0, root.len() as int) == root@);
    if target.len() == root.len() {
        assert(target@ == target@.subrange(0, root.len() as int));
        return true;
    }
    (root.len() > 0 && root[root.len() - 1] == SEP) || target[root.len()] == SEP
}

} // verus!

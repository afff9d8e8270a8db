//! The order of source paths: component by component, as `std::path::Path`
//! compares them, each component compared by its text.

use crate::text::{chars_of, split_on, split_text, str_eq, views};
use vstd::prelude::*;

verus! {

/// Lexicographic order of texts by code point (the order of `str`).
pub open spec fn text_lt(a: Seq<char>, b: Seq<char>) -> bool
    decreases a.len(),
{
    if b.len() == 0 {
        false
    } else if a.len() == 0 {
        true
    } else if a[0] != b[0] {
        (a[0] as u32) < (b[0] as u32)
    } else {
        text_lt(a.drop_first(), b.drop_first())
    }
}

/// The order of texts is transitive.
pub proof fn lemma_text_lt_trans(a: Seq<char>, b: Seq<char>, c: Seq<char>)
    requires
        text_lt(a, b),
        text_lt(b, c),
    ensures
        text_lt(a, c),
    decreases a.len(),
{
    if a.len() > 0 && a[0] == b[0] && b[0] == c[0] {
        lemma_text_lt_trans(a.drop_first(), b.drop_first(), c.drop_first());
    }
}

/// The order of texts is total and asymmetric.
pub proof fn lemma_text_lt_total(a: Seq<char>, b: Seq<char>)
    ensures
        a == b || text_lt(a, b) || text_lt(b, a),
        !(text_lt(a, b) && text_lt(b, a)),
    decreases a.len(),
{
    if a.len() == 0 || b.len() == 0 {
        if a.len() == 0 && b.len() == 0 {
            assert(a =~= b);
        }
    } else if a[0] != b[0] {
        vstd::utf8::char_u32_cast(a[0], a[0] as u32);
        vstd::utf8::char_u32_cast(b[0], b[0] as u32);
    } else {
        let (x, y) = (a.drop_first(), b.drop_first());
        lemma_text_lt_total(x, y);
        if x == y {
            assert forall|i: int| 0 <= i < a.len() implies a[i] == b[i] by {
                if i > 0 {
                    assert(a[i] == x[i - 1]);
                    assert(b[i] == y[i - 1]);
                }
            }
            assert(a =~= b);
        }
    }
}

pub(crate) fn text_less(a: &str, b: &str) -> (res: bool)
    ensures
        res == text_lt(a@, b@),
{
    let x = chars_of(a);
    let y = chars_of(b);
    let mut i: usize = 0;
    assert(x@.skip(0) =~= x@);
    assert(y@.skip(0) =~= y@);
    while i < x.len() && i < y.len()
        invariant
            x@ == a@,
            y@ == b@,
            i <= x@.len(),
            i <= y@.len(),
            text_lt(a@, b@) == text_lt(x@.skip(i as int), y@.skip(i as int)),
        decreases x@.len() - i,
    {
        let ghost xs = x@.skip(i as int);
        let ghost ys = y@.skip(i as int);
        assert(xs[0] == x@[i as int]);
        assert(ys[0] == y@[i as int]);
        if x[i] != y[i] {
            return (x[i] as u32) < (y[i] as u32);
        }
        assert(xs.drop_first() =~= x@.skip(i + 1));
        assert(ys.drop_first() =~= y@.skip(i + 1));
        i = i + 1;
    }
    i < y.len()
}



/// One component of a path, as `std::path` reads it on Unix.
pub ghost enum PathComponent {
    RootDir,
    CurDir,
    ParentDir,
    Normal(Seq<char>),
}

/// The components of the `/`-separated pieces of a path: an empty piece
/// (a repeated or trailing separator) and `.` give none, `..` is the parent.
pub open spec fn piece_components(pieces: Seq<Seq<char>>) -> Seq<PathComponent>
    decreases pieces.len(),
{
    if pieces.len() == 0 {
        seq![]
    } else {
        let p = piece_components(pieces.drop_last());
        let x = pieces.last();
        if x.len() == 0 || x == "."@ {
            p
        } else if x == ".."@ {
            p.push(PathComponent::ParentDir)
        } else {
            p.push(PathComponent::Normal(x))
        }
    }
}

/// The component a path starts with before its pieces: the root of an
/// absolute path, or `.` when a relative path begins with that piece.
pub open spec fn leading_components(s: Seq<char>) -> Seq<PathComponent> {
    if s.len() > 0 && s[0] == '/' {
        seq![PathComponent::RootDir]
    } else if s.len() > 0 && s[0] == '.' && (s.len() == 1 || s[1] == '/') {
        seq![PathComponent::CurDir]
    } else {
        seq![]
    }
}

/// The components of a path.
pub open spec fn path_components(s: Seq<char>) -> Seq<PathComponent> {
    leading_components(s) + piece_components(split_on(s, '/'))
}

/// The rank of a component's kind: root, then `.`, then `..`, then names.
pub open spec fn comp_rank(c: PathComponent) -> int {
    match c {
        PathComponent::RootDir => 0,
        PathComponent::CurDir => 1,
        PathComponent::ParentDir => 2,
        PathComponent::Normal(_) => 3,
    }
}

/// The order of components: by kind, names by their text.
pub open spec fn comp_lt(a: PathComponent, b: PathComponent) -> bool {
    if comp_rank(a) != comp_rank(b) {
        comp_rank(a) < comp_rank(b)
    } else {
        match (a, b) {
            (PathComponent::Normal(x), PathComponent::Normal(y)) => text_lt(x, y),
            _ => false,
        }
    }
}

/// Lexicographic order of component sequences.
pub open spec fn comps_lt(a: Seq<PathComponent>, b: Seq<PathComponent>) -> bool
    decreases a.len(),
{
    if b.len() == 0 {
        false
    } else if a.len() == 0 {
        true
    } else if a[0] != b[0] {
        comp_lt(a[0], b[0])
    } else {
        comps_lt(a.drop_first(), b.drop_first())
    }
}

/// Path `a` comes strictly before path `b`.
pub open spec fn path_lt(a: Seq<char>, b: Seq<char>) -> bool {
    comps_lt(path_components(a), path_components(b))
}

proof fn lemma_comp_lt(a: PathComponent, b: PathComponent, c: PathComponent)
    ensures
        comp_lt(a, b) && comp_lt(b, c) ==> comp_lt(a, c),
        a == b || comp_lt(a, b) || comp_lt(b, a),
        !(comp_lt(a, b) && comp_lt(b, a)),
{
    match (a, b) {
        (PathComponent::Normal(x), PathComponent::Normal(y)) => {
            lemma_text_lt_total(x, y);
            match c {
                PathComponent::Normal(z) => {
                    if text_lt(x, y) && text_lt(y, z) {
                        lemma_text_lt_trans(x, y, z);
                    }
                },
                _ => {},
            }
        },
        _ => {},
    }
}

/// The order of component sequences is transitive.
pub proof fn lemma_comps_lt_trans(a: Seq<PathComponent>, b: Seq<PathComponent>, c: Seq<PathComponent>)
    requires
        comps_lt(a, b),
        comps_lt(b, c),
    ensures
        comps_lt(a, c),
    decreases a.len(),
{
    if a.len() > 0 {
        lemma_comp_lt(a[0], b[0], c[0]);
        lemma_comp_lt(b[0], c[0], a[0]);
        lemma_comp_lt(a[0], c[0], b[0]);
        if a[0] == b[0] && b[0] == c[0] {
            lemma_comps_lt_trans(a.drop_first(), b.drop_first(), c.drop_first());
        }
    }
}

/// The order of component sequences is total and asymmetric.
pub proof fn lemma_comps_lt_total(a: Seq<PathComponent>, b: Seq<PathComponent>)
    ensures
        a == b || comps_lt(a, b) || comps_lt(b, a),
        !(comps_lt(a, b) && comps_lt(b, a)),
    decreases a.len(),
{
    if a.len() == 0 || b.len() == 0 {
        if a.len() == 0 && b.len() == 0 {
            assert(a =~= b);
        }
    } else if a[0] != b[0] {
        lemma_comp_lt(a[0], b[0], a[0]);
    } else {
        let (x, y) = (a.drop_first(), b.drop_first());
        lemma_comps_lt_total(x, y);
        if x == y {
            assert forall|i: int| 0 <= i < a.len() implies a[i] == b[i] by {
                if i > 0 {
                    assert(a[i] == x[i - 1]);
                    assert(b[i] == y[i - 1]);
                }
            }
            assert(a =~= b);
        }
    }
}

enum PathPart {
    RootDir,
    CurDir,
    ParentDir,
    Normal(String),
}

impl View for PathPart {
    type V = PathComponent;

    closed spec fn view(&self) -> PathComponent {
        match self {
            PathPart::RootDir => PathComponent::RootDir,
            PathPart::CurDir => PathComponent::CurDir,
            PathPart::ParentDir => PathComponent::ParentDir,
            PathPart::Normal(s) => PathComponent::Normal(s@),
        }
    }
}

spec fn parts_view(v: Seq<PathPart>) -> Seq<PathComponent> {
    v.map_values(|p: PathPart| p@)
}

fn part_rank(p: &PathPart) -> (res: u8)
    ensures
        res as int == comp_rank(p@),
{
    match p {
        PathPart::RootDir => 0,
        PathPart::CurDir => 1,
        PathPart::ParentDir => 2,
        PathPart::Normal(_) => 3,
    }
}

fn part_eq(a: &PathPart, b: &PathPart) -> (res: bool)
    ensures
        res == (a@ == b@),
{
    if part_rank(a) != part_rank(b) {
        return false;
    }
    match (a, b) {
        (PathPart::Normal(x), PathPart::Normal(y)) => str_eq(x.as_str(), y.as_str()),
        _ => true,
    }
}

fn part_less(a: &PathPart, b: &PathPart) -> (res: bool)
    ensures
        res == comp_lt(a@, b@),
{
    let (ra, rb) = (part_rank(a), part_rank(b));
    if ra != rb {
        return ra < rb;
    }
    match (a, b) {
        (PathPart::Normal(x), PathPart::Normal(y)) => text_less(x.as_str(), y.as_str()),
        _ => false,
    }
}

fn path_parts(s: &str) -> (res: Vec<PathPart>)
    ensures
        parts_view(res@) == path_components(s@),
{
    let cs = chars_of(s);
    let n = cs.len();
    let mut out: Vec<PathPart> = Vec::new();
    if n > 0 && cs[0] == '/' {
        out.push(PathPart::RootDir);
    } else if n > 0 && cs[0] == '.' && (n == 1 || cs[1] == '/') {
        out.push(PathPart::CurDir);
    }
    assert(parts_view(out@) =~= leading_components(s@));
    let pieces = split_text(s, '/');
    let ghost ps = views(pieces@);
    let m = pieces.len();
    let mut i: usize = 0;
    assert(ps.take(0) =~= Seq::<Seq<char>>::empty());
    assert(parts_view(out@) =~= leading_components(s@) + piece_components(ps.take(0)));
    while i < m
        invariant
            m == pieces@.len(),
            ps == views(pieces@),
            ps == split_on(s@, '/'),
            i <= m,
            parts_view(out@) == leading_components(s@) + piece_components(ps.take(i as int)),
        decreases m - i,
    {
        let x = pieces[i].as_str();
        let ghost t = ps.take(i + 1);
        assert(t.drop_last() =~= ps.take(i as int));
        assert(t.last() == x@);
        let ghost before = parts_view(out@);
        if x.is_empty() || str_eq(x, ".") {
        } else if str_eq(x, "..") {
            out.push(PathPart::ParentDir);
            assert(parts_view(out@) =~= before.push(PathComponent::ParentDir));
        } else {
            out.push(PathPart::Normal(pieces[i].clone()));
            assert(parts_view(out@) =~= before.push(PathComponent::Normal(x@)));
        }
        i = i + 1;
    }
    assert(ps.take(m as int) =~= ps);
    out
}

/// Whether path `a` comes strictly before path `b`, component by component.
pub fn path_less(a: &str, b: &str) -> (res: bool)
    ensures
        res == path_lt(a@, b@),
{
    let x = path_parts(a);
    let y = path_parts(b);
    let ghost xs0 = parts_view(x@);
    let ghost ys0 = parts_view(y@);
    let mut i: usize = 0;
    assert(xs0.skip(0) =~= xs0);
    assert(ys0.skip(0) =~= ys0);
    while i < x.len() && i < y.len()
        invariant
            xs0 == parts_view(x@),
            ys0 == parts_view(y@),
            xs0 == path_components(a@),
            ys0 == path_components(b@),
            i <= x@.len(),
            i <= y@.len(),
            path_lt(a@, b@) == comps_lt(xs0.skip(i as int), ys0.skip(i as int)),
        decreases x@.len() - i,
    {
        let ghost xs = xs0.skip(i as int);
        let ghost ys = ys0.skip(i as int);
        assert(xs[0] == x@[i as int]@);
        assert(ys[0] == y@[i as int]@);
        if !part_eq(&x[i], &y[i]) {
            return part_less(&x[i], &y[i]);
        }
        assert(xs.drop_first() =~= xs0.skip(i + 1));
        assert(ys.drop_first() =~= ys0.skip(i + 1));
        i = i + 1;
    }
    i < y.len()
}

} // verus!

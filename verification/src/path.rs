//! Lexical path handling for Unix-style paths held as text: splitting into components
//! (as `std::path::Path::components` does), lexical normalization, rendering back to
//! text (as successive `PathBuf::push` calls build it), joining, prefix tests, and the
//! file name and extension.

use vstd::prelude::*;
use crate::text::{split, split_char, push_all, eq_chars, slice_chars};

verus! {

/// One path component, as text.
#[derive(Debug)]
pub enum PathComp {
    /// The leading `/` of an absolute path.
    Root,
    /// A `..` component.
    Parent,
    /// Any other non-empty component other than `.`.
    Normal(Vec<char>),
}

/// The mathematical form of a [`PathComp`].
pub enum Comp {
    Root,
    Parent,
    Normal(Seq<char>),
}

impl View for PathComp {
    type V = Comp;

    open spec fn view(&self) -> Comp {
        match self {
            PathComp::Root => Comp::Root,
            PathComp::Parent => Comp::Parent,
            PathComp::Normal(n) => Comp::Normal(n@),
        }
    }
}

impl PathComp {
    /// An equal copy of this component.
    pub fn copy(&self) -> (r: PathComp)
        ensures
            r@ == self@,
    {
        match self {
            PathComp::Root => PathComp::Root,
            PathComp::Parent => PathComp::Parent,
            PathComp::Normal(n) => {
                let m = slice_chars(n, 0, n.len());
                assert(m@ =~= n@);
                PathComp::Normal(m)
            },
        }
    }
}

/// The views of a vector of components.
pub open spec fn comps_view(v: Seq<PathComp>) -> Seq<Comp> {
    v.map_values(|c: PathComp| c@)
}

/// The component a `/`-free piece of a path stands for: none for an empty piece (a
/// repeated or trailing separator) or `.`.
pub open spec fn piece_comp(piece: Seq<char>) -> Option<Comp> {
    if piece.len() == 0 || piece == seq!['.'] {
        None
    } else if piece == seq!['.', '.'] {
        Some(Comp::Parent)
    } else {
        Some(Comp::Normal(piece))
    }
}

/// The components of a list of pieces, in order.
pub open spec fn pieces_comps(pieces: Seq<Seq<char>>) -> Seq<Comp>
    decreases pieces.len(),
{
    if pieces.len() == 0 {
        Seq::empty()
    } else {
        let r = pieces_comps(pieces.drop_last());
        match piece_comp(pieces.last()) {
            Some(c) => r.push(c),
            None => r,
        }
    }
}

/// Whether a path is absolute (begins with `/`).
pub open spec fn is_absolute(p: Seq<char>) -> bool {
    p.len() > 0 && p[0] == '/'
}

/// The components of a path: `Root` first for an absolute path, then one component per
/// `/`-separated piece that is neither empty nor `.`. (std keeps a `.` that begins a
/// relative path as a component; no function here depends on it.)
pub open spec fn components(p: Seq<char>) -> Seq<Comp> {
    let rest = pieces_comps(split(p, '/'));
    if is_absolute(p) {
        seq![Comp::Root] + rest
    } else {
        rest
    }
}

/// Lexical normalization (`..` removes the last normal component, if any; nothing else
/// is dropped since `.` is not a component), processed left to right.
pub open spec fn normalize(cs: Seq<Comp>) -> Seq<Comp>
    decreases cs.len(),
{
    if cs.len() == 0 {
        Seq::empty()
    } else {
        let prev = normalize(cs.drop_last());
        match cs.last() {
            Comp::Parent => if prev.len() > 0 && prev.last() is Normal {
                prev.drop_last()
            } else {
                prev
            },
            c => prev.push(c),
        }
    }
}

/// The text of one component.
pub open spec fn comp_text(c: Comp) -> Seq<char> {
    match c {
        Comp::Root => seq!['/'],
        Comp::Parent => seq!['.', '.'],
        Comp::Normal(n) => n,
    }
}

/// `PathBuf::push` of a relative or absolute piece onto `cur` (Unix): an absolute piece
/// replaces; otherwise a `/` is inserted unless `cur` is empty or already ends in `/`.
pub open spec fn push_text(cur: Seq<char>, t: Seq<char>) -> Seq<char> {
    if is_absolute(t) || cur.len() == 0 {
        t
    } else if cur.last() == '/' {
        cur + t
    } else {
        cur + seq!['/'] + t
    }
}

/// The text a `PathBuf` holds after pushing each component in turn onto an empty one.
pub open spec fn render(cs: Seq<Comp>) -> Seq<char>
    decreases cs.len(),
{
    if cs.len() == 0 {
        Seq::empty()
    } else {
        push_text(render(cs.drop_last()), comp_text(cs.last()))
    }
}

/// Component-wise prefix test (`Path::starts_with`).
pub open spec fn comps_start_with(a: Seq<Comp>, b: Seq<Comp>) -> bool {
    b.len() <= a.len() && a.take(b.len() as int) == b
}

/// The final component of a path when it is a normal one (`Path::file_name`).
pub open spec fn file_name(p: Seq<char>) -> Option<Seq<char>> {
    let cs = components(p);
    if cs.len() > 0 && cs.last() is Normal {
        Some(cs.last()->Normal_0)
    } else {
        None
    }
}

/// Index of the last `.` in `n`, or -1.
pub open spec fn last_dot(n: Seq<char>) -> int
    decreases n.len(),
{
    if n.len() == 0 {
        -1
    } else if n.last() == '.' {
        n.len() - 1
    } else {
        last_dot(n.drop_last())
    }
}

/// The extension of a path (`Path::extension`): what follows the last `.` of the file
/// name, unless the name has no `.` or its only `.` leads it.
pub open spec fn extension(p: Seq<char>) -> Option<Seq<char>> {
    match file_name(p) {
        Some(n) => {
            let k = last_dot(n);
            if k <= 0 {
                None
            } else {
                Some(n.skip(k + 1))
            }
        },
        None => None,
    }
}

proof fn lemma_last_dot_bounds(n: Seq<char>)
    ensures
        -1 <= last_dot(n) < n.len(),
        last_dot(n) >= 0 ==> n[last_dot(n)] == '.',
        forall|j: int| last_dot(n) < j < n.len() ==> n[j] != '.',
    decreases n.len(),
{
    if n.len() > 0 && n.last() != '.' {
        lemma_last_dot_bounds(n.drop_last());
        assert forall|j: int| last_dot(n) < j < n.len() implies n[j] != '.' by {
            if j < n.len() - 1 {
                assert(n.drop_last()[j] == n[j]);
            }
        }
    }
}

proof fn lemma_pieces_comps_push(pieces: Seq<Seq<char>>, p: Seq<char>)
    ensures
        pieces_comps(pieces.push(p)) == (match piece_comp(p) {
            Some(c) => pieces_comps(pieces).push(c),
            None => pieces_comps(pieces),
        }),
{
    assert(pieces.push(p).drop_last() == pieces);
}

/// The component a piece stands for, in executable form.
fn piece_to_comp(piece: &Vec<char>) -> (r: Option<PathComp>)
    ensures
        match r {
            Some(c) => piece_comp(piece@) == Some(c@),
            None => piece_comp(piece@) is None,
        },
{
    if piece.len() == 0 || (piece.len() == 1 && piece[0] == '.') {
        proof {
            if piece.len() == 1 {
                assert(piece@ =~= seq!['.']);
            }
        }
        None
    } else if piece.len() == 2 && piece[0] == '.' && piece[1] == '.' {
        assert(piece@ =~= seq!['.', '.']);
        Some(PathComp::Parent)
    } else {
        proof {
            if piece@ == seq!['.'] {
                assert(piece@[0] == '.');
            }
            if piece@ == seq!['.', '.'] {
                assert(piece@[0] == '.' && piece@[1] == '.');
            }
        }
        let m = slice_chars(piece, 0, piece.len());
        assert(m@ =~= piece@);
        Some(PathComp::Normal(m))
    }
}

/// The components of the path `p`.
pub fn path_components(p: &[char]) -> (r: Vec<PathComp>)
    ensures
        comps_view(r@) == components(p@),
{
    let pieces = split_char(p, '/');
    let ghost sp = split(p@, '/');
    let mut r: Vec<PathComp> = Vec::new();
    let abs = p.len() > 0 && p[0] == '/';
    if abs {
        r.push(PathComp::Root);
    }
    let ghost head: Seq<Comp> = if abs { seq![Comp::Root] } else { Seq::empty() };
    assert(comps_view(r@) =~= head);
    let mut i: usize = 0;
    while i < pieces.len()
        invariant
            i <= pieces.len(),
            pieces@.len() == sp.len(),
            forall|j: int| 0 <= j < pieces@.len() ==> #[trigger] pieces@[j]@ == sp[j],
            comps_view(r@) == head + pieces_comps(sp.take(i as int)),
        decreases pieces.len() - i,
    {
        proof {
            assert(sp.take(i + 1) == sp.take(i as int).push(sp[i as int]));
            lemma_pieces_comps_push(sp.take(i as int), sp[i as int]);
        }
        let piece = &pieces[i];
        assert(piece@ == sp[i as int]);
        match piece_to_comp(piece) {
            Some(c) => {
                let ghost before = r@;
                r.push(c);
                assert(comps_view(r@) =~= comps_view(before).push(c@));
            },
            None => {},
        }
        i = i + 1;
    }
    assert(sp.take(sp.len() as int) == sp);
    r
}

/// Lexically normalizes components: each `..` removes the last normal component kept
/// so far (if any), other components are kept.
pub fn lexical_normalize(cs: &Vec<PathComp>) -> (r: Vec<PathComp>)
    ensures
        comps_view(r@) == normalize(comps_view(cs@)),
{
    let mut out: Vec<PathComp> = Vec::new();
    let mut i: usize = 0;
    while i < cs.len()
        invariant
            i <= cs.len(),
            comps_view(out@) == normalize(comps_view(cs@.take(i as int))),
        decreases cs.len() - i,
    {
        proof {
            assert(comps_view(cs@.take(i + 1)).drop_last() == comps_view(cs@.take(i as int)));
            assert(comps_view(cs@.take(i + 1)).last() == cs@[i as int]@);
        }
        match &cs[i] {
            PathComp::Parent => {
                let n = out.len();
                if n > 0 {
                    let is_normal = match &out[n - 1] {
                        PathComp::Normal(_) => true,
                        _ => false,
                    };
                    if is_normal {
                        let ghost before = out@;
                        out.pop();
                        assert(comps_view(out@) =~= comps_view(before).drop_last());
                    }
                }
            },
            c => {
                let ghost before = out@;
                let d = c.copy();
                out.push(d);
                assert(comps_view(out@) =~= comps_view(before).push(d@));
            },
        }
        i = i + 1;
    }
    assert(cs@.take(cs@.len() as int) == cs@);
    out
}

/// Whether two components are equal.
pub fn comp_eq(a: &PathComp, b: &PathComp) -> (r: bool)
    ensures
        r == (a@ == b@),
{
    match (a, b) {
        (PathComp::Root, PathComp::Root) => true,
        (PathComp::Parent, PathComp::Parent) => true,
        (PathComp::Normal(x), PathComp::Normal(y)) => eq_chars(x, y),
        _ => false,
    }
}

/// Component-wise prefix test: whether `a` begins with all of `b`.
pub fn starts_with_comps(a: &Vec<PathComp>, b: &Vec<PathComp>) -> (r: bool)
    ensures
        r == comps_start_with(comps_view(a@), comps_view(b@)),
{
    if b.len() > a.len() {
        return false;
    }
    let mut i: usize = 0;
    while i < b.len()
        invariant
            i <= b.len(),
            b.len() <= a.len(),
            forall|j: int| 0 <= j < i ==> a@[j]@ == b@[j]@,
        decreases b.len() - i,
    {
        if !comp_eq(&a[i], &b[i]) {
            assert(comps_view(a@).take(b@.len() as int)[i as int] == a@[i as int]@);
            assert(comps_view(a@).take(b@.len() as int) != comps_view(b@));
            return false;
        }
        i = i + 1;
    }
    assert(comps_view(a@).take(b@.len() as int) =~= comps_view(b@));
    true
}

/// Appends `t` to `cur` as `PathBuf::push` does.
pub fn push_path_text(cur: &mut Vec<char>, t: &[char])
    ensures
        final(cur)@ == push_text(old(cur)@, t@),
{
    if (t.len() > 0 && t[0] == '/') || cur.len() == 0 {
        cur.clear();
        push_all(cur, t);
        assert(cur@ =~= t@);
    } else if cur[cur.len() - 1] == '/' {
        push_all(cur, t);
    } else {
        cur.push('/');
        push_all(cur, t);
    }
}

/// The text of a component.
fn comp_chars(c: &PathComp) -> (r: Vec<char>)
    ensures
        r@ == comp_text(c@),
{
    match c {
        PathComp::Root => {
            let mut v: Vec<char> = Vec::new();
            v.push('/');
            assert(v@ =~= seq!['/']);
            v
        },
        PathComp::Parent => {
            let mut v: Vec<char> = Vec::new();
            v.push('.');
            v.push('.');
            assert(v@ =~= seq!['.', '.']);
            v
        },
        PathComp::Normal(n) => slice_chars(n, 0, n.len()),
    }
}

/// Renders components to path text, pushing each in turn onto an empty path.
pub fn render_comps(cs: &Vec<PathComp>) -> (r: Vec<char>)
    ensures
        r@ == render(comps_view(cs@)),
{
    let mut out: Vec<char> = Vec::new();
    let mut i: usize = 0;
    while i < cs.len()
        invariant
            i <= cs.len(),
            out@ == render(comps_view(cs@.take(i as int))),
        decreases cs.len() - i,
    {
        proof {
            assert(comps_view(cs@.take(i + 1)).drop_last() == comps_view(cs@.take(i as int)));
            assert(comps_view(cs@.take(i + 1)).last() == cs@[i as int]@);
        }
        let t = comp_chars(&cs[i]);
        push_path_text(&mut out, &t);
        i = i + 1;
    }
    assert(cs@.take(cs@.len() as int) == cs@);
    out
}

/// `base.join(child)` on path text (Unix `PathBuf::push` rules).
pub fn join_path(base: &str, child: &str) -> (r: String)
    ensures
        r@ == push_text(base@, child@),
{
    let mut b = crate::text::chars_of(base);
    let c = crate::text::chars_of(child);
    push_path_text(&mut b, &c);
    crate::text::string_of(&b)
}

/// The file name of a path (`Path::file_name`).
pub fn file_name_of(p: &[char]) -> (r: Option<Vec<char>>)
    ensures
        match r {
            Some(n) => file_name(p@) == Some(n@),
            None => file_name(p@) is None,
        },
{
    let cs = path_components(p);
    let n = cs.len();
    if n == 0 {
        return None;
    }
    assert(comps_view(cs@).last() == cs@[n - 1]@);
    match &cs[n - 1] {
        PathComp::Normal(name) => Some(slice_chars(name, 0, name.len())),
        _ => None,
    }
}

/// The extension of a path (`Path::extension`).
pub fn extension_of(p: &[char]) -> (r: Option<Vec<char>>)
    ensures
        match r {
            Some(e) => extension(p@) == Some(e@),
            None => extension(p@) is None,
        },
{
    match file_name_of(p) {
        None => None,
        Some(name) => {
            proof {
                lemma_last_dot_bounds(name@);
            }
            let mut k: usize = name.len();
            assert(name@.take(k as int) == name@);
            while k > 0 && name[k - 1] != '.'
                invariant
                    k <= name.len(),
                    last_dot(name@) == last_dot(name@.take(k as int)),
                decreases k,
            {
                assert(name@.take(k as int).drop_last() == name@.take(k - 1));
                k = k - 1;
            }
            if k == 0 {
                assert(name@.take(0) =~= Seq::<char>::empty());
                None
            } else {
                assert(last_dot(name@.take(k as int)) == k - 1);
                if k == 1 {
                    None
                } else {
                    Some(slice_chars(&name, k, name.len()))
                }
            }
        },
    }
}

/// The stem of a path's file name (`Path::file_stem`): the name before its last `.`,
/// or the whole name when it has no `.` or its only `.` leads it.
pub open spec fn file_stem(p: Seq<char>) -> Option<Seq<char>> {
    match file_name(p) {
        Some(n) => {
            let k = last_dot(n);
            if k <= 0 {
                Some(n)
            } else {
                Some(n.take(k))
            }
        },
        None => None,
    }
}

/// The stem of a path's file name (`Path::file_stem`).
pub fn file_stem_of(p: &[char]) -> (r: Option<Vec<char>>)
    ensures
        match r {
            Some(e) => file_stem(p@) == Some(e@),
            None => file_stem(p@) is None,
        },
{
    match file_name_of(p) {
        None => None,
        Some(name) => {
            proof {
                lemma_last_dot_bounds(name@);
            }
            let mut k: usize = name.len();
            assert(name@.take(k as int) == name@);
            while k > 0 && name[k - 1] != '.'
                invariant
                    k <= name.len(),
                    last_dot(name@) == last_dot(name@.take(k as int)),
                decreases k,
            {
                assert(name@.take(k as int).drop_last() == name@.take(k - 1));
                k = k - 1;
            }
            if k == 0 {
                assert(name@.take(0) =~= Seq::<char>::empty());
                Some(name)
            } else {
                assert(last_dot(name@.take(k as int)) == k - 1);
                if k == 1 {
                    Some(name)
                } else {
                    Some(slice_chars(&name, 0, k - 1))
                }
            }
        },
    }
}

} // verus!

verus! {

/// Appends copies of the components `w` to `v`.
pub fn append_comps(v: &mut Vec<PathComp>, w: &Vec<PathComp>)
    ensures
        comps_view(final(v)@) == comps_view(old(v)@) + comps_view(w@),
{
    let ghost start = comps_view(v@);
    let mut i: usize = 0;
    while i < w.len()
        invariant
            i <= w.len(),
            comps_view(v@) == start + comps_view(w@.take(i as int)),
        decreases w.len() - i,
    {
        let ghost before = v@;
        let c = w[i].copy();
        v.push(c);
        assert(comps_view(v@) =~= comps_view(before).push(c@));
        assert(comps_view(w@.take(i + 1)) =~= comps_view(w@.take(i as int)).push(w@[i as int]@));
        i = i + 1;
    }
    assert(w@.take(w@.len() as int) == w@);
}

} // verus!

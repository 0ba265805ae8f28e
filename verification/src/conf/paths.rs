//! The path sandbox: resolution of a path's pieces, containment in the local root, and
//! the mapping to the remote side.

use vstd::prelude::*;
use vstd::string::StringExecFns;
use vstd::string::StrSliceExecFns;
use super::PathsConf;

verus! {

/// Why a path was not admitted.
#[derive(Debug)]
pub enum PathError {
    /// The path leads out of the local root; carries where it leads.
    Outbound(String),
    /// The path could not be resolved; carries the path as it was given.
    Malformed(String),
}

/// The pieces of `path` between its `/` separators, empty pieces included.
/// A path without a separator is a single piece.
pub open spec fn segments(path: Seq<char>) -> Seq<Seq<char>>
    decreases path.len(),
{
    if path.len() == 0 {
        seq![Seq::empty()]
    } else {
        let before = segments(path.drop_last());
        if path.last() == '/' {
            before.push(Seq::empty())
        } else {
            before.drop_last().push(before.last().push(path.last()))
        }
    }
}

/// The text of each string of a list.
pub open spec fn texts(list: Seq<String>) -> Seq<Seq<char>> {
    Seq::new(list.len(), |i: int| list[i]@)
}

pub proof fn lemma_segments_nonempty(path: Seq<char>)
    ensures
        segments(path).len() >= 1,
    decreases path.len(),
{
    if path.len() > 0 {
        lemma_segments_nonempty(path.drop_last());
    }
}

/// Splits a path at its separators.
pub fn split_segments(path: &str) -> (pieces: Vec<String>)
    ensures
        texts(pieces@) == segments(path@),
{
    let n = path.unicode_len();
    let mut pieces: Vec<String> = Vec::new();
    let mut start: usize = 0;
    let mut i: usize = 0;
    proof {
        assert(path@.take(0) == Seq::<char>::empty());
        assert(path@.subrange(0, 0) == Seq::<char>::empty());
        assert(texts(pieces@).push(Seq::<char>::empty()) == seq![Seq::<char>::empty()]);
    }
    while i < n
        invariant
            n == path@.len(),
            start <= i <= n,
            texts(pieces@).push(path@.subrange(start as int, i as int)) == segments(
                path@.take(i as int),
            ),
        decreases n - i,
    {
        let c = path.get_char(i);
        proof {
            let upto = path@.take(i as int + 1);
            assert(upto.drop_last() == path@.take(i as int));
            assert(upto.last() == c);
            let before = segments(path@.take(i as int));
            assert(before.drop_last() == texts(pieces@));
            assert(before.last() == path@.subrange(start as int, i as int));
        }
        if c == '/' {
            let piece = String::from_str(path.substring_char(start, i));
            let ghost earlier = pieces@;
            pieces.push(piece);
            start = i + 1;
            proof {
                assert(texts(pieces@) == texts(earlier).push(piece@));
                assert(path@.subrange(start as int, i as int + 1) == Seq::<char>::empty());
            }
        } else {
            proof {
                assert(path@.subrange(start as int, i as int + 1) == path@.subrange(
                    start as int,
                    i as int,
                ).push(c));
            }
        }
        i += 1;
    }
    let piece = String::from_str(path.substring_char(start, n));
    let ghost earlier = pieces@;
    pieces.push(piece);
    proof {
        assert(path@.take(n as int) == path@);
        assert(texts(pieces@) == texts(earlier).push(piece@));
    }
    pieces
}

/// The components a list of pieces leaves on top of `base`: empty pieces and
/// `.` are passed over, `..` takes the last component away (at the top it
/// takes nothing), and every other piece is added.
pub open spec fn resolve(base: Seq<Seq<char>>, pieces: Seq<Seq<char>>) -> Seq<Seq<char>>
    decreases pieces.len(),
{
    if pieces.len() == 0 {
        base
    } else {
        let below = resolve(base, pieces.drop_last());
        let piece = pieces.last();
        if piece.len() == 0 || piece == seq!['.'] {
            below
        } else if piece == seq!['.', '.'] {
            if below.len() > 0 {
                below.drop_last()
            } else {
                below
            }
        } else {
            below.push(piece)
        }
    }
}

/// Whether one of the pieces is `..`.
pub open spec fn goes_up(pieces: Seq<Seq<char>>) -> bool {
    exists|i: int| 0 <= i < pieces.len() && #[trigger] pieces[i] == seq!['.', '.']
}

/// Whether a path starts at the root of the file system.
pub open spec fn is_absolute(path: Seq<char>) -> bool {
    path.len() > 0 && path[0] == '/'
}

/// The components of a path taken by itself.
pub open spec fn components(path: Seq<char>) -> Seq<Seq<char>> {
    resolve(Seq::empty(), segments(path))
}

/// Components written out with a separator between neighbours.
pub open spec fn relative_text(comps: Seq<Seq<char>>) -> Seq<char>
    decreases comps.len(),
{
    if comps.len() == 0 {
        Seq::empty()
    } else if comps.len() == 1 {
        comps[0]
    } else {
        relative_text(comps.drop_last()) + seq!['/'] + comps.last()
    }
}

/// Components written out as a path from the root; the root itself is `/`.
pub open spec fn absolute_text(comps: Seq<Seq<char>>) -> Seq<char> {
    seq!['/'] + relative_text(comps)
}

fn is_dot(piece: &String) -> (yes: bool)
    ensures
        yes == (piece@ == seq!['.']),
{
    let text = piece.as_str();
    let yes = text.unicode_len() == 1 && text.get_char(0) == '.';
    proof {
        if yes {
            assert(piece@ =~= seq!['.']);
        }
    }
    yes
}

fn is_dot_dot(piece: &String) -> (yes: bool)
    ensures
        yes == (piece@ == seq!['.', '.']),
{
    let text = piece.as_str();
    let yes = text.unicode_len() == 2 && text.get_char(0) == '.' && text.get_char(1) == '.';
    proof {
        if yes {
            assert(piece@ =~= seq!['.', '.']);
        }
    }
    yes
}

/// Whether one of the pieces is `..`.
pub fn has_parent_piece(pieces: &Vec<String>) -> (yes: bool)
    ensures
        yes == goes_up(texts(pieces@)),
{
    let mut i: usize = 0;
    while i < pieces.len()
        invariant
            i <= pieces.len(),
            forall|k: int| 0 <= k < i ==> (#[trigger] texts(pieces@)[k]) != seq!['.', '.'],
        decreases pieces.len() - i,
    {
        if is_dot_dot(&pieces[i]) {
            proof {
                assert(texts(pieces@)[i as int] == seq!['.', '.']);
            }
            return true;
        }
        i += 1;
    }
    false
}

/// Resolves `pieces` on top of `base`, one piece after the other.
pub fn resolve_onto(base: Vec<String>, pieces: &Vec<String>) -> (comps: Vec<String>)
    ensures
        texts(comps@) == resolve(texts(base@), texts(pieces@)),
{
    let mut comps = base;
    let mut i: usize = 0;
    proof {
        assert(texts(pieces@).take(0) == Seq::<Seq<char>>::empty());
    }
    while i < pieces.len()
        invariant
            i <= pieces.len(),
            texts(comps@) == resolve(texts(base@), texts(pieces@).take(i as int)),
        decreases pieces.len() - i,
    {
        let piece = &pieces[i];
        proof {
            let upto = texts(pieces@).take(i as int + 1);
            assert(upto.drop_last() == texts(pieces@).take(i as int));
            assert(upto.last() == piece@);
        }
        let ghost earlier = comps@;
        if piece.as_str().unicode_len() == 0 || is_dot(piece) {
        } else if is_dot_dot(piece) {
            if comps.len() > 0 {
                comps.pop();
                proof {
                    assert(texts(comps@) == texts(earlier).drop_last());
                }
            }
        } else {
            comps.push(piece.clone());
            proof {
                assert(texts(comps@) == texts(earlier).push(piece@));
            }
        }
        i += 1;
    }
    proof {
        assert(texts(pieces@).take(pieces.len() as int) == texts(pieces@));
    }
    comps
}

/// Whether every component of `base` is found, in order, at the front of `comps`.
pub fn begins_with(comps: &Vec<String>, base: &Vec<String>) -> (yes: bool)
    ensures
        yes == texts(base@).is_prefix_of(texts(comps@)),
{
    if base.len() > comps.len() {
        return false;
    }
    let mut i: usize = 0;
    while i < base.len()
        invariant
            i <= base.len() <= comps.len(),
            forall|k: int| 0 <= k < i ==> texts(base@)[k] == texts(comps@)[k],
        decreases base.len() - i,
    {
        if base[i] != comps[i] {
            proof {
                assert(texts(base@)[i as int] != texts(comps@)[i as int]);
            }
            return false;
        }
        i += 1;
    }
    proof {
        assert(texts(base@) =~= texts(comps@).subrange(0, base.len() as int));
    }
    true
}

/// Writes the components from `from` on with a separator between neighbours.
pub(crate) fn write_relative(comps: &Vec<String>, from: usize) -> (text: String)
    requires
        from <= comps.len(),
    ensures
        text@ == relative_text(texts(comps@).skip(from as int)),
{
    let mut text = String::new();
    let mut i: usize = from;
    let ghost tail = texts(comps@).skip(from as int);
    proof {
        assert(tail.take(0) == Seq::<Seq<char>>::empty());
    }
    while i < comps.len()
        invariant
            from <= i <= comps.len(),
            tail == texts(comps@).skip(from as int),
            text@ == relative_text(tail.take(i - from)),
        decreases comps.len() - i,
    {
        proof {
            let upto = tail.take(i - from + 1);
            assert(upto.drop_last() == tail.take(i - from));
            assert(upto.last() == comps@[i as int]@);
            reveal_strlit("/");
            assert("/"@ =~= seq!['/']);
            if i == from {
                assert(upto[0] == comps@[i as int]@);
            }
        }
        if i > from {
            text.append("/");
        }
        text.append(comps[i].as_str());
        proof {
            assert(text@ =~= relative_text(tail.take(i - from + 1)));
        }
        i += 1;
    }
    proof {
        assert(tail.take(comps.len() - from) == tail);
    }
    text
}

/// Writes the components as a path from the root.
pub fn write_absolute(comps: &Vec<String>) -> (text: String)
    ensures
        text@ == absolute_text(texts(comps@)),
{
    let rest = write_relative(comps, 0);
    let mut text = String::new();
    text.append("/");
    text.append(rest.as_str());
    proof {
        reveal_strlit("/");
        assert("/"@ =~= seq!['/']);
        assert(texts(comps@).skip(0) == texts(comps@));
        assert(text@ =~= absolute_text(texts(comps@)));
    }
    text
}

/// What a [`PathError`] stands for.
pub enum PathErrorView {
    Outbound(Seq<char>),
    Malformed(Seq<char>),
}

impl View for PathError {
    type V = PathErrorView;

    open spec fn view(&self) -> PathErrorView {
        match self {
            PathError::Outbound(leak) => PathErrorView::Outbound(leak@),
            PathError::Malformed(given) => PathErrorView::Malformed(given@),
        }
    }
}

impl PathErrorView {
    /// The error in words: what went wrong, then the path.
    pub open spec fn describe(self) -> Seq<char> {
        match self {
            PathErrorView::Outbound(leak) => "path leads out of the local root: "@ + leak,
            PathErrorView::Malformed(given) => "path cannot be resolved: "@ + given,
        }
    }
}

impl PathError {
    /// The error in words: what went wrong, then the path.
    pub fn describe(&self) -> (text: String)
        ensures
            text@ == self@.describe(),
    {
        match self {
            PathError::Outbound(leak) => {
                let mut text = String::from_str("path leads out of the local root: ");
                text.append(leak.as_str());
                text
            },
            PathError::Malformed(given) => {
                let mut text = String::from_str("path cannot be resolved: ");
                text.append(given.as_str());
                text
            },
        }
    }
}

/// The text of an answer that may be missing.
pub open spec fn text_of(answer: Option<&str>) -> Option<Seq<char>> {
    match answer {
        Some(text) => Some(text@),
        None => None,
    }
}

/// Whether a path operation returned what its model says.
pub open spec fn path_answer(
    found: Result<String, PathError>,
    model: Result<Seq<char>, PathErrorView>,
) -> bool {
    match (found, model) {
        (Ok(path), Ok(text)) => path@ == text,
        (Err(e), Err(view)) => e@ == view,
        _ => false,
    }
}

fn starts_at_root(path: &str) -> (yes: bool)
    ensures
        yes == is_absolute(path@),
{
    path.unicode_len() > 0 && path.get_char(0) == '/'
}

impl PathsConf {
    /// The components of the local root.
    pub open spec fn root(&self) -> Seq<Seq<char>> {
        components(self.local@)
    }

    /// Where a path leads when nothing but its text is considered: a path
    /// from the file system's root stands by itself, any other is taken from
    /// the local root.
    pub open spec fn located(&self, rel: Seq<char>) -> Seq<Seq<char>> {
        if is_absolute(rel) {
            components(rel)
        } else {
            resolve(self.root(), segments(rel))
        }
    }

    /// Whether the local root is usable as a root: given from the top of the
    /// file system, and written without a `..` piece. What a `..` in the
    /// root leads to depends on the links of the file system, so a root
    /// written with one names no place that text could be held against.
    pub open spec fn rooted_plainly(&self) -> bool {
        is_absolute(self.local@) && !goes_up(segments(self.local@))
    }

    /// Whether a location is the local root or below it. Nothing is inside a
    /// root that is not given from the top of the file system, or that is
    /// written with a `..` piece.
    pub open spec fn inside(&self, comps: Seq<Seq<char>>) -> bool {
        self.rooted_plainly() && self.root().is_prefix_of(comps)
    }

    /// The model of [`PathsConf::absolute`]. `resolved` is what the file
    /// system made of the path, symbolic links and `..` followed, or `None`
    /// where it could not resolve it. The resolved place alone decides: a
    /// path that cannot be resolved is malformed, a place from the top of the
    /// file system and inside the root is a success, any other place is
    /// outbound and reported as it was resolved.
    pub open spec fn spec_absolute(&self, rel: Seq<char>, resolved: Option<Seq<char>>) -> Result<
        Seq<char>,
        PathErrorView,
    > {
        match resolved {
            None => Err(PathErrorView::Malformed(rel)),
            Some(actual) => if is_absolute(actual) && self.inside(components(actual)) {
                Ok(absolute_text(components(actual)))
            } else {
                Err(PathErrorView::Outbound(actual))
            },
        }
    }

    /// The model of [`PathsConf::canonical`].
    pub open spec fn spec_canonical(&self, rel: Seq<char>, resolved: Option<Seq<char>>) -> Result<
        Seq<char>,
        PathErrorView,
    > {
        match self.spec_absolute(rel, resolved) {
            Ok(_) => Ok(relative_text(components(resolved->0).skip(self.root().len() as int))),
            Err(e) => Err(e),
        }
    }

    /// The model of [`PathsConf::to_remote`]: the remote prefix followed by
    /// what the path resolves to on its own.
    pub open spec fn spec_to_remote(&self, rel: Seq<char>) -> Seq<char> {
        let comps = components(self.remote@) + components(rel);
        if is_absolute(self.remote@) {
            absolute_text(comps)
        } else {
            relative_text(comps)
        }
    }

    fn root_components(&self) -> (comps: Vec<String>)
        ensures
            texts(comps@) == self.root(),
    {
        let pieces = split_segments(self.local.as_str());
        let comps = resolve_onto(Vec::new(), &pieces);
        proof {
            assert(texts(Seq::<String>::empty()) == Seq::<Seq<char>>::empty());
        }
        comps
    }

    fn own_components(path: &str) -> (comps: Vec<String>)
        ensures
            texts(comps@) == components(path@),
    {
        let pieces = split_segments(path);
        let comps = resolve_onto(Vec::new(), &pieces);
        proof {
            assert(texts(Seq::<String>::empty()) == Seq::<Seq<char>>::empty());
        }
        comps
    }

    /// Whether the local root is usable as a root.
    pub fn is_rooted_plainly(&self) -> (yes: bool)
        ensures
            yes == self.rooted_plainly(),
    {
        if !starts_at_root(self.local.as_str()) {
            return false;
        }
        let pieces = split_segments(self.local.as_str());
        !has_parent_piece(&pieces)
    }

    fn holds(&self, comps: &Vec<String>) -> (yes: bool)
        ensures
            yes == self.inside(texts(comps@)),
    {
        if !self.is_rooted_plainly() {
            return false;
        }
        let root = self.root_components();
        begins_with(comps, &root)
    }

    /// Where `rel` leads, going by its text alone. No file system is asked,
    /// so no symbolic link is followed: the answer is where to look the
    /// path up, not whether it is admitted.
    pub fn locate(&self, rel: &str) -> (comps: Vec<String>)
        ensures
            texts(comps@) == self.located(rel@),
    {
        if starts_at_root(rel) {
            Self::own_components(rel)
        } else {
            let pieces = split_segments(rel);
            resolve_onto(self.root_components(), &pieces)
        }
    }

    /// Requires the place that `rel` resolves to to lie inside the local
    /// root. `resolved` is that place as the file system gave it: `None` is
    /// `Malformed` with the path as it was given, a place outside the root is
    /// `Outbound` with that place, and a place inside is handed back.
    pub fn absolute(&self, rel: &str, resolved: Option<&str>) -> (found: Result<String, PathError>)
        ensures
            path_answer(found, self.spec_absolute(rel@, text_of(resolved))),
    {
        match resolved {
            None => Err(PathError::Malformed(String::from_str(rel))),
            Some(actual) => {
                let comps = Self::own_components(actual);
                if starts_at_root(actual) && self.holds(&comps) {
                    Ok(write_absolute(&comps))
                } else {
                    Err(PathError::Outbound(String::from_str(actual)))
                }
            },
        }
    }

    /// Whether `rel` lies inside the local root. A path that cannot be
    /// resolved is an error of its own, not an answer of "outside".
    pub fn is_canonical(&self, rel: &str, resolved: Option<&str>) -> (found: Result<
        bool,
        PathError,
    >)
        ensures
            match self.spec_absolute(rel@, text_of(resolved)) {
                Ok(_) => found == Ok::<bool, PathError>(true),
                Err(PathErrorView::Outbound(_)) => found == Ok::<bool, PathError>(false),
                Err(PathErrorView::Malformed(given)) => found is Err && found->Err_0@
                    == PathErrorView::Malformed(given),
            },
    {
        match self.absolute(rel, resolved) {
            Ok(_) => Ok(true),
            Err(PathError::Outbound(_)) => Ok(false),
            Err(PathError::Malformed(given)) => Err(PathError::Malformed(given)),
        }
    }

    /// Whether `path`, given from the top of the file system, is the local
    /// root or lies below it. Only the text of the path is looked at.
    pub fn contains(&self, path: &str) -> (yes: bool)
        ensures
            yes == (is_absolute(path@) && self.inside(components(path@))),
    {
        let comps = Self::own_components(path);
        starts_at_root(path) && self.holds(&comps)
    }

    /// What is left of a path inside the local root when the root is taken
    /// off its front; `None` for a path that is not inside.
    pub fn below_root(&self, path: &str) -> (rest: Option<String>)
        ensures
            rest is Some <==> is_absolute(path@) && self.inside(components(path@)),
            rest matches Some(text) ==> text@ == relative_text(
                components(path@).skip(self.root().len() as int),
            ),
    {
        let comps = Self::own_components(path);
        if starts_at_root(path) && self.holds(&comps) {
            let root = self.root_components();
            proof {
                assert(texts(root@).len() == root.len());
                assert(texts(comps@).len() == comps.len());
            }
            Some(write_relative(&comps, root.len()))
        } else {
            None
        }
    }

    /// [`PathsConf::absolute`] with the local root taken off the front.
    pub fn canonical(&self, rel: &str, resolved: Option<&str>) -> (found: Result<
        String,
        PathError,
    >)
        ensures
            path_answer(found, self.spec_canonical(rel@, text_of(resolved))),
    {
        match self.absolute(rel, resolved) {
            Err(e) => Err(e),
            Ok(_) => {
                let actual = resolved.unwrap();
                let comps = Self::own_components(actual);
                let root = self.root_components();
                Ok(write_relative(&comps, root.len()))
            },
        }
    }

    /// The remote counterpart of a path given relative to the local root.
    /// Always succeeds and asks no file system.
    pub fn to_remote(&self, rel: &str) -> (remote: String)
        ensures
            remote@ == self.spec_to_remote(rel@),
    {
        let mut comps = Self::own_components(self.remote.as_str());
        let tail = Self::own_components(rel);
        let ghost prefix = comps@;
        let mut i: usize = 0;
        while i < tail.len()
            invariant
                i <= tail.len(),
                texts(comps@) == texts(prefix) + texts(tail@).take(i as int),
            decreases tail.len() - i,
        {
            let ghost earlier = comps@;
            let next = tail[i].clone();
            comps.push(next);
            proof {
                assert(texts(comps@) == texts(earlier).push(next@));
                assert(texts(tail@).take(i as int + 1) == texts(tail@).take(i as int).push(next@));
                assert(texts(comps@) =~= texts(prefix) + texts(tail@).take(i as int + 1));
            }
            i += 1;
        }
        proof {
            assert(texts(tail@).take(tail.len() as int) == texts(tail@));
        }
        if starts_at_root(self.remote.as_str()) {
            write_absolute(&comps)
        } else {
            let text = write_relative(&comps, 0);
            proof {
                assert(texts(comps@).skip(0) == texts(comps@));
            }
            text
        }
    }
}

/// A component that names something: not empty, not `.`, not `..`.
pub open spec fn names_something(comp: Seq<char>) -> bool {
    comp.len() > 0 && comp != seq!['.'] && comp != seq!['.', '.']
}

/// A piece of text without a separator in it.
pub open spec fn unbroken(piece: Seq<char>) -> bool {
    forall|j: int| 0 <= j < piece.len() ==> piece[j] != '/'
}

/// A list of components that all name something and hold no separator:
/// what is left of a path when nothing in it remains to be resolved.
pub open spec fn settled(comps: Seq<Seq<char>>) -> bool {
    forall|i: int|
        0 <= i < comps.len() ==> names_something(#[trigger] comps[i]) && unbroken(comps[i])
}

/// No piece of a path holds a separator.
pub proof fn lemma_segments_are_unbroken(path: Seq<char>)
    ensures
        forall|i: int| 0 <= i < segments(path).len() ==> unbroken(#[trigger] segments(path)[i]),
    decreases path.len(),
{
    if path.len() > 0 {
        lemma_segments_are_unbroken(path.drop_last());
        lemma_segments_nonempty(path.drop_last());
        let before = segments(path.drop_last());
        let after = segments(path);
        assert forall|i: int| 0 <= i < after.len() implies unbroken(#[trigger] after[i]) by {
            if i < before.len() - 1 {
                assert(after[i] == before[i]);
            } else if path.last() != '/' {
                assert(unbroken(before.last()));
            }
        }
    }
}

/// Resolution leaves nothing to resolve: on a settled base, whatever the
/// pieces are, the result is settled. No `..` survives that could lead back
/// out of a directory the result lies in.
pub proof fn lemma_resolve_settles(base: Seq<Seq<char>>, pieces: Seq<Seq<char>>)
    requires
        settled(base),
        forall|i: int| 0 <= i < pieces.len() ==> unbroken(#[trigger] pieces[i]),
    ensures
        settled(resolve(base, pieces)),
    decreases pieces.len(),
{
    if pieces.len() > 0 {
        lemma_resolve_settles(base, pieces.drop_last());
        let below = resolve(base, pieces.drop_last());
        let above = resolve(base, pieces);
        assert forall|i: int| 0 <= i < above.len() implies names_something(#[trigger] above[i])
            && unbroken(above[i]) by {
            if i < below.len() {
                assert(names_something(below[i]) && unbroken(below[i]));
            } else {
                assert(unbroken(pieces[pieces.len() - 1]));
            }
        }
    }
}

/// The components of any path are settled.
pub proof fn lemma_components_are_settled(path: Seq<char>)
    ensures
        settled(components(path)),
{
    lemma_segments_are_unbroken(path);
    lemma_resolve_settles(Seq::empty(), segments(path));
}

proof fn lemma_segments_of_extension(path: Seq<char>, piece: Seq<char>)
    requires
        unbroken(piece),
    ensures
        segments(path + piece) == segments(path).drop_last().push(segments(path).last() + piece),
    decreases piece.len(),
{
    lemma_segments_nonempty(path);
    let pieces = segments(path);
    if piece.len() == 0 {
        assert(path + piece =~= path);
        assert(pieces.last() + piece =~= pieces.last());
        assert(pieces.drop_last().push(pieces.last()) =~= pieces);
    } else {
        let front = piece.drop_last();
        lemma_segments_of_extension(path, front);
        assert((path + piece).drop_last() =~= path + front);
        assert((path + piece).last() == piece.last());
        let before = segments(path + front);
        assert(before.drop_last() =~= pieces.drop_last());
        assert(before.last().push(piece.last()) =~= pieces.last() + piece);
    }
}

proof fn lemma_segments_of_relative_text(comps: Seq<Seq<char>>)
    requires
        settled(comps),
        comps.len() > 0,
    ensures
        segments(relative_text(comps)) == comps,
    decreases comps.len(),
{
    let nothing = Seq::<char>::empty();
    if comps.len() == 1 {
        lemma_segments_of_extension(nothing, comps[0]);
        assert(nothing + comps[0] =~= comps[0]);
        assert(segments(nothing) =~= seq![nothing]);
        assert(seq![nothing].drop_last().push(nothing + comps[0]) =~= comps);
    } else {
        let front = comps.drop_last();
        lemma_segments_of_relative_text(front);
        let stem = relative_text(front) + seq!['/'];
        assert(stem.drop_last() =~= relative_text(front));
        assert(segments(stem) == front.push(nothing));
        lemma_segments_of_extension(stem, comps.last());
        assert(front.push(nothing).drop_last().push(nothing + comps.last()) =~= comps);
    }
}

proof fn lemma_segments_of_absolute_text(comps: Seq<Seq<char>>)
    requires
        settled(comps),
    ensures
        segments(absolute_text(comps)) == if comps.len() == 0 {
            seq![Seq::<char>::empty(), Seq::<char>::empty()]
        } else {
            seq![Seq::<char>::empty()] + comps
        },
    decreases comps.len(),
{
    let nothing = Seq::<char>::empty();
    let top = seq!['/'];
    assert(top.drop_last() =~= nothing);
    assert(segments(nothing) =~= seq![nothing]);
    assert(segments(top) =~= seq![nothing, nothing]);
    if comps.len() == 0 {
        assert(absolute_text(comps) =~= top);
    } else if comps.len() == 1 {
        lemma_segments_of_extension(top, comps[0]);
        assert(seq![nothing, nothing].drop_last().push(nothing + comps[0]) =~= seq![nothing]
            + comps);
    } else {
        let front = comps.drop_last();
        lemma_segments_of_absolute_text(front);
        let stem = absolute_text(front) + seq!['/'];
        assert(stem.drop_last() =~= absolute_text(front));
        assert(segments(stem) == (seq![nothing] + front).push(nothing));
        lemma_segments_of_extension(stem, comps.last());
        assert(absolute_text(comps) =~= stem + comps.last());
        assert((seq![nothing] + front).push(nothing).drop_last().push(nothing + comps.last())
            =~= seq![nothing] + comps);
    }
}

proof fn lemma_resolve_of_settled(base: Seq<Seq<char>>, comps: Seq<Seq<char>>)
    requires
        settled(comps),
    ensures
        resolve(base, comps) == base + comps,
        resolve(base, seq![Seq::<char>::empty()] + comps) == base + comps,
    decreases comps.len(),
{
    let lead = seq![Seq::<char>::empty()];
    if comps.len() == 0 {
        assert(base + comps =~= base);
        assert(lead + comps =~= lead);
        assert(lead.drop_last() =~= Seq::<Seq<char>>::empty());
        assert(resolve(base, lead.drop_last()) == base);
        assert(lead.last().len() == 0);
        assert(resolve(base, lead) == base);
    } else {
        lemma_resolve_of_settled(base, comps.drop_last());
        assert(names_something(comps[comps.len() - 1]));
        assert((lead + comps).drop_last() =~= lead + comps.drop_last());
        assert((lead + comps).last() == comps.last());
        assert((base + comps.drop_last()).push(comps.last()) =~= base + comps);
        assert(resolve(base, lead + comps) == resolve(base, (lead + comps).drop_last()).push(
            comps.last(),
        ));
    }
}

/// Text and components agree: a settled list of components, written out
/// as a path, reads back as the same list.
pub proof fn lemma_text_reads_back(comps: Seq<Seq<char>>)
    requires
        settled(comps),
    ensures
        is_absolute(absolute_text(comps)),
        components(absolute_text(comps)) == comps,
        !is_absolute(relative_text(comps)),
        components(relative_text(comps)) == comps,
{
    let nothing = Seq::<char>::empty();
    let none = Seq::<Seq<char>>::empty();
    lemma_segments_of_absolute_text(comps);
    lemma_resolve_of_settled(none, comps);
    assert(none + comps =~= comps);
    if comps.len() == 0 {
        let two = seq![nothing, nothing];
        assert(two.drop_last() =~= seq![nothing]);
        assert(seq![nothing].drop_last() =~= none);
        assert(resolve(none, seq![nothing]) == none);
        assert(resolve(none, two) == none);
        assert(segments(nothing) =~= seq![nothing]);
    } else {
        lemma_segments_of_relative_text(comps);
        lemma_relative_text_begins_with_a_name(comps);
    }
}

proof fn lemma_relative_text_begins_with_a_name(comps: Seq<Seq<char>>)
    requires
        settled(comps),
        comps.len() > 0,
    ensures
        relative_text(comps).len() > 0,
        relative_text(comps)[0] == comps[0][0],
        comps[0][0] != '/',
    decreases comps.len(),
{
    assert(names_something(comps[0]) && unbroken(comps[0]));
    if comps.len() > 1 {
        lemma_relative_text_begins_with_a_name(comps.drop_last());
    }
}

/// Sandbox containment: a path that resolves outside the local root is
/// `Outbound` with the place it resolves to, never a success, whether it got
/// there by `..` pieces or through a symbolic link. A path is `Malformed`
/// exactly when it cannot be resolved. A success names a place inside the
/// root.
pub proof fn lemma_outside_is_outbound(
    paths: PathsConf,
    rel: Seq<char>,
    resolved: Option<Seq<char>>,
)
    ensures
        (resolved matches Some(actual) && !(is_absolute(actual) && paths.inside(
            components(actual),
        ))) ==> paths.spec_absolute(rel, resolved) == Err::<Seq<char>, PathErrorView>(
            PathErrorView::Outbound(resolved->0),
        ),
        paths.spec_absolute(rel, resolved) matches Ok(place) ==> {
            resolved matches Some(actual) && is_absolute(actual) && paths.inside(
                components(actual),
            ) && place == absolute_text(components(actual))
        },
        resolved is None <==> paths.spec_absolute(rel, resolved) == Err::<
            Seq<char>,
            PathErrorView,
        >(PathErrorView::Malformed(rel)),
        paths.spec_absolute(rel, resolved) matches Err(PathErrorView::Malformed(_))
            ==> resolved is None,
{
}

/// A root that is not usable admits nothing: where the local root is not
/// given from the top of the file system, or is written with a `..` piece,
/// no path is a success, whatever it resolves to. A path that resolves is
/// `Outbound`, one that does not is `Malformed`.
pub proof fn lemma_unusable_root_admits_nothing(
    paths: PathsConf,
    rel: Seq<char>,
    resolved: Option<Seq<char>>,
)
    requires
        !is_absolute(paths.local@) || goes_up(segments(paths.local@)),
    ensures
        paths.spec_absolute(rel, resolved) is Err,
        paths.spec_canonical(rel, resolved) is Err,
        resolved matches Some(actual) ==> paths.spec_absolute(rel, resolved) == Err::<
            Seq<char>,
            PathErrorView,
        >(PathErrorView::Outbound(actual)),
        forall|comps: Seq<Seq<char>>| !paths.inside(comps),
{
}

/// A success is a place inside: the text that [`PathsConf::absolute`]
/// hands back, read as a path again, starts at the top of the file system
/// and lies inside the local root.
pub proof fn lemma_admitted_place_is_inside(
    paths: PathsConf,
    rel: Seq<char>,
    resolved: Option<Seq<char>>,
)
    requires
        paths.spec_absolute(rel, resolved) is Ok,
    ensures
        is_absolute(paths.spec_absolute(rel, resolved)->Ok_0),
        paths.inside(components(paths.spec_absolute(rel, resolved)->Ok_0)),
        paths.spec_canonical(rel, resolved) is Ok,
        paths.root() + components(paths.spec_canonical(rel, resolved)->Ok_0) == components(
            paths.spec_absolute(rel, resolved)->Ok_0,
        ),
{
    let actual = resolved->0;
    let comps = components(actual);
    let root = paths.root();
    lemma_components_are_settled(actual);
    lemma_text_reads_back(comps);
    let rest = comps.skip(root.len() as int);
    assert(settled(rest)) by {
        assert forall|i: int| 0 <= i < rest.len() implies names_something(#[trigger] rest[i])
            && unbroken(rest[i]) by {
            assert(rest[i] == comps[i + root.len()]);
        }
    }
    lemma_text_reads_back(rest);
    assert(root + rest =~= comps);
}

/// The remote side is a sandbox too: the remote counterpart of any path,
/// read as a path again, lies under the remote prefix, whatever `..` pieces
/// the path holds, and keeps what the path resolves to by itself.
pub proof fn lemma_remote_keeps_prefix(paths: PathsConf, rel: Seq<char>)
    ensures
        components(paths.spec_to_remote(rel)) == components(paths.remote@) + components(rel),
        components(paths.remote@).is_prefix_of(components(paths.spec_to_remote(rel))),
        is_absolute(paths.spec_to_remote(rel)) == is_absolute(paths.remote@),
{
    let prefix = components(paths.remote@);
    let tail = components(rel);
    lemma_components_are_settled(paths.remote@);
    lemma_components_are_settled(rel);
    let all = prefix + tail;
    assert(settled(all)) by {
        assert forall|i: int| 0 <= i < all.len() implies names_something(#[trigger] all[i])
            && unbroken(all[i]) by {
            if i < prefix.len() {
                assert(all[i] == prefix[i]);
            } else {
                assert(all[i] == tail[i - prefix.len()]);
            }
        }
    }
    lemma_text_reads_back(all);
    assert(all.subrange(0, prefix.len() as int) =~= prefix);
}

} // verus!

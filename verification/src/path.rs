//! Paths as lists of names, with the text that writes them.
//!
//! A name that is text is kept as text; a name that is not valid UTF-8 is kept
//! as its bytes. Two paths with the same names are the same path, however they are written.

use vstd::prelude::*;
use vstd::string::*;
use vstd::utf8::*;

use crate::path_laws::{
    byte_pieces_have_no_slash, bytes_are_written, join_is_written, nothing_is_written,
    parent_is_written, replaced_is_no_dot, rest_is_written, text_is_written,
};
use crate::table::{
    selected, selected_contains, selected_distinct, Entries, Table, TableKey,
};
use crate::text::{
    chars_of, find_last, join_pieces, last_match, same_text, slice_chars, split, split_chars,
    text_of, views, with_slashes,
};

verus! {

/// What `String::from_utf8_lossy` makes of bytes.
pub uninterp spec fn lossy_text(bytes: Seq<u8>) -> Seq<char>;

/// `String::from_utf8_lossy`: the text of the bytes, with a replacement character for each
/// part that is not valid UTF-8. A slash in it comes from a slash among the bytes.
#[verifier::external_body]
fn from_utf8_lossy(bytes: &Vec<u8>) -> (res: String)
    ensures
        res@ == lossy_text(bytes@),
        valid_utf8(bytes@) ==> res@ == decode_utf8(bytes@),
        !valid_utf8(bytes@) ==> res@.contains('\u{FFFD}'),
        !bytes@.contains(47u8) ==> !res@.contains('/'),
{
    String::from_utf8_lossy(bytes).into_owned()
}

/// `String::from_utf8`: the text that the bytes encode, or nothing where they are not valid
/// UTF-8.
#[verifier::external_body]
pub(crate) fn from_utf8(bytes: Vec<u8>) -> (res: Option<String>)
    ensures
        match res {
            Some(text) => valid_utf8(bytes@) && text@ == decode_utf8(bytes@),
            None => !valid_utf8(bytes@),
        },
{
    String::from_utf8(bytes).ok()
}

/// One name of a path.
#[derive(Debug)]
pub enum PathName {
    /// A name that is text.
    Text(String),
    /// A name that is not valid UTF-8.
    Raw(Vec<u8>),
}

/// What a [`PathName`] stands for.
#[verifier::ext_equal]
pub enum NameView {
    Text(Seq<char>),
    Raw(Seq<u8>),
}

impl View for PathName {
    type V = NameView;

    open spec fn view(&self) -> NameView {
        match self {
            PathName::Text(t) => NameView::Text(t@),
            PathName::Raw(b) => NameView::Raw(b@),
        }
    }
}

/// Whether two byte vectors are equal.
pub fn same_bytes(a: &Vec<u8>, b: &Vec<u8>) -> (res: bool)
    ensures
        res == (a@ == b@),
{
    if a.len() != b.len() {
        return false;
    }
    let mut i: usize = 0;
    while i < a.len()
        invariant
            i <= a.len() == b.len(),
            a@.take(i as int) == b@.take(i as int),
        decreases a.len() - i,
    {
        assert(a@.take(i + 1) =~= a@.take(i as int).push(a@[i as int]));
        assert(b@.take(i + 1) =~= b@.take(i as int).push(b@[i as int]));
        if a[i] != b[i] {
            return false;
        }
        i += 1;
    }
    assert(a@.take(a@.len() as int) =~= a@);
    assert(b@.take(b@.len() as int) =~= b@);
    true
}

/// A copy of a byte vector.
pub fn copy_bytes(a: &Vec<u8>) -> (res: Vec<u8>)
    ensures
        res@ == a@,
{
    let mut res: Vec<u8> = Vec::new();
    let mut i: usize = 0;
    while i < a.len()
        invariant
            i <= a.len(),
            res@ == a@.take(i as int),
        decreases a.len() - i,
    {
        assert(a@.take(i + 1) =~= a@.take(i as int).push(a@[i as int]));
        res.push(a[i]);
        i += 1;
    }
    assert(a@.take(a@.len() as int) =~= a@);
    res
}

impl PathName {
    /// A copy.
    pub fn duplicate(&self) -> (res: PathName)
        ensures
            res@ == self@,
    {
        match self {
            PathName::Text(t) => PathName::Text(t.clone()),
            PathName::Raw(b) => PathName::Raw(copy_bytes(b)),
        }
    }

    /// Whether two names are the same.
    pub fn same(&self, other: &PathName) -> (res: bool)
        ensures
            res == (self@ == other@),
    {
        match (self, other) {
            (PathName::Text(a), PathName::Text(b)) => same_text(a.as_str(), b.as_str()),
            (PathName::Raw(a), PathName::Raw(b)) => same_bytes(a, b),
            _ => false,
        }
    }

    /// The name as text, with replacement characters where it is not text.
    pub fn lossy(&self) -> (res: String)
        ensures
            res@ == shown(self@),
    {
        match self {
            PathName::Text(t) => t.clone(),
            PathName::Raw(b) => from_utf8_lossy(b),
        }
    }
}

/// A name as it is shown.
pub open spec fn shown(name: NameView) -> Seq<char> {
    match name {
        NameView::Text(t) => t,
        NameView::Raw(b) => lossy_text(b),
    }
}

/// The text of a name, where it is text.
pub open spec fn name_text(name: NameView) -> Option<Seq<char>> {
    match name {
        NameView::Text(t) => Some(t),
        NameView::Raw(_) => None,
    }
}

/// A path: a list of names, from the root if it is absolute, and the text that writes it. More
/// than one text can write the same path: repeated slashes, a slash at the end and most names `.`
/// say nothing.
#[derive(Debug)]
pub struct SyncPath {
    absolute: bool,
    names: Vec<PathName>,
    /// The path as it was written, with replacement characters where a name is not text.
    text: String,
}

/// What names stand for.
pub open spec fn name_views(names: Seq<PathName>) -> Seq<NameView> {
    names.map_values(|n: PathName| n@)
}

/// Names as they are shown.
pub open spec fn shown_names(names: Seq<NameView>) -> Seq<NameView> {
    names.map_values(|n: NameView| NameView::Text(shown(n)))
}

/// What a [`SyncPath`] stands for: its names, and how they are written.
#[verifier::ext_equal]
pub struct PathView {
    pub absolute: bool,
    pub names: Seq<NameView>,
    pub text: Seq<char>,
}

/// That by which paths are the same: their names, however they are written.
#[verifier::ext_equal]
pub struct PathKey {
    pub absolute: bool,
    pub names: Seq<NameView>,
}

impl PathView {
    /// The text writes the names, as they are shown.
    pub open spec fn wf(self) -> bool {
        &&& parse(self.text).absolute == self.absolute
        &&& parse(self.text).names == shown_names(self.names)
        &&& forall|i: int|
            0 <= i < self.names.len() && (#[trigger] self.names[i]) is Raw ==> shown(self.names[i])
                != "."@
    }

    /// That by which the path is the same as another.
    pub open spec fn key(self) -> PathKey {
        PathKey { absolute: self.absolute, names: self.names }
    }
}

/// Two paths have the same names, however they are written.
pub open spec fn same_path(a: PathView, b: PathView) -> bool {
    a.key() == b.key()
}

impl View for SyncPath {
    type V = PathView;

    closed spec fn view(&self) -> PathView {
        PathView {
            absolute: self.absolute,
            names: name_views(self.names@),
            text: self.text@,
        }
    }
}

/// That by which paths are told apart.
pub open spec fn view_keys(paths: Seq<PathView>) -> Seq<PathKey> {
    paths.map_values(|p: PathView| p.key())
}

/// A name that is neither `.` nor `..`.
pub open spec fn is_normal(name: NameView) -> bool {
    name != NameView::Text("."@) && name != NameView::Text(".."@)
}

/// The last name of a path, unless it is `.` or `..`.
pub open spec fn file_name(path: PathView) -> Option<NameView> {
    if path.names.len() > 0 && is_normal(path.names.last()) {
        Some(path.names.last())
    } else {
        None
    }
}

/// The last name of a path where it is text, and neither `.` nor `..`.
pub open spec fn file_name_text(path: PathView) -> Option<Seq<char>> {
    match file_name(path) {
        Some(name) => name_text(name),
        None => None,
    }
}

/// The path without its last name.
pub open spec fn parent(path: PathView) -> Option<PathView> {
    if path.names.len() > 0 {
        Some(
            PathView {
                absolute: path.absolute,
                names: path.names.drop_last(),
                text: parent_text(path),
            },
        )
    } else {
        None
    }
}

/// `other`, taken from `path` where it is relative.
pub open spec fn join(path: PathView, other: PathView) -> PathView {
    if other.absolute {
        PathView { text: joined(path.text, other.text), ..other }
    } else {
        let redundant = other.names.len() > 0 && other.names[0] == NameView::Text("."@) && (
        path.absolute || path.names.len() > 0);
        PathView {
            absolute: path.absolute,
            names: path.names + if redundant {
                other.names.drop_first()
            } else {
                other.names
            },
            text: joined(path.text, other.text),
        }
    }
}

/// The path that has one name.
pub open spec fn single(name: NameView) -> PathView {
    PathView { absolute: false, names: seq![name], text: shown(name) }
}

/// `path` begins with the names of `base`.
pub open spec fn starts_with(path: PathView, base: PathView) -> bool {
    &&& base.names.is_prefix_of(path.names)
    &&& base.absolute == path.absolute || (!base.absolute && base.names.len() == 0)
}

/// What follows `base` in `path`.
pub open spec fn strip_prefix(path: PathView, base: PathView) -> Option<PathView> {
    if starts_with(path, base) {
        Some(
            PathView {
                absolute: path.absolute && !base.absolute,
                names: path.names.skip(base.names.len() as int),
                text: rest_text(path, base),
            },
        )
    } else {
        None
    }
}

/// The names among the pieces of a text: empty pieces and a `.` that is not the start of a
/// relative path say nothing.
pub open spec fn kept_names(absolute: bool, pieces: Seq<Seq<char>>) -> Seq<NameView>
    decreases pieces.len(),
{
    if pieces.len() == 0 {
        Seq::empty()
    } else {
        let front = kept_names(absolute, pieces.drop_last());
        let piece = pieces.last();
        if piece.len() == 0 || (piece == "."@ && (absolute || pieces.len() > 1)) {
            front
        } else {
            front.push(NameView::Text(piece))
        }
    }
}

/// The path that a text writes.
pub open spec fn parse(text: Seq<char>) -> PathView {
    let absolute = text.len() > 0 && text[0] == '/';
    PathView { absolute, names: kept_names(absolute, split(text, '/')), text }
}

/// The pieces of bytes between slashes.
pub open spec fn byte_pieces(bytes: Seq<u8>) -> Seq<Seq<u8>>
    decreases bytes.len(),
{
    if bytes.len() == 0 {
        seq![Seq::empty()]
    } else {
        let front = byte_pieces(bytes.drop_last());
        if bytes.last() == 47 {
            front.push(Seq::empty())
        } else {
            front.update(front.len() - 1, front.last().push(bytes.last()))
        }
    }
}

/// The name that bytes write: text where they are valid UTF-8.
pub open spec fn byte_name(bytes: Seq<u8>) -> NameView {
    if valid_utf8(bytes) {
        NameView::Text(decode_utf8(bytes))
    } else {
        NameView::Raw(bytes)
    }
}

/// The names among the pieces of bytes: pieces that show nothing and a `.` that is not the start
/// of a relative path say nothing.
pub open spec fn kept_byte_names(absolute: bool, pieces: Seq<Seq<u8>>) -> Seq<NameView>
    decreases pieces.len(),
{
    if pieces.len() == 0 {
        Seq::empty()
    } else {
        let front = kept_byte_names(absolute, pieces.drop_last());
        let piece = lossy_text(pieces.last());
        if piece.len() == 0 || (piece == "."@ && (absolute || pieces.len() > 1)) {
            front
        } else {
            front.push(byte_name(pieces.last()))
        }
    }
}

/// What is known of how a piece without a slash is shown: without one, as the text that it is, and
/// with more than a `.` where it is none.
pub open spec fn is_shown(piece: Seq<u8>) -> bool {
    &&& !lossy_text(piece).contains('/')
    &&& shown(byte_name(piece)) == lossy_text(piece)
    &&& byte_name(piece) is Raw ==> lossy_text(piece) != "."@
}

/// The pieces of bytes as they are shown.
pub open spec fn shown_pieces(pieces: Seq<Seq<u8>>) -> Seq<Seq<char>> {
    pieces.map_values(|p: Seq<u8>| lossy_text(p))
}

/// The path that bytes write. Where they are no text, each piece between slashes that is none is
/// shown with replacement characters.
pub open spec fn parse_bytes(bytes: Seq<u8>) -> PathView {
    if valid_utf8(bytes) {
        parse(decode_utf8(bytes))
    } else {
        let text = with_slashes(shown_pieces(byte_pieces(bytes)));
        let absolute = text.len() > 0 && text[0] == '/';
        PathView { absolute, names: kept_byte_names(absolute, byte_pieces(bytes)), text }
    }
}

/// A piece of a written path says nothing: it is empty, or a `.` that is not the start of a
/// relative path.
pub open spec fn is_filler(absolute: bool, pieces: Seq<Seq<char>>, i: int) -> bool {
    pieces[i].len() == 0 || (pieces[i] == "."@ && (absolute || i > 0))
}

/// The position of the piece that is name number `k` of those from position `from` on, and the
/// number of pieces where there are fewer names.
pub open spec fn name_place(absolute: bool, pieces: Seq<Seq<char>>, k: int, from: int) -> int
    decreases pieces.len() - from,
{
    if from >= pieces.len() {
        pieces.len() as int
    } else if is_filler(absolute, pieces, from) {
        name_place(absolute, pieces, k, from + 1)
    } else if k <= 0 {
        from
    } else {
        name_place(absolute, pieces, k - 1, from + 1)
    }
}

/// The part of a written path that holds the names from number `from` up to number `to`, with
/// what stands between them. `lead` keeps what stands before the first name too.
pub open spec fn part(text: Seq<char>, lead: bool, from: int, to: int) -> Seq<char> {
    let absolute = text.len() > 0 && text[0] == '/';
    if from < to {
        let pieces = split(text, '/');
        let start = if lead {
            0
        } else {
            name_place(absolute, pieces, from, 0)
        };
        let last = name_place(absolute, pieces, to - 1, 0);
        let end = if last < pieces.len() {
            last + 1
        } else {
            pieces.len() as int
        };
        if start <= end {
            with_slashes(pieces.subrange(start, end))
        } else {
            Seq::empty()
        }
    } else if lead && absolute {
        "/"@
    } else {
        Seq::empty()
    }
}

/// How a path without its last name is written.
pub open spec fn parent_text(path: PathView) -> Seq<char> {
    part(path.text, true, 0, path.names.len() - 1)
}

/// How what follows `base` in a path is written.
pub open spec fn rest_text(path: PathView, base: PathView) -> Seq<char> {
    part(
        path.text,
        base.names.len() == 0 && !base.absolute,
        base.names.len() as int,
        path.names.len() as int,
    )
}

/// How a path is written that is taken from another where it is relative.
pub open spec fn joined(text: Seq<char>, other: Seq<char>) -> Seq<char> {
    if other.len() > 0 && other[0] == '/' {
        other
    } else if text.len() == 0 || text.last() == '/' {
        text + other
    } else {
        text + "/"@ + other
    }
}

/// The part of a name after its last dot, unless that dot is its first character.
pub open spec fn text_extension(name: Seq<char>) -> Option<Seq<char>> {
    match last_match(name, "."@) {
        Some(at) => if at > 0 {
            Some(name.skip(at + 1))
        } else {
            None
        },
        None => None,
    }
}

/// The position of the last dot among the first `n` bytes.
pub open spec fn last_dot(bytes: Seq<u8>, n: int) -> Option<int>
    decreases n,
{
    if n <= 0 {
        None
    } else if bytes[n - 1] == 46 {
        Some(n - 1)
    } else {
        last_dot(bytes, n - 1)
    }
}

/// The extension of a name, where it is text.
pub open spec fn name_extension(name: NameView) -> Option<Seq<char>> {
    match name {
        NameView::Text(t) => text_extension(t),
        NameView::Raw(b) => match last_dot(b, b.len() as int) {
            Some(at) => if at > 0 && valid_utf8(b.skip(at + 1)) {
                Some(decode_utf8(b.skip(at + 1)))
            } else {
                None
            },
            None => None,
        },
    }
}

/// The extension of the last name of a path, where it is text.
pub open spec fn extension(path: PathView) -> Option<Seq<char>> {
    match file_name(path) {
        Some(name) => name_extension(name),
        None => None,
    }
}

/// The path that a text writes, taken from `base`.
pub open spec fn join_text(base: PathView, text: Seq<char>) -> PathView {
    join(base, parse(text))
}

/// The path with its last name replaced by what a text writes.
pub open spec fn sibling(path: PathView, text: Seq<char>) -> PathView {
    match parent(path) {
        Some(dir) => join_text(dir, text),
        None => parse(text),
    }
}

fn is_text_name(name: &PathName, text: &str) -> (res: bool)
    ensures
        res == (name@ == NameView::Text(text@)),
{
    match name {
        PathName::Text(t) => same_text(t.as_str(), text),
        PathName::Raw(_) => false,
    }
}

/// The contents of byte vectors.
pub open spec fn byte_views(pieces: Seq<Vec<u8>>) -> Seq<Seq<u8>> {
    pieces.map_values(|p: Vec<u8>| p@)
}

fn split_bytes(bytes: &Vec<u8>) -> (res: Vec<Vec<u8>>)
    ensures
        byte_views(res@) == byte_pieces(bytes@),
{
    let mut res: Vec<Vec<u8>> = Vec::new();
    let mut current: Vec<u8> = Vec::new();
    let mut i: usize = 0;
    assert(byte_views(res@).push(current@) =~= byte_pieces(bytes@.take(0)));
    while i < bytes.len()
        invariant
            i <= bytes.len(),
            byte_views(res@).push(current@) == byte_pieces(bytes@.take(i as int)),
        decreases bytes.len() - i,
    {
        let ghost t = bytes@.take(i + 1);
        let ghost front = byte_pieces(bytes@.take(i as int));
        assert(t.drop_last() =~= bytes@.take(i as int));
        let ghost done = byte_views(res@);
        let ghost cur = current@;
        let b = bytes[i];
        if b == 47 {
            res.push(current);
            current = Vec::new();
            assert(byte_views(res@) =~= done.push(cur));
            assert(byte_views(res@).push(current@) =~= byte_pieces(t));
        } else {
            current.push(b);
            assert(done.push(current@) =~= front.update(front.len() - 1, front.last().push(b)));
        }
        i += 1;
    }
    let ghost done = byte_views(res@);
    let ghost cur = current@;
    res.push(current);
    assert(byte_views(res@) =~= done.push(cur));
    assert(bytes@.take(bytes@.len() as int) =~= bytes@);
    res
}

fn place_of_name(absolute: bool, pieces: &Vec<Vec<char>>, number: usize) -> (res: usize)
    ensures
        res == name_place(absolute, views(pieces@), number as int, 0),
        res <= pieces@.len(),
{
    let ghost all = views(pieces@);
    let mut k: usize = number;
    let mut i: usize = 0;
    while i < pieces.len()
        invariant
            i <= pieces@.len(),
            all == views(pieces@),
            name_place(absolute, all, number as int, 0) == name_place(
                absolute,
                all,
                k as int,
                i as int,
            ),
        decreases pieces@.len() - i,
    {
        assert(all[i as int] == pieces@[i as int]@);
        let piece = text_of(&pieces[i]);
        let filler = pieces[i].len() == 0 || (same_text(piece.as_str(), ".") && (absolute || i
            > 0));
        if !filler {
            if k == 0 {
                return i;
            }
            k -= 1;
        }
        i += 1;
    }
    i
}

fn part_of(text: &str, lead: bool, from: usize, to: usize) -> (res: String)
    ensures
        res@ == part(text@, lead, from as int, to as int),
{
    let chars = chars_of(text);
    let absolute = chars.len() > 0 && chars[0] == '/';
    if from < to {
        let pieces = split_chars(&chars, '/');
        let start: usize = if lead {
            0
        } else {
            place_of_name(absolute, &pieces, from)
        };
        let last = place_of_name(absolute, &pieces, to - 1);
        let end: usize = if last < pieces.len() {
            last + 1
        } else {
            pieces.len()
        };
        if start <= end {
            join_pieces(&pieces, start, end)
        } else {
            String::new()
        }
    } else if lead && absolute {
        "/".to_owned()
    } else {
        String::new()
    }
}

fn join_written(text: &str, other: &str) -> (res: String)
    ensures
        res@ == joined(text@, other@),
{
    let front = chars_of(text);
    let back = chars_of(other);
    if back.len() > 0 && back[0] == '/' {
        return other.to_owned();
    }
    let mut res = text.to_owned();
    if front.len() > 0 && front[front.len() - 1] != '/' {
        res.append("/");
    }
    res.append(other);
    res
}

impl SyncPath {
    #[verifier::type_invariant]
    spec fn is_written(self) -> bool {
        self@.wf()
    }

    /// Whether the path is taken from the root.
    pub fn is_absolute(&self) -> (res: bool)
        ensures
            res == self@.absolute,
    {
        self.absolute
    }

    /// The number of names.
    pub fn name_count(&self) -> (res: usize)
        ensures
            res == self@.names.len(),
    {
        self.names.len()
    }

    /// The name at a position.
    pub fn name(&self, i: usize) -> (res: &PathName)
        requires
            i < self@.names.len(),
        ensures
            res@ == self@.names[i as int],
    {
        &self.names[i]
    }

    /// The empty relative path.
    pub fn empty() -> (res: SyncPath)
        ensures
            res@ == (PathView { absolute: false, names: Seq::empty(), text: Seq::empty() }),
    {
        let res = SyncPath::from_text("");
        proof {
            reveal_strlit("");
            assert(""@ =~= Seq::<char>::empty());
            nothing_is_written(""@);
        }
        res
    }

    /// A copy.
    pub fn duplicate(&self) -> (res: SyncPath)
        ensures
            res@ == self@,
    {
        let mut names: Vec<PathName> = Vec::new();
        let mut i: usize = 0;
        while i < self.names.len()
            invariant
                i <= self.names.len(),
                name_views(names@) == self@.names.take(i as int),
            decreases self.names.len() - i,
        {
            let ghost before = name_views(names@);
            let copy = self.names[i].duplicate();
            names.push(copy);
            assert(name_views(names@) =~= before.push(self.names@[i as int]@));
            assert(self@.names.take(i + 1) =~= self@.names.take(i as int).push(
                self.names@[i as int]@,
            ));
            i += 1;
        }
        assert(self@.names.take(self@.names.len() as int) =~= self@.names);
        proof {
            use_type_invariant(self);
        }
        SyncPath { absolute: self.absolute, names, text: self.text.clone() }
    }

    /// Whether the names of `base` are the first names of this path.
    fn names_begin_with(&self, base: &SyncPath) -> (res: bool)
        ensures
            res == base@.names.is_prefix_of(self@.names),
    {
        if base.names.len() > self.names.len() {
            return false;
        }
        let mut i: usize = 0;
        while i < base.names.len()
            invariant
                i <= base.names.len() <= self.names.len(),
                forall|k: int| 0 <= k < i ==> self@.names[k] == base@.names[k],
            decreases base.names.len() - i,
        {
            assert(self@.names[i as int] == self.names@[i as int]@);
            assert(base@.names[i as int] == base.names@[i as int]@);
            if !self.names[i].same(&base.names[i]) {
                assert(self@.names.subrange(0, base@.names.len() as int)[i as int]
                    == self@.names[i as int]);
                return false;
            }
            i += 1;
        }
        assert(base@.names =~= self@.names.subrange(0, base@.names.len() as int));
        true
    }

    /// Whether this path begins with the names of `base`.
    pub fn starts_with(&self, base: &SyncPath) -> (res: bool)
        ensures
            res == starts_with(self@, base@),
    {
        (base.absolute == self.absolute || (!base.absolute && base.names.len() == 0))
            && self.names_begin_with(base)
    }

    /// The names from position `from` on.
    fn names_from(&self, from: usize) -> (res: Vec<PathName>)
        requires
            from <= self.names@.len(),
        ensures
            name_views(res@) == self@.names.skip(from as int),
    {
        let mut names: Vec<PathName> = Vec::new();
        let mut i: usize = from;
        assert(name_views(names@) =~= self@.names.subrange(
            from as int,
            from as int,
        ));
        while i < self.names.len()
            invariant
                from <= i <= self.names.len(),
                name_views(names@) == self@.names.subrange(from as int, i as int),
            decreases self.names.len() - i,
        {
            let ghost before = name_views(names@);
            let copy = self.names[i].duplicate();
            names.push(copy);
            assert(name_views(names@) =~= before.push(self.names@[i as int]@));
            assert(self@.names.subrange(from as int, i + 1) =~= self@.names.subrange(
                from as int,
                i as int,
            ).push(self.names@[i as int]@));
            i += 1;
        }
        assert(self@.names.subrange(from as int, self@.names.len() as int) =~= self@.names.skip(
            from as int,
        ));
        names
    }

    /// What follows `base` in this path.
    pub fn strip_prefix(&self, base: &SyncPath) -> (res: Option<SyncPath>)
        ensures
            match res {
                Some(rest) => strip_prefix(self@, base@) == Some(rest@),
                None => strip_prefix(self@, base@) is None,
            },
    {
        if self.starts_with(base) {
            let text = part_of(
                self.text.as_str(),
                base.names.len() == 0 && !base.absolute,
                base.names.len(),
                self.names.len(),
            );
            let names = self.names_from(base.names.len());
            proof {
                use_type_invariant(self);
                rest_is_written(self@, base@);
            }
            Some(SyncPath { absolute: self.absolute && !base.absolute, names, text })
        } else {
            None
        }
    }

    /// `other`, taken from this path where it is relative.
    pub fn join(&self, other: &SyncPath) -> (res: SyncPath)
        ensures
            res@ == join(self@, other@),
    {
        let text = join_written(self.text.as_str(), other.text.as_str());
        proof {
            use_type_invariant(self);
            use_type_invariant(other);
            join_is_written(self@, other@);
            assert(self@.names.skip(0) =~= self@.names);
            assert(other@.names.skip(0) =~= other@.names);
        }
        if other.absolute {
            let names = other.names_from(0);
            return SyncPath { absolute: true, names, text };
        }
        let mut names = self.names_from(0);
        let from: usize = if other.names.len() > 0 && (self.absolute || self.names.len() > 0)
            && is_text_name(&other.names[0], ".") {
            1
        } else {
            0
        };
        let mut tail = other.names_from(from);
        let ghost a = names@;
        let ghost b = tail@;
        names.append(&mut tail);
        proof {
            assert(name_views(names@) =~= name_views(a) + name_views(b));
            if other@.names.len() > 0 {
                assert(other@.names[0] == other.names@[0]@);
                assert(other@.names.skip(1) =~= other@.names.drop_first());
            }
            assert(name_views(names@) =~= join(self@, other@).names);
        }
        SyncPath { absolute: self.absolute, names, text }
    }

    /// The path that a text writes.
    pub fn from_text(text: &str) -> (res: SyncPath)
        ensures
            res@ == parse(text@),
    {
        let chars = chars_of(text);
        let absolute = chars.len() > 0 && chars[0] == '/';
        let pieces = split_chars(&chars, '/');
        let ghost all = views(pieces@);
        let mut names: Vec<PathName> = Vec::new();
        let mut i: usize = 0;
        assert(name_views(names@) =~= kept_names(absolute, all.take(0)));
        while i < pieces.len()
            invariant
                i <= pieces.len(),
                all == views(pieces@),
                name_views(names@) == kept_names(absolute, all.take(i as int)),
            decreases pieces.len() - i,
        {
            let ghost before = name_views(names@);
            let piece = text_of(&pieces[i]);
            proof {
                assert(all.take(i + 1).drop_last() =~= all.take(i as int));
                assert(all.take(i + 1).last() == pieces@[i as int]@);
            }
            let redundant = same_text(piece.as_str(), ".") && (absolute || i > 0);
            if pieces[i].len() > 0 && !redundant {
                names.push(PathName::Text(piece));
                assert(name_views(names@) =~= before.push(
                    NameView::Text(pieces@[i as int]@),
                ));
            }
            i += 1;
        }
        assert(all.take(all.len() as int) =~= all);
        proof {
            text_is_written(text@);
        }
        SyncPath { absolute, names, text: text.to_owned() }
    }

    /// The path that bytes write, as a file system gives it.
    pub fn from_bytes(bytes: &Vec<u8>) -> (res: SyncPath)
        ensures
            res@ == parse_bytes(bytes@),
    {
        if let Some(text) = from_utf8(copy_bytes(bytes)) {
            return SyncPath::from_text(text.as_str());
        }
        let pieces = split_bytes(bytes);
        let ghost all = byte_views(pieces@);
        let mut shown_as: Vec<Vec<char>> = Vec::new();
        let mut i: usize = 0;
        proof {
            byte_pieces_have_no_slash(bytes@);
            assert(views(shown_as@) =~= shown_pieces(all).take(0));
        }
        while i < pieces.len()
            invariant
                i <= pieces.len(),
                all == byte_views(pieces@),
                forall|k: int| 0 <= k < all.len() ==> !(#[trigger] all[k]).contains(47u8),
                views(shown_as@) == shown_pieces(all).take(i as int),
                forall|k: int| 0 <= k < i ==> is_shown(#[trigger] all[k]),
            decreases pieces.len() - i,
        {
            let ghost before = views(shown_as@);
            let text = from_utf8_lossy(&pieces[i]);
            shown_as.push(chars_of(text.as_str()));
            proof {
                assert(all[i as int] == pieces@[i as int]@);
                assert(views(shown_as@) =~= before.push(lossy_text(all[i as int])));
                assert(shown_pieces(all).take(i + 1) =~= shown_pieces(all).take(i as int).push(
                    lossy_text(all[i as int]),
                ));
                replaced_is_no_dot(lossy_text(all[i as int]));
            }
            i += 1;
        }
        let n: usize = shown_as.len();
        assert(n == all.len()) by {
            assert(views(shown_as@).len() == shown_as@.len());
        }
        let text = join_pieces(&shown_as, 0, n);
        let ghost texts = shown_pieces(all);
        proof {
            assert(texts.take(all.len() as int) =~= texts);
            assert(views(shown_as@).subrange(0, n as int) =~= texts);
        }
        let chars = chars_of(text.as_str());
        let absolute = chars.len() > 0 && chars[0] == '/';
        let mut names: Vec<PathName> = Vec::new();
        let mut j: usize = 0;
        proof {
            assert(name_views(names@) =~= kept_byte_names(absolute, all.take(0)));
        }
        while j < pieces.len()
            invariant
                j <= pieces.len(),
                n == pieces.len(),
                n == shown_as.len(),
                all == byte_views(pieces@),
                texts == shown_pieces(all),
                views(shown_as@) == texts,
                name_views(names@) == kept_byte_names(absolute, all.take(j as int)),
            decreases pieces.len() - j,
        {
            let ghost before = name_views(names@);
            let ghost piece = pieces@[j as int]@;
            proof {
                assert(all.take(j + 1).drop_last() =~= all.take(j as int));
                assert(all.take(j + 1).last() == piece);
                assert(texts[j as int] == lossy_text(piece));
                assert(views(shown_as@)[j as int] == shown_as@[j as int]@);
            }
            let seen = text_of(&shown_as[j]);
            let redundant = same_text(seen.as_str(), ".") && (absolute || j > 0);
            if shown_as[j].len() > 0 && !redundant {
                let name = match from_utf8(copy_bytes(&pieces[j])) {
                    Some(text) => PathName::Text(text),
                    None => PathName::Raw(copy_bytes(&pieces[j])),
                };
                names.push(name);
                assert(name_views(names@) =~= before.push(byte_name(piece)));
            }
            j += 1;
        }
        proof {
            assert(all.take(all.len() as int) =~= all);
            bytes_are_written(bytes@);
        }
        SyncPath { absolute, names, text }
    }

    /// The path that a text writes, taken from this path.
    pub fn join_text(&self, text: &str) -> (res: SyncPath)
        ensures
            res@ == join_text(self@, text@),
    {
        self.join(&SyncPath::from_text(text))
    }

    /// This path with its last name replaced by what a text writes.
    pub fn sibling(&self, text: &str) -> (res: SyncPath)
        ensures
            res@ == sibling(self@, text@),
    {
        match self.parent() {
            Some(dir) => dir.join_text(text),
            None => SyncPath::from_text(text),
        }
    }

    /// The last name, unless it is `.` or `..`.
    pub fn file_name(&self) -> (res: Option<&PathName>)
        ensures
            match res {
                Some(name) => file_name(self@) == Some(name@),
                None => file_name(self@) is None,
            },
    {
        let n: usize = self.names.len();
        if n == 0 {
            return None;
        }
        assert(self@.names.last() == self.names@[n - 1]@);
        let name = &self.names[n - 1];
        if is_text_name(name, ".") || is_text_name(name, "..") {
            None
        } else {
            Some(name)
        }
    }

    /// The last name where it is text, and neither `.` nor `..`.
    pub fn file_name_text(&self) -> (res: Option<String>)
        ensures
            match res {
                Some(name) => file_name_text(self@) == Some(name@),
                None => file_name_text(self@) is None,
            },
    {
        match self.file_name() {
            Some(PathName::Text(t)) => Some(t.clone()),
            _ => None,
        }
    }

    /// Whether the last name is the given text.
    pub fn file_name_is(&self, text: &str) -> (res: bool)
        ensures
            res == (file_name_text(self@) == Some(text@)),
    {
        match self.file_name_text() {
            Some(name) => same_text(name.as_str(), text),
            None => false,
        }
    }

    /// The path without its last name.
    pub fn parent(&self) -> (res: Option<SyncPath>)
        ensures
            match res {
                Some(dir) => parent(self@) == Some(dir@),
                None => parent(self@) is None,
            },
    {
        if self.names.len() == 0 {
            return None;
        }
        let text = part_of(self.text.as_str(), true, 0, self.names.len() - 1);
        let mut names = self.names_from(0);
        proof {
            use_type_invariant(self);
            parent_is_written(self@);
            assert(self@.names.skip(0) =~= self@.names);
            assert(name_views(names@).len() == names@.len());
        }
        let ghost given = names@;
        names.pop();
        assert(name_views(names@) =~= name_views(given).drop_last());
        Some(SyncPath { absolute: self.absolute, names, text })
    }

    /// The extension of the last name, where it is text.
    pub fn extension(&self) -> (res: Option<String>)
        ensures
            match res {
                Some(e) => extension(self@) == Some(e@),
                None => extension(self@) is None,
            },
    {
        match self.file_name() {
            None => None,
            Some(PathName::Text(t)) => extension_of_text(t.as_str()),
            Some(PathName::Raw(b)) => {
                let mut n: usize = b.len();
                while n > 0 && b[n - 1] != 46
                    invariant
                        n <= b.len(),
                        last_dot(b@, b@.len() as int) == last_dot(b@, n as int),
                    decreases n,
                {
                    n -= 1;
                }
                if n <= 1 {
                    return None;
                }
                let mut rest: Vec<u8> = Vec::new();
                let mut i: usize = n;
                while i < b.len()
                    invariant
                        1 < n <= i <= b.len(),
                        rest@ == b@.subrange(n as int, i as int),
                    decreases b.len() - i,
                {
                    rest.push(b[i]);
                    assert(b@.subrange(n as int, i + 1) =~= b@.subrange(n as int, i as int).push(
                        b@[i as int],
                    ));
                    i += 1;
                }
                assert(rest@ =~= b@.skip(n as int));
                from_utf8(rest)
            },
        }
    }

    /// The path as it is shown: the text that writes it.
    pub fn display(&self) -> (res: String)
        ensures
            res@ == self@.text,
            self@.wf(),
    {
        proof {
            use_type_invariant(self);
        }
        self.text.clone()
    }
}

/// The part of a name after its last dot, unless that dot is its first character.
pub fn extension_of_text(name: &str) -> (res: Option<String>)
    ensures
        match res {
            Some(e) => text_extension(name@) == Some(e@),
            None => text_extension(name@) is None,
        },
{
    let chars = chars_of(name);
    let dot = chars_of(".");
    proof {
        reveal_strlit(".");
    }
    assert(dot@.len() == 1);
    let n: usize = chars.len();
    match find_last(&chars, &dot) {
        Some(at) => {
            if at > 0 {
                let rest = slice_chars(&chars, at + 1, n);
                assert(rest@ =~= chars@.skip(at + 1));
                Some(text_of(&rest))
            } else {
                None
            }
        },
        None => None,
    }
}

impl TableKey for SyncPath {
    type Key = PathKey;

    open spec fn key_of(view: PathView) -> PathKey {
        view.key()
    }

    fn same(&self, other: &SyncPath) -> (res: bool) {
        if self.absolute != other.absolute || self.names.len() != other.names.len() {
            assert(self@.names.len() == self.names@.len());
            assert(other@.names.len() == other.names@.len());
            return false;
        }
        let res = self.names_begin_with(other);
        assert(self@.names.subrange(0, self@.names.len() as int) =~= self@.names);
        res
    }
}

impl TableKey for String {
    type Key = Seq<char>;

    open spec fn key_of(view: Seq<char>) -> Seq<char> {
        view
    }

    fn same(&self, other: &String) -> (res: bool) {
        same_text(self.as_str(), other.as_str())
    }
}

/// A text that is one name: not empty and without a slash.
pub open spec fn one_name(text: Seq<char>) -> bool {
    text.len() > 0 && !text.contains('/')
}

/// A text without the separator is one piece.
pub proof fn split_without_separator(text: Seq<char>, sep: char)
    requires
        !text.contains(sep),
    ensures
        split(text, sep) == seq![text],
    decreases text.len(),
{
    if text.len() == 0 {
        assert(text =~= Seq::empty());
    } else {
        let front = text.drop_last();
        assert forall|c: char| front.contains(c) implies text.contains(c) by {
            let i = choose|i: int| 0 <= i < front.len() && front[i] == c;
            assert(text[i] == c);
        }
        split_without_separator(front, sep);
        assert(text.contains(text[text.len() - 1]));
        assert(front.push(text.last()) =~= text);
        assert(split(text, sep) =~= seq![text]);
    }
}

/// A text that is one name writes the path that has that name.
pub proof fn parse_one_name(text: Seq<char>)
    requires
        one_name(text),
    ensures
        parse(text) == single(NameView::Text(text)),
{
    split_without_separator(text, '/');
    assert(text.contains(text[0]));
    let pieces = seq![text];
    assert(pieces.drop_last() =~= Seq::empty());
    reveal_with_fuel(kept_names, 2);
    assert(kept_names(false, pieces) =~= seq![NameView::Text(text)]);
}

/// Taking a single name from a directory adds that name.
pub proof fn join_one_name(dir: PathView, text: Seq<char>)
    requires
        one_name(text),
        text != "."@,
    ensures
        join_text(dir, text) == (PathView {
            absolute: dir.absolute,
            names: dir.names.push(NameView::Text(text)),
            text: joined(dir.text, text),
        }),
{
    parse_one_name(text);
    assert(dir.names + seq![NameView::Text(text)] =~= dir.names.push(NameView::Text(text)));
}

/// What was joined to a base follows the base.
pub proof fn strip_joined(base: PathView, rest: PathView)
    requires
        !rest.absolute,
        rest.names.len() > 0 ==> rest.names[0] != NameView::Text("."@),
    ensures
        starts_with(join(base, rest), base),
        same_path(strip_prefix(join(base, rest), base)->0, rest),
{
    let whole = join(base, rest);
    assert(whole.names =~= base.names + rest.names);
    assert(whole.names.subrange(0, base.names.len() as int) =~= base.names);
    assert(whole.names.skip(base.names.len() as int) =~= rest.names);
}

/// A path under a base is the base joined with what follows it.
pub proof fn join_stripped(path: PathView, base: PathView)
    requires
        starts_with(path, base),
        base.absolute == path.absolute,
        path.names.len() > base.names.len() ==> path.names[base.names.len() as int]
            != NameView::Text("."@),
    ensures
        same_path(join(base, strip_prefix(path, base)->0), path),
{
    let rest = strip_prefix(path, base)->0;
    assert(path.names =~= base.names + path.names.skip(base.names.len() as int)) by {
        assert(path.names.subrange(0, base.names.len() as int) =~= base.names);
    }
}

/// What is selected from paths that are not the same holds no path twice.
pub proof fn selected_paths_distinct(paths: Seq<PathView>, chosen: spec_fn(PathView) -> bool)
    requires
        view_keys(paths).no_duplicates(),
    ensures
        view_keys(selected(paths, chosen)).no_duplicates(),
{
    let keys = view_keys(paths);
    let some = selected(paths, chosen);
    assert forall|i: int, j: int|
        0 <= i < paths.len() && 0 <= j < paths.len() && i != j implies paths[i] != paths[j] by {
        assert(keys[i] == paths[i].key());
        assert(keys[j] == paths[j].key());
    }
    selected_distinct(paths, chosen);
    selected_contains(paths, chosen);
    assert forall|i: int, j: int|
        0 <= i < some.len() && 0 <= j < some.len() && i != j implies view_keys(some)[i]
        != view_keys(some)[j] by {
        assert(some.contains(some[i]));
        assert(some.contains(some[j]));
        let a = choose|a: int| 0 <= a < paths.len() && paths[a] == some[i];
        let b = choose|b: int| 0 <= b < paths.len() && paths[b] == some[j];
        assert(keys[a] == some[i].key());
        assert(keys[b] == some[j].key());
    }
}

/// A map from paths.
pub type PathMap<T> = Table<SyncPath, T>;

/// A set of paths.
pub type PathSet = Table<SyncPath, ()>;

/// A map from texts.
pub type TextMap<T> = Table<String, T>;

/// What a map from paths holds.
pub type PathEntries<T> = Entries<SyncPath, T>;

/// What a map from texts holds.
pub type TextEntries<T> = Entries<String, T>;

} // verus!

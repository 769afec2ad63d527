//! What holds of the way paths are written.

use vstd::prelude::*;
use vstd::string::*;
use vstd::utf8::valid_utf8;

use crate::names::relative_label;
use crate::path::{
    byte_name, byte_pieces, is_filler, is_shown, join, joined, kept_byte_names, kept_names,
    name_place, parent, parent_text, parse, parse_bytes, part, rest_text, shown, shown_names,
    shown_pieces, sibling, split_without_separator, starts_with, strip_prefix, NameView, PathView,
};
use crate::text::{replaced, split, split_has_a_piece, strip_back, strip_front, with_slashes};

verus! {

/// The pieces of two texts with a slash between them are those of both.
proof fn split_at_slash(a: Seq<char>, b: Seq<char>)
    ensures
        split(a.push('/') + b, '/') == split(a, '/') + split(b, '/'),
    decreases b.len(),
{
    let whole = a.push('/') + b;
    split_has_a_piece(b, '/');
    if b.len() == 0 {
        assert(whole.drop_last() =~= a);
        assert(split(whole, '/') =~= split(a, '/').push(Seq::empty()));
        assert(split(b, '/') =~= seq![Seq::<char>::empty()]);
        assert(split(a, '/') + split(b, '/') =~= split(a, '/').push(Seq::empty()));
    } else {
        let front = b.drop_last();
        split_at_slash(a, front);
        split_has_a_piece(front, '/');
        assert(whole.drop_last() =~= a.push('/') + front);
        assert(whole.last() == b.last());
        let pieces = split(a, '/') + split(front, '/');
        assert(pieces.last() == split(front, '/').last());
        if b.last() == '/' {
            assert(split(whole, '/') =~= split(a, '/') + split(b, '/'));
        } else {
            assert(split(whole, '/') =~= split(a, '/') + split(b, '/'));
        }
    }
}

/// The names among pieces that follow others.
proof fn names_that_follow(absolute: bool, first: Seq<Seq<char>>, then: Seq<Seq<char>>)
    requires
        first.len() >= 1,
    ensures
        kept_names(absolute, first + then) == kept_names(absolute, first) + kept_names(true, then),
    decreases then.len(),
{
    let all = first + then;
    if then.len() == 0 {
        assert(all =~= first);
        assert(kept_names(absolute, first) + kept_names(true, then) =~= kept_names(
            absolute,
            first,
        ));
    } else {
        names_that_follow(absolute, first, then.drop_last());
        assert(all.drop_last() =~= first + then.drop_last());
        assert(all.last() == then.last());
        assert(kept_names(absolute, all) =~= kept_names(absolute, first) + kept_names(true, then));
    }
}

/// A `.` at the start of a relative path is a name of its own; no other is.
pub(crate) proof fn leading_dot(pieces: Seq<Seq<char>>)
    requires
        pieces.len() >= 1,
    ensures
        pieces[0] == "."@ ==> kept_names(false, pieces) == seq![NameView::Text("."@)] + kept_names(
            true,
            pieces,
        ),
        pieces[0] != "."@ ==> kept_names(false, pieces) == kept_names(true, pieces),
        pieces[0] != "."@ && pieces[0].len() > 0 ==> kept_names(false, pieces).len() > 0
            && kept_names(false, pieces)[0] == NameView::Text(pieces[0]),
    decreases pieces.len(),
{
    reveal_strlit(".");
    let front = pieces.drop_last();
    if pieces.len() == 1 {
        assert(kept_names(false, front) =~= Seq::empty());
        assert(kept_names(true, front) =~= Seq::empty());
        assert(seq![NameView::Text("."@)] + Seq::<NameView>::empty() =~= seq![NameView::Text("."@)]);
    } else {
        leading_dot(front);
        assert(front[0] == pieces[0]);
        if pieces[0] == "."@ {
            assert(kept_names(false, pieces) =~= seq![NameView::Text("."@)] + kept_names(
                true,
                pieces,
            ));
        }
    }
}

pub(crate) proof fn first_piece_of(text: Seq<char>)
    ensures
        split(text, '/').len() >= 1,
        text.len() > 0 && text[0] != '/' ==> split(text, '/')[0].len() > 0 && split(
            text,
            '/',
        )[0][0] == text[0],
        text.len() == 0 ==> split(text, '/') == seq![Seq::<char>::empty()],
    decreases text.len(),
{
    if text.len() > 0 {
        let front = text.drop_last();
        first_piece_of(front);
        let pieces = split(front, '/');
        if text.len() == 1 {
            assert(pieces =~= seq![Seq::<char>::empty()]);
        } else {
            assert(front[0] == text[0]);
        }
    }
}

/// What is written where one path is taken from another writes the path that is taken from the
/// other.
pub proof fn joined_text_writes_the_join(text: Seq<char>, other: Seq<char>)
    ensures
        parse(joined(text, other)) == join(parse(text), parse(other)),
{
    reveal_strlit("/");
    reveal_strlit(".");
    if other.len() > 0 && other[0] == '/' {
    } else if text.len() == 0 {
        assert(text + other =~= other);
        first_piece_of(text);
        assert(split(text, '/').drop_last() =~= Seq::<Seq<char>>::empty());
        reveal_with_fuel(kept_names, 2);
        assert(parse(text).names =~= Seq::<NameView>::empty());
        assert(parse(text).names + parse(other).names =~= parse(other).names);
    } else {
        let absolute = text[0] == '/';
        let whole = joined(text, other);
        let pieces = split(other, '/');
        first_piece_of(text);
        first_piece_of(other);
        assert(whole[0] == text[0]);
        if text.last() == '/' {
            let front = text.drop_last();
            assert(front.push('/') =~= text);
            assert(whole =~= front.push('/') + other);
            split_at_slash(front, other);
            split_has_a_piece(front, '/');
            names_that_follow(absolute, split(front, '/'), pieces);
            assert(split(text, '/') =~= split(front, '/').push(Seq::empty()));
            assert(split(text, '/').drop_last() =~= split(front, '/'));
            assert(kept_names(absolute, split(text, '/')) == kept_names(
                absolute,
                split(front, '/'),
            ));
        } else {
            assert(whole =~= text.push('/') + other);
            split_at_slash(text, other);
            names_that_follow(absolute, split(text, '/'), pieces);
        }
        assert(parse(whole).names == parse(text).names + kept_names(true, pieces));
        leading_dot(pieces);
        if !absolute {
            leading_dot(split(text, '/'));
            assert(parse(text).names.len() > 0);
        }
        let names = parse(other).names;
        if pieces[0] == "."@ {
            assert(names[0] == NameView::Text("."@));
            assert(names.drop_first() =~= kept_names(true, pieces));
        } else if pieces[0].len() > 0 {
            assert(names[0] == NameView::Text(pieces[0]));
        } else {
            assert(other.len() == 0);
            assert(pieces.drop_last() =~= Seq::<Seq<char>>::empty());
            reveal_with_fuel(kept_names, 2);
            assert(names =~= Seq::<NameView>::empty());
        }
        assert(parse(whole).names =~= join(parse(text), parse(other)).names);
    }
}

/// No piece holds a slash.
spec fn without_slash(pieces: Seq<Seq<char>>) -> bool {
    forall|i: int| 0 <= i < pieces.len() ==> !(#[trigger] pieces[i]).contains('/')
}

proof fn pieces_have_no_slash(text: Seq<char>)
    ensures
        split(text, '/').len() >= 1,
        without_slash(split(text, '/')),
    decreases text.len(),
{
    let pieces = split(text, '/');
    if text.len() > 0 {
        let front = split(text.drop_last(), '/');
        pieces_have_no_slash(text.drop_last());
        assert forall|i: int| 0 <= i < pieces.len() implies !(#[trigger] pieces[i]).contains(
            '/',
        ) by {
            if text.last() == '/' {
                if i < front.len() {
                    assert(pieces[i] == front[i]);
                }
            } else if i == front.len() - 1 {
                let piece = front.last();
                assert(pieces[i] == piece.push(text.last()));
                if pieces[i].contains('/') {
                    let k = choose|k: int| 0 <= k < pieces[i].len() && pieces[i][k] == '/';
                    assert(k < piece.len());
                    assert(piece[k] == '/');
                    assert(front[i].contains('/'));
                }
            } else {
                assert(pieces[i] == front[i]);
            }
        }
    }
}

proof fn split_of_slashed(pieces: Seq<Seq<char>>)
    requires
        pieces.len() >= 1,
        without_slash(pieces),
    ensures
        split(with_slashes(pieces), '/') == pieces,
    decreases pieces.len(),
{
    reveal_strlit("/");
    split_without_separator(pieces[0], '/');
    if pieces.len() == 1 {
        assert(seq![pieces[0]] =~= pieces);
    } else {
        let rest = pieces.drop_first();
        assert(without_slash(rest)) by {
            assert forall|i: int| 0 <= i < rest.len() implies !(#[trigger] rest[i]).contains(
                '/',
            ) by {
                assert(rest[i] == pieces[i + 1]);
            }
        }
        split_of_slashed(rest);
        let tail = with_slashes(rest);
        assert(with_slashes(pieces) =~= pieces[0].push('/') + tail);
        split_at_slash(pieces[0], tail);
        assert(seq![pieces[0]] + rest =~= pieces);
    }
}

/// How many names stand among the first pieces.
spec fn names_among(absolute: bool, pieces: Seq<Seq<char>>, n: int) -> nat {
    kept_names(absolute, pieces.take(n)).len()
}

proof fn one_more_piece(absolute: bool, pieces: Seq<Seq<char>>, i: int)
    requires
        0 <= i < pieces.len(),
    ensures
        kept_names(absolute, pieces.take(i + 1)) == if is_filler(absolute, pieces, i) {
            kept_names(absolute, pieces.take(i))
        } else {
            kept_names(absolute, pieces.take(i)).push(NameView::Text(pieces[i]))
        },
{
    let next = pieces.take(i + 1);
    assert(next.drop_last() =~= pieces.take(i));
    assert(next.last() == pieces[i]);
}

proof fn place_has_its_number(absolute: bool, pieces: Seq<Seq<char>>, k: int, from: int)
    requires
        0 <= from <= pieces.len(),
        0 <= k,
    ensures
        ({
            let at = name_place(absolute, pieces, k, from);
            &&& from <= at <= pieces.len()
            &&& if at < pieces.len() {
                &&& !is_filler(absolute, pieces, at)
                &&& names_among(absolute, pieces, at) == names_among(absolute, pieces, from) + k
            } else {
                names_among(absolute, pieces, pieces.len() as int) <= names_among(
                    absolute,
                    pieces,
                    from,
                ) + k
            }
        }),
    decreases pieces.len() - from,
{
    if from < pieces.len() {
        one_more_piece(absolute, pieces, from);
        if is_filler(absolute, pieces, from) {
            place_has_its_number(absolute, pieces, k, from + 1);
        } else if k > 0 {
            place_has_its_number(absolute, pieces, k - 1, from + 1);
        }
    }
}

/// The names among the first pieces come first, and those among the others follow.
proof fn names_in_two_parts(absolute: bool, pieces: Seq<Seq<char>>, n: int)
    requires
        1 <= n <= pieces.len(),
    ensures
        kept_names(absolute, pieces) == kept_names(absolute, pieces.take(n)) + kept_names(
            true,
            pieces.skip(n),
        ),
{
    names_that_follow(absolute, pieces.take(n), pieces.skip(n));
    assert(pieces.take(n) + pieces.skip(n) =~= pieces);
}

pub(crate) proof fn nothing_is_written(text: Seq<char>)
    requires
        text.len() == 0,
    ensures
        parse(text) == (PathView { absolute: false, names: Seq::empty(), text }),
{
    first_piece_of(text);
    assert(split(text, '/').drop_last() =~= Seq::<Seq<char>>::empty());
    reveal_with_fuel(kept_names, 2);
    assert(parse(text).names =~= Seq::<NameView>::empty());
}

proof fn root_is_written()
    ensures
        parse("/"@) == (PathView { absolute: true, names: Seq::empty(), text: "/"@ }),
{
    reveal_strlit("/");
    let none = Seq::<char>::empty();
    assert("/"@ =~= none.push('/') + none);
    split_at_slash(none, none);
    first_piece_of(none);
    let pieces = split("/"@, '/');
    assert(pieces =~= seq![none, none]);
    assert(pieces.drop_last() =~= seq![none]);
    assert(seq![none].drop_last() =~= Seq::<Seq<char>>::empty());
    reveal_with_fuel(kept_names, 3);
    assert(kept_names(true, pieces) =~= Seq::<NameView>::empty());
}

/// A written path, cut off behind some of its names, writes the path with those names.
proof fn front_writes_its_names(text: Seq<char>, to: int)
    requires
        0 <= to <= parse(text).names.len(),
    ensures
        parse(part(text, true, 0, to)) == (PathView {
            absolute: parse(text).absolute,
            names: parse(text).names.take(to),
            text: part(text, true, 0, to),
        }),
{
    let absolute = text.len() > 0 && text[0] == '/';
    let pieces = split(text, '/');
    let names = kept_names(absolute, pieces);
    pieces_have_no_slash(text);
    first_piece_of(text);
    assert(pieces.take(pieces.len() as int) =~= pieces);
    assert(pieces.take(0) =~= Seq::<Seq<char>>::empty());
    if to == 0 {
        assert(names.take(0) =~= Seq::<NameView>::empty());
        if absolute {
            root_is_written();
        } else {
            nothing_is_written(Seq::empty());
        }
    } else {
        let last = name_place(absolute, pieces, to - 1, 0);
        place_has_its_number(absolute, pieces, to - 1, 0);
        assert(last < pieces.len());
        one_more_piece(absolute, pieces, last);
        let end = last + 1;
        let front = pieces.take(end);
        assert(pieces.subrange(0, end) =~= front);
        assert(without_slash(front)) by {
            assert forall|i: int| 0 <= i < front.len() implies !(#[trigger] front[i]).contains(
                '/',
            ) by {
                assert(front[i] == pieces[i]);
            }
        }
        split_of_slashed(front);
        let written = with_slashes(front);
        reveal_strlit("/");
        if absolute {
            leading_piece_is_empty(text);
            assert(front.len() > 1);
            assert(written[0] == '/');
        } else {
            assert(text.len() > 0) by {
                if text.len() == 0 {
                    nothing_is_written(text);
                }
            }
            assert(front[0] == pieces[0]);
            assert(written.len() > 0 && written[0] == front[0][0]);
        }
        names_in_two_parts(absolute, pieces, end);
        assert(names.take(to) =~= kept_names(absolute, front));
    }
}

proof fn leading_piece_is_empty(text: Seq<char>)
    requires
        text.len() > 0,
        text[0] == '/',
    ensures
        split(text, '/')[0].len() == 0,
        split(text, '/').len() >= 2,
{
    let none = Seq::<char>::empty();
    let rest = text.drop_first();
    assert(text =~= none.push('/') + rest);
    split_at_slash(none, rest);
    first_piece_of(none);
    split_has_a_piece(rest, '/');
}

/// What is written of a path without its last name writes the path without it.
pub proof fn parent_text_writes_the_parent(text: Seq<char>)
    requires
        parse(text).names.len() > 0,
    ensures
        parent(parse(text)) == Some(parse(parent_text(parse(text)))),
{
    let n = parse(text).names.len() as int;
    front_writes_its_names(text, n - 1);
    assert(parse(text).names.take(n - 1) =~= parse(text).names.drop_last());
}

/// What is written in place of the last name of a path writes the path beside it.
pub proof fn sibling_text_writes_the_sibling(text: Seq<char>, other: Seq<char>)
    ensures
        sibling(parse(text), other) == parse(sibling(parse(text), other).text),
{
    if parse(text).names.len() > 0 {
        parent_text_writes_the_parent(text);
        joined_text_writes_the_join(parent_text(parse(text)), other);
    }
}

/// What is written of a path behind a base writes what follows the base in it.
pub proof fn rest_text_writes_the_rest(text: Seq<char>, base: PathView)
    requires
        starts_with(parse(text), base),
    ensures
        strip_prefix(parse(text), base) == Some(parse(rest_text(parse(text), base))),
{
    let path = parse(text);
    let absolute = path.absolute;
    let pieces = split(text, '/');
    let names = path.names;
    let n = names.len() as int;
    let k = base.names.len() as int;
    if k == 0 && !base.absolute {
        front_writes_its_names(text, n);
        assert(names.take(n) =~= names.skip(0));
    } else if k == n {
        nothing_is_written(Seq::empty());
        assert(names.skip(n) =~= Seq::<NameView>::empty());
    } else {
        pieces_have_no_slash(text);
        assert(pieces.take(pieces.len() as int) =~= pieces);
        assert(pieces.take(0) =~= Seq::<Seq<char>>::empty());
        let start = name_place(absolute, pieces, k, 0);
        let last = name_place(absolute, pieces, n - 1, 0);
        place_has_its_number(absolute, pieces, k, 0);
        place_has_its_number(absolute, pieces, n - 1, 0);
        assert(start < pieces.len() && last < pieces.len());
        assert(start <= last) by {
            if last < start {
                fewer_names_before(absolute, pieces, last, start);
                one_more_piece(absolute, pieces, last);
                fewer_names_before(absolute, pieces, last + 1, start);
            }
        }
        one_more_piece(absolute, pieces, last);
        let end = last + 1;
        assert(start >= 1) by {
            if start == 0 {
                assert(k == 0);
                leading_piece_is_empty(text);
            }
        }
        assert(pieces[start] != "."@);
        let part_pieces = pieces.subrange(start, end);
        assert(without_slash(part_pieces)) by {
            assert forall|i: int| 0 <= i < part_pieces.len() implies !(
            #[trigger] part_pieces[i]).contains('/') by {
                assert(part_pieces[i] == pieces[start + i]);
            }
        }
        split_of_slashed(part_pieces);
        let written = with_slashes(part_pieces);
        assert(part_pieces[0] == pieces[start]);
        assert(written.len() > 0 && written[0] == part_pieces[0][0]);
        assert(written[0] != '/') by {
            if written[0] == '/' {
                assert(part_pieces[0].contains('/'));
            }
        }
        leading_dot(part_pieces);
        names_in_two_parts(absolute, pieces, start);
        names_in_two_parts(absolute, pieces, end);
        let tail = pieces.skip(end);
        names_that_follow(true, part_pieces, tail);
        assert(part_pieces + tail =~= pieces.skip(start));
        assert(kept_names(true, tail).len() == 0);
        assert(kept_names(true, pieces.skip(start)) =~= kept_names(true, part_pieces));
        assert(names.skip(k) =~= kept_names(true, pieces.skip(start)));
    }
}

proof fn fewer_names_before(absolute: bool, pieces: Seq<Seq<char>>, i: int, j: int)
    requires
        0 <= i <= j <= pieces.len(),
    ensures
        names_among(absolute, pieces, i) <= names_among(absolute, pieces, j),
    decreases j - i,
{
    if i < j {
        one_more_piece(absolute, pieces, i);
        fewer_names_before(absolute, pieces, i + 1, j);
    }
}

/// A text writes the path that is read from it.
pub proof fn text_is_written(text: Seq<char>)
    ensures
        parse(text).wf(),
{
    names_are_text(parse(text).absolute, split(text, '/'));
    assert(shown_names(parse(text).names) =~= parse(text).names);
}

proof fn names_are_text(absolute: bool, pieces: Seq<Seq<char>>)
    ensures
        forall|i: int|
            0 <= i < kept_names(absolute, pieces).len() ==> (#[trigger] kept_names(
                absolute,
                pieces,
            )[i]) is Text,
    decreases pieces.len(),
{
    if pieces.len() > 0 {
        names_are_text(absolute, pieces.drop_last());
    }
}

/// The way a path without its last name is written writes that path.
pub proof fn parent_is_written(path: PathView)
    requires
        path.wf(),
        path.names.len() > 0,
    ensures
        parent(path)->0.wf(),
{
    let read = parse(path.text);
    assert(read.names.len() == path.names.len());
    parent_text_writes_the_parent(path.text);
    assert(parent_text(read) == parent_text(path));
    assert(shown_names(path.names.drop_last()) =~= shown_names(path.names).drop_last());
}

/// The way that is written which follows a base in a path writes what follows the base.
pub proof fn rest_is_written(path: PathView, base: PathView)
    requires
        path.wf(),
        starts_with(path, base),
    ensures
        strip_prefix(path, base)->0.wf(),
{
    let read = parse(path.text);
    let k = base.names.len() as int;
    let seen = PathView { names: shown_names(base.names), ..base };
    assert(read.names.len() == path.names.len());
    assert(starts_with(read, seen)) by {
        assert(base.names =~= path.names.take(k));
        assert(seen.names =~= read.names.subrange(0, k));
    }
    rest_text_writes_the_rest(path.text, seen);
    assert(rest_text(read, seen) == rest_text(path, base));
    assert(shown_names(path.names.skip(k)) =~= shown_names(path.names).skip(k));
}

/// The way a joined path is written writes the joined path.
pub proof fn join_is_written(path: PathView, other: PathView)
    requires
        path.wf(),
        other.wf(),
    ensures
        join(path, other).wf(),
{
    joined_text_writes_the_join(path.text, other.text);
    let read = parse(other.text);
    let whole = join(path, other);
    assert(parse(path.text).names.len() == path.names.len());
    assert(read.names.len() == other.names.len());
    if other.names.len() > 0 {
        assert(read.names[0] == NameView::Text(shown(other.names[0])));
        assert(read.names[0] == NameView::Text("."@) <==> other.names[0] == NameView::Text("."@));
        assert(shown_names(other.names.drop_first()) =~= read.names.drop_first());
    }
    if !other.absolute {
        let tail = whole.names.skip(path.names.len() as int);
        assert(whole.names =~= path.names + tail);
        assert(shown_names(whole.names) =~= shown_names(path.names) + shown_names(tail));
        assert(tail =~= other.names || tail =~= other.names.drop_first());
        assert(parse(whole.text).names =~= shown_names(whole.names));
        assert forall|i: int|
            0 <= i < whole.names.len() && (#[trigger] whole.names[i]) is Raw implies shown(
            whole.names[i],
        ) != "."@ by {
            if i < path.names.len() {
                assert(whole.names[i] == path.names[i]);
            } else {
                let k = i - path.names.len() + other.names.len() - tail.len();
                assert(whole.names[i] == other.names[k]);
            }
        }
    }
}

pub(crate) proof fn byte_pieces_have_no_slash(bytes: Seq<u8>)
    ensures
        byte_pieces(bytes).len() >= 1,
        forall|i: int|
            0 <= i < byte_pieces(bytes).len() ==> !(#[trigger] byte_pieces(bytes)[i]).contains(
                47u8,
            ),
    decreases bytes.len(),
{
    let pieces = byte_pieces(bytes);
    if bytes.len() > 0 {
        let front = byte_pieces(bytes.drop_last());
        byte_pieces_have_no_slash(bytes.drop_last());
        assert forall|i: int| 0 <= i < pieces.len() implies !(#[trigger] pieces[i]).contains(
            47u8,
        ) by {
            if bytes.last() == 47 {
                if i < front.len() {
                    assert(pieces[i] == front[i]);
                }
            } else if i == front.len() - 1 {
                let piece = front.last();
                assert(pieces[i] == piece.push(bytes.last()));
                if pieces[i].contains(47u8) {
                    let k = choose|k: int| 0 <= k < pieces[i].len() && pieces[i][k] == 47u8;
                    assert(k < piece.len());
                    assert(piece[k] == 47u8);
                    assert(front[i].contains(47u8));
                }
            } else {
                assert(pieces[i] == front[i]);
            }
        }
    }
}

pub(crate) proof fn replaced_is_no_dot(text: Seq<char>)
    ensures
        text.contains('\u{FFFD}') ==> text != "."@,
{
    reveal_strlit(".");
}

proof fn byte_names_are_shown(absolute: bool, pieces: Seq<Seq<u8>>)
    requires
        forall|i: int| 0 <= i < pieces.len() ==> is_shown(#[trigger] pieces[i]),
    ensures
        shown_names(kept_byte_names(absolute, pieces)) == kept_names(
            absolute,
            shown_pieces(pieces),
        ),
        forall|i: int|
            0 <= i < kept_byte_names(absolute, pieces).len() && (#[trigger] kept_byte_names(
                absolute,
                pieces,
            )[i]) is Raw ==> shown(kept_byte_names(absolute, pieces)[i]) != "."@,
    decreases pieces.len(),
{
    let names = kept_byte_names(absolute, pieces);
    let texts = shown_pieces(pieces);
    if pieces.len() == 0 {
        assert(shown_names(names) =~= kept_names(absolute, texts));
    } else {
        let front = kept_byte_names(absolute, pieces.drop_last());
        assert forall|i: int| 0 <= i < pieces.drop_last().len() implies is_shown(
            #[trigger] pieces.drop_last()[i],
        ) by {
            assert(is_shown(pieces[i]));
        }
        byte_names_are_shown(absolute, pieces.drop_last());
        assert(texts.drop_last() =~= shown_pieces(pieces.drop_last()));
        assert(is_shown(pieces[pieces.len() - 1]));
        let added = byte_name(pieces.last());
        assert(shown_names(front.push(added)) =~= shown_names(front).push(
            NameView::Text(shown(added)),
        ));
    }
}

/// The text that shows bytes which are no text writes the names among them.
pub(crate) proof fn bytes_are_written(bytes: Seq<u8>)
    requires
        !valid_utf8(bytes),
        forall|i: int|
            0 <= i < byte_pieces(bytes).len() ==> is_shown(#[trigger] byte_pieces(bytes)[i]),
    ensures
        parse_bytes(bytes).wf(),
{
    let pieces = byte_pieces(bytes);
    let texts = shown_pieces(pieces);
    byte_pieces_have_no_slash(bytes);
    assert forall|i: int| 0 <= i < texts.len() implies !(#[trigger] texts[i]).contains('/') by {
        assert(is_shown(pieces[i]));
    }
    split_of_slashed(texts);
    byte_names_are_shown(parse_bytes(bytes).absolute, pieces);
}

proof fn front_is_stripped(text: Seq<char>, c: char)
    ensures
        strip_front(text, c).len() <= text.len(),
        strip_front(text, c).len() > 0 ==> strip_front(text, c)[0] != c,
        forall|d: char| #[trigger] strip_front(text, c).contains(d) ==> text.contains(d),
        forall|d: char| d != c && #[trigger] text.contains(d) ==> strip_front(text, c).contains(d),
    decreases text.len(),
{
    if text.len() > 0 && text[0] == c {
        let rest = text.drop_first();
        front_is_stripped(rest, c);
        assert forall|d: char| #[trigger] strip_front(text, c).contains(d) implies text.contains(
            d,
        ) by {
            let i = choose|i: int| 0 <= i < rest.len() && rest[i] == d;
            assert(text[i + 1] == d);
        }
        assert forall|d: char| d != c && #[trigger] text.contains(d) implies strip_front(
            text,
            c,
        ).contains(d) by {
            let i = choose|i: int| 0 <= i < text.len() && text[i] == d;
            assert(rest[i - 1] == d);
            assert(rest.contains(d));
        }
    }
}

proof fn back_is_stripped(text: Seq<char>, c: char)
    ensures
        strip_back(text, c).len() <= text.len(),
        strip_back(text, c).len() > 0 ==> strip_back(text, c).last() != c && strip_back(
            text,
            c,
        )[0] == text[0],
        forall|d: char| #[trigger] strip_back(text, c).contains(d) ==> text.contains(d),
        forall|d: char| d != c && #[trigger] text.contains(d) ==> strip_back(text, c).contains(d),
    decreases text.len(),
{
    if text.len() > 0 && text.last() == c {
        let rest = text.drop_last();
        back_is_stripped(rest, c);
        assert forall|d: char| #[trigger] strip_back(text, c).contains(d) implies text.contains(
            d,
        ) by {
            let i = choose|i: int| 0 <= i < rest.len() && rest[i] == d;
            assert(text[i] == d);
        }
        assert forall|d: char| d != c && #[trigger] text.contains(d) implies strip_back(
            text,
            c,
        ).contains(d) by {
            let i = choose|i: int| 0 <= i < text.len() && text[i] == d;
            assert(rest[i] == d);
            assert(rest.contains(d));
        }
    }
}

/// The label of a relative path that holds more than separators is its text with slashes for
/// backslashes and none at the ends. It is not empty, and its own label is itself.
pub proof fn labels_keep_their_label(relative: PathView, c: char)
    requires
        relative.text.contains(c),
        c != '/',
        c != '\\',
    ensures
        relative_label(relative) == strip_back(
            strip_front(replaced(relative.text, '\\', '/'), '/'),
            '/',
        ),
        relative_label(relative).len() > 0,
        !relative_label(relative).contains('\\'),
        relative_label(relative)[0] != '/',
        relative_label(relative).last() != '/',
        relative_label(parse(relative_label(relative))) == relative_label(relative),
{
    reveal(relative_label);
    let text = relative.text;
    let slashed = replaced(text, '\\', '/');
    let front = strip_front(slashed, '/');
    let label = strip_back(front, '/');
    front_is_stripped(slashed, '/');
    back_is_stripped(front, '/');
    assert(slashed.contains(c)) by {
        let i = choose|i: int| 0 <= i < text.len() && text[i] == c;
        assert(slashed[i] == c);
    }
    assert(front.contains(c));
    assert(label.contains(c));
    assert(!slashed.contains('\\')) by {
        if slashed.contains('\\') {
            let i = choose|i: int| 0 <= i < slashed.len() && slashed[i] == '\\';
            assert(false);
        }
    }
    assert(!label.contains('\\'));
    assert(replaced(label, '\\', '/') =~= label) by {
        assert forall|i: int| 0 <= i < label.len() implies label[i] != '\\' by {
            if label[i] == '\\' {
                assert(label.contains('\\'));
            }
        }
    }
    assert(strip_front(label, '/') == label);
    assert(strip_back(label, '/') == label);
}

} // verus!

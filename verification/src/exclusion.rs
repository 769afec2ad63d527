//! Which paths are left out of a mount.

use vstd::prelude::*;
use vstd::string::*;

use crate::path::{file_name_text, PathName, PathView, SyncPath};
use crate::text::{
    chars_of, drop_front, join_pieces, replace_char, replaced, same_chars, same_text, slice_chars,
    split, split_chars, strip_front, text_of, views, with_slashes,
};

verus! {

/// `glob::Pattern::new` accepts the pattern.
pub uninterp spec fn valid_glob(pattern: Seq<char>) -> bool;

/// The text matches the pattern by `glob::Pattern::matches`.
pub uninterp spec fn glob_match(pattern: Seq<char>, text: Seq<char>) -> bool;

/// `glob::Pattern::new`: whether a pattern is well formed.
#[verifier::external_body]
fn glob_is_valid(pattern: &str) -> (res: bool)
    ensures
        res == valid_glob(pattern@),
{
    glob::Pattern::new(pattern).is_ok()
}

/// `glob::Pattern::matches`, with the default options: whether a text matches a pattern. A
/// pattern that `glob::Pattern::new` refuses matches nothing.
#[verifier::external_body]
fn glob_matches(pattern: &str, text: &str) -> (res: bool)
    ensures
        res == glob_match(pattern@, text@),
        !valid_glob(pattern@) ==> !res,
{
    match glob::Pattern::new(pattern) {
        Ok(compiled) => compiled.matches(text),
        Err(_) => false,
    }
}

/// The texts of a vector of strings.
pub open spec fn texts(values: Seq<String>) -> Seq<Seq<char>> {
    values.map_values(|s: String| s@)
}

/// The patterns that are well formed, in order.
pub open spec fn valid_patterns(raw: Seq<Seq<char>>) -> Seq<Seq<char>>
    decreases raw.len(),
{
    if raw.len() == 0 {
        Seq::empty()
    } else {
        let front = valid_patterns(raw.drop_last());
        if valid_glob(raw.last()) {
            front.push(raw.last())
        } else {
            front
        }
    }
}

/// Keeps the patterns that are well formed, in order.
pub fn compile_patterns(raw: &Vec<String>) -> (res: Vec<String>)
    ensures
        texts(res@) == valid_patterns(texts(raw@)),
{
    let mut res: Vec<String> = Vec::new();
    let mut i: usize = 0;
    assert(texts(res@) =~= valid_patterns(texts(raw@).take(0)));
    while i < raw.len()
        invariant
            i <= raw.len(),
            texts(res@) == valid_patterns(texts(raw@).take(i as int)),
        decreases raw.len() - i,
    {
        let ghost before = texts(res@);
        proof {
            assert(texts(raw@).take(i + 1).drop_last() =~= texts(raw@).take(i as int));
            assert(texts(raw@).take(i + 1).last() == raw@[i as int]@);
        }
        if glob_is_valid(raw[i].as_str()) {
            res.push(raw[i].clone());
            assert(texts(res@) =~= before.push(raw@[i as int]@));
        }
        i += 1;
    }
    assert(texts(raw@).take(raw@.len() as int) =~= texts(raw@));
    res
}

/// The text after `./` was taken off its start as often as it stands there.
pub open spec fn strip_here(text: Seq<char>) -> Seq<char>
    decreases text.len(),
{
    if text.len() >= 2 && text[0] == '.' && text[1] == '/' {
        strip_here(text.skip(2))
    } else {
        text
    }
}

fn drop_here(chars: &Vec<char>) -> (res: Vec<char>)
    ensures
        res@ == strip_here(chars@),
{
    let mut from: usize = 0;
    assert(chars@.skip(0) =~= chars@);
    while chars.len() - from >= 2 && chars[from] == '.' && chars[from + 1] == '/'
        invariant
            from <= chars.len(),
            strip_here(chars@) == strip_here(chars@.skip(from as int)),
        decreases chars.len() - from,
    {
        assert(chars@.skip(from as int).skip(2) =~= chars@.skip(from + 2));
        from += 2;
    }
    let res = slice_chars(chars, from, chars.len());
    assert(res@ =~= chars@.skip(from as int));
    res
}

/// The pieces that are neither empty nor a single dot.
pub open spec fn real_pieces(pieces: Seq<Seq<char>>) -> Seq<Seq<char>>
    decreases pieces.len(),
{
    if pieces.len() == 0 {
        Seq::empty()
    } else {
        let front = real_pieces(pieces.drop_last());
        if pieces.last().len() == 0 || pieces.last() == "."@ {
            front
        } else {
            front.push(pieces.last())
        }
    }
}

/// Every tail of the pieces, the longest first.
pub open spec fn tails(pieces: Seq<Seq<char>>) -> Seq<Seq<char>> {
    Seq::new(pieces.len(), |i: int| with_slashes(pieces.skip(i)))
}

/// The texts under which a path is looked for among the patterns: the whole of it, the whole
/// without what stands before its first name, and every tail of its names.
pub open spec fn candidates(text: Seq<char>) -> Seq<Seq<char>> {
    let normalized = replaced(text, '\\', '/');
    let trimmed = strip_front(strip_here(normalized), '/');
    let whole = if normalized.len() > 0 {
        seq![normalized]
    } else {
        Seq::empty()
    };
    let bare = if trimmed.len() > 0 && trimmed != normalized {
        seq![trimmed]
    } else {
        Seq::empty()
    };
    whole + bare + tails(real_pieces(split(trimmed, '/')))
}

/// The texts under which a path is looked for among the patterns.
pub fn exclusion_path_candidates(path: &SyncPath) -> (res: Vec<String>)
    ensures
        texts(res@) == candidates(path@.text),
{
    let mut res: Vec<String> = Vec::new();
    let shown = path.display();
    let normalized = replace_char(shown.as_str(), '\\', '/');
    let chars = chars_of(normalized.as_str());
    let ghost full = normalized@;
    let here = drop_here(&chars);
    let trimmed = drop_front(&here, '/');
    let ghost bare = trimmed@;
    let ghost whole_part: Seq<Seq<char>> = if full.len() > 0 {
        seq![full]
    } else {
        Seq::empty()
    };
    let ghost bare_part: Seq<Seq<char>> = if bare.len() > 0 && bare != full {
        seq![bare]
    } else {
        Seq::empty()
    };
    if chars.len() > 0 {
        res.push(normalized);
    }
    assert(texts(res@) =~= whole_part);
    if trimmed.len() > 0 && !same_chars(&trimmed, &chars) {
        let text = text_of(&trimmed);
        res.push(text);
    }
    assert(texts(res@) =~= whole_part + bare_part);
    let pieces = split_chars(&trimmed, '/');
    let mut kept: Vec<Vec<char>> = Vec::new();
    let mut i: usize = 0;
    let ghost all = views(pieces@);
    assert(views(kept@) =~= real_pieces(all.take(0)));
    while i < pieces.len()
        invariant
            i <= pieces.len(),
            all == views(pieces@),
            views(kept@) == real_pieces(all.take(i as int)),
        decreases pieces.len() - i,
    {
        let ghost before = views(kept@);
        proof {
            assert(all.take(i + 1).drop_last() =~= all.take(i as int));
            assert(all.take(i + 1).last() == pieces@[i as int]@);
        }
        let text = text_of(&pieces[i]);
        if pieces[i].len() > 0 && !same_text(text.as_str(), ".") {
            let copy = chars_of(text.as_str());
            kept.push(copy);
            assert(views(kept@) =~= before.push(pieces@[i as int]@));
        }
        i += 1;
    }
    assert(all.take(all.len() as int) =~= all);
    let ghost names = views(kept@);
    let ghost head = texts(res@);
    let mut k: usize = 0;
    assert(texts(res@) =~= head + tails(names).take(0));
    while k < kept.len()
        invariant
            k <= kept.len(),
            names == views(kept@),
            texts(res@) == head + tails(names).take(k as int),
        decreases kept.len() - k,
    {
        let ghost before = texts(res@);
        let tail = join_pieces(&kept, k, kept.len());
        assert(names.subrange(k as int, names.len() as int) =~= names.skip(k as int));
        let ghost t = tail@;
        res.push(tail);
        proof {
            assert(texts(res@) =~= before.push(t));
            assert(tails(names).take(k + 1) =~= tails(names).take(k as int).push(t));
            assert(texts(res@) =~= head + tails(names).take(k + 1));
        }
        k += 1;
    }
    assert(tails(names).take(names.len() as int) =~= tails(names));
    assert(texts(res@) =~= candidates(path@.text));
    res
}

/// Every name of the path is text.
pub open spec fn all_text(path: PathView) -> bool {
    forall|i: int| 0 <= i < path.names.len() ==> #[trigger] path.names[i] is Text
}

/// The texts that are held against each pattern to see whether a path is left out.
pub open spec fn exclusion_texts(path: PathView) -> Seq<Seq<char>> {
    let whole = if all_text(path) {
        seq![path.text]
    } else {
        Seq::empty()
    };
    let own = match file_name_text(path) {
        Some(name) => seq![name],
        None => Seq::empty(),
    };
    whole + candidates(path.text) + own
}

/// The texts that are held against each pattern to see whether a path is left out.
pub fn texts_to_match(path: &SyncPath) -> (res: Vec<String>)
    ensures
        texts(res@) == exclusion_texts(path@),
{
    let mut text_only = true;
    let mut i: usize = 0;
    while i < path.name_count()
        invariant
            i <= path@.names.len(),
            text_only == (forall|k: int| 0 <= k < i ==> #[trigger] path@.names[k] is Text),
        decreases path@.names.len() - i,
    {
        match path.name(i) {
            PathName::Text(_) => {},
            PathName::Raw(_) => {
                text_only = false;
            },
        }
        i += 1;
    }
    let mut res: Vec<String> = Vec::new();
    let ghost whole: Seq<Seq<char>> = if all_text(path@) {
        seq![path@.text]
    } else {
        Seq::empty()
    };
    if text_only {
        let shown = path.display();
        res.push(shown);
    }
    assert(texts(res@) =~= whole);
    let mut more = exclusion_path_candidates(path);
    let ghost a = res@;
    let ghost b = more@;
    res.append(&mut more);
    assert(texts(res@) =~= texts(a) + texts(b));
    let ghost before = texts(res@);
    match path.file_name_text() {
        Some(name) => {
            let ghost n = name@;
            res.push(name);
            assert(texts(res@) =~= before + seq![n]);
        },
        None => {
            assert(before =~= before + Seq::<Seq<char>>::empty());
        },
    }
    res
}

/// Some text matches the pattern.
pub open spec fn any_text_matches(pattern: Seq<char>, tested: Seq<Seq<char>>) -> bool {
    exists|j: int| 0 <= j < tested.len() && #[trigger] glob_match(pattern, tested[j])
}

/// The path is left out by one of the patterns.
pub open spec fn excluded(patterns: Seq<Seq<char>>, path: PathView) -> bool {
    exists|i: int|
        0 <= i < patterns.len() && #[trigger] any_text_matches(patterns[i], exclusion_texts(path))
}

fn matches_any(pattern: &str, tested: &Vec<String>) -> (res: bool)
    ensures
        res == any_text_matches(pattern@, texts(tested@)),
{
    let mut j: usize = 0;
    while j < tested.len()
        invariant
            j <= tested.len(),
            forall|k: int| 0 <= k < j ==> !#[trigger] glob_match(pattern@, texts(tested@)[k]),
        decreases tested.len() - j,
    {
        assert(texts(tested@)[j as int] == tested@[j as int]@);
        if glob_matches(pattern, tested[j].as_str()) {
            return true;
        }
        j += 1;
    }
    false
}

/// Whether a path is left out by one of the patterns.
pub fn path_matches_exclusion_patterns(patterns: &Vec<String>, path: &SyncPath) -> (res: bool)
    ensures
        res == excluded(texts(patterns@), path@),
{
    let tested = texts_to_match(path);
    let mut i: usize = 0;
    while i < patterns.len()
        invariant
            i <= patterns.len(),
            texts(tested@) == exclusion_texts(path@),
            forall|k: int|
                0 <= k < i ==> !#[trigger] any_text_matches(
                    texts(patterns@)[k],
                    exclusion_texts(path@),
                ),
        decreases patterns.len() - i,
    {
        assert(texts(patterns@)[i as int] == patterns@[i as int]@);
        if matches_any(patterns[i].as_str(), &tested) {
            return true;
        }
        i += 1;
    }
    false
}

} // verus!

//! Text as a sequence of characters: searching, trimming, measuring and
//! formatting, each with an exact contract.

use vstd::prelude::*;
use vstd::string::*;

verus! {

/// `String::push` appends one character.
pub assume_specification[ String::push ](text: &mut String, c: char)
    ensures
        final(text)@ == old(text)@.push(c),
;

/// The characters of a text, in order.
pub fn chars_of(text: &str) -> (res: Vec<char>)
    ensures
        res@ == text@,
{
    let mut res: Vec<char> = Vec::new();
    for c in iter: text.chars()
        invariant
            iter.seq() == text@,
            res@ == text@.take(iter.index() as int),
    {
        assert(text@.take(iter.index() as int + 1) =~= text@.take(iter.index() as int).push(c));
        res.push(c);
    }
    assert(text@.take(text@.len() as int) =~= text@);
    res
}

/// The text made of the given characters.
pub fn text_of(chars: &Vec<char>) -> (res: String)
    ensures
        res@ == chars@,
{
    let mut res = String::new();
    let mut i: usize = 0;
    while i < chars.len()
        invariant
            i <= chars.len(),
            res@ == chars@.take(i as int),
        decreases chars.len() - i,
    {
        assert(chars@.take(i as int + 1) =~= chars@.take(i as int).push(chars@[i as int]));
        res.push(chars[i]);
        i += 1;
    }
    assert(chars@.take(chars@.len() as int) =~= chars@);
    res
}

/// Whether two texts hold the same characters.
pub fn same_text(a: &str, b: &str) -> (res: bool)
    ensures
        res == (a@ == b@),
{
    let x = chars_of(a);
    let y = chars_of(b);
    same_chars(&x, &y)
}

/// Whether two character vectors are equal.
pub fn same_chars(a: &Vec<char>, b: &Vec<char>) -> (res: bool)
    ensures
        res == (a@ == b@),
{
    if a.len() != b.len() {
        return false;
    }
    let res = matches_at(a, b, 0);
    assert(a@.subrange(0, a@.len() as int) =~= a@);
    res
}

/// `pattern` occurs in `text` at position `at`.
pub open spec fn match_at(text: Seq<char>, pattern: Seq<char>, at: int) -> bool {
    0 <= at && at + pattern.len() <= text.len() && text.subrange(at, at + pattern.len()) == pattern
}

/// `pattern` occurs somewhere in `text`.
pub open spec fn contains_text(text: Seq<char>, pattern: Seq<char>) -> bool {
    exists|at: int| #[trigger] match_at(text, pattern, at)
}

/// Whether `pattern` occurs in `text` at position `at`.
pub fn matches_at(text: &Vec<char>, pattern: &Vec<char>, at: usize) -> (res: bool)
    ensures
        res == match_at(text@, pattern@, at as int),
{
    if at > text.len() || pattern.len() > text.len() - at {
        return false;
    }
    let mut i: usize = 0;
    while i < pattern.len()
        invariant
            i <= pattern.len(),
            at + pattern.len() <= text.len(),
            forall|k: int| 0 <= k < i ==> text@[at + k] == pattern@[k],
        decreases pattern.len() - i,
    {
        if text[at + i] != pattern[i] {
            assert(text@.subrange(at as int, at + pattern.len())[i as int] == text@[at + i]);
            return false;
        }
        i += 1;
    }
    assert(text@.subrange(at as int, at + pattern.len()) =~= pattern@);
    true
}

/// The position of the last occurrence of `pattern` that starts at or before `from`.
pub open spec fn last_match_from(text: Seq<char>, pattern: Seq<char>, from: int) -> Option<int>
    decreases from + 1,
{
    if from < 0 {
        None
    } else if match_at(text, pattern, from) {
        Some(from)
    } else {
        last_match_from(text, pattern, from - 1)
    }
}

/// The position of the last occurrence of `pattern` in `text`, if there is one.
pub open spec fn last_match(text: Seq<char>, pattern: Seq<char>) -> Option<int> {
    last_match_from(text, pattern, text.len() - pattern.len())
}

/// The last occurrence is an occurrence, and none starts after it.
pub proof fn last_match_from_is_last(text: Seq<char>, pattern: Seq<char>, from: int)
    ensures
        match last_match_from(text, pattern, from) {
            Some(at) => match_at(text, pattern, at) && at <= from && forall|j: int|
                at < j <= from ==> !match_at(text, pattern, j),
            None => forall|j: int| j <= from ==> !match_at(text, pattern, j),
        },
    decreases from + 1,
{
    if from >= 0 && !match_at(text, pattern, from) {
        last_match_from_is_last(text, pattern, from - 1);
    }
}

/// An occurrence that no other follows is the last occurrence.
pub proof fn last_match_is_unique(text: Seq<char>, pattern: Seq<char>, at: int)
    requires
        match_at(text, pattern, at),
        forall|j: int| at < j ==> !match_at(text, pattern, j),
    ensures
        last_match(text, pattern) == Some(at),
{
    last_match_from_is_last(text, pattern, text.len() - pattern.len());
}

/// Finds the last occurrence of `pattern` in `text`.
pub fn find_last(text: &Vec<char>, pattern: &Vec<char>) -> (res: Option<usize>)
    ensures
        match res {
            Some(at) => last_match(text@, pattern@) == Some(at as int) && at + pattern@.len()
                <= text@.len(),
            None => last_match(text@, pattern@) is None,
        },
{
    if pattern.len() > text.len() {
        return None;
    }
    let mut at: usize = text.len() - pattern.len();
    loop
        invariant
            at + pattern.len() <= text.len(),
            last_match(text@, pattern@) == last_match_from(text@, pattern@, at as int),
        decreases at,
    {
        if matches_at(text, pattern, at) {
            return Some(at);
        }
        if at == 0 {
            assert(last_match_from(text@, pattern@, -1) is None);
            return None;
        }
        at -= 1;
    }
}

/// Whether `pattern` occurs in `text`.
pub fn has_text(text: &Vec<char>, pattern: &str) -> (res: bool)
    ensures
        res == contains_text(text@, pattern@),
{
    let wanted = chars_of(pattern);
    let mut at: usize = 0;
    while at <= text.len()
        invariant
            at <= text.len() + 1,
            wanted@ == pattern@,
            forall|j: int| 0 <= j < at ==> !match_at(text@, pattern@, j),
        decreases text.len() + 1 - at,
    {
        if matches_at(text, &wanted, at) {
            return true;
        }
        if at == text.len() {
            return false;
        }
        at += 1;
    }
    false
}

/// Whether `text` begins with `prefix`.
pub fn begins_with(text: &Vec<char>, prefix: &str) -> (res: bool)
    ensures
        res == prefix@.is_prefix_of(text@),
{
    let prefix = chars_of(prefix);
    matches_at(text, &prefix, 0)
}

/// Whether `text` ends with `suffix`.
pub fn finishes_with(text: &Vec<char>, suffix: &str) -> (res: bool)
    ensures
        res == suffix@.is_suffix_of(text@),
{
    let suffix = chars_of(suffix);
    if suffix.len() > text.len() {
        return false;
    }
    let at: usize = text.len() - suffix.len();
    matches_at(text, &suffix, at)
}

/// The characters of `text` from `from` up to, not including, `to`.
pub fn slice_chars(text: &Vec<char>, from: usize, to: usize) -> (res: Vec<char>)
    requires
        from <= to <= text@.len(),
    ensures
        res@ == text@.subrange(from as int, to as int),
{
    let mut res: Vec<char> = Vec::new();
    let mut i: usize = from;
    while i < to
        invariant
            from <= i <= to <= text.len(),
            res@ == text@.subrange(from as int, i as int),
        decreases to - i,
    {
        assert(text@.subrange(from as int, i + 1) =~= text@.subrange(from as int, i as int).push(
            text@[i as int],
        ));
        res.push(text[i]);
        i += 1;
    }
    res
}

/// The text with the ASCII capital letters made small.
pub open spec fn ascii_lower(text: Seq<char>) -> Seq<char> {
    text.map_values(|c: char| ascii_lower_char(c))
}

/// An ASCII capital letter made small; any other character unchanged.
pub open spec fn ascii_lower_char(c: char) -> char {
    if 'A' <= c <= 'Z' {
        (c as u32 + 32) as char
    } else {
        c
    }
}

/// Makes an ASCII capital letter small.
pub fn lower_ascii_char(c: char) -> (res: char)
    ensures
        res == ascii_lower_char(c),
{
    if 'A' <= c && c <= 'Z' {
        let code: u8 = c as u8;
        (code + 32) as char
    } else {
        c
    }
}

/// Makes the ASCII capital letters of a text small.
pub fn lower_ascii(text: &str) -> (res: Vec<char>)
    ensures
        res@ == ascii_lower(text@),
{
    let chars = chars_of(text);
    let mut res: Vec<char> = Vec::new();
    let mut i: usize = 0;
    while i < chars.len()
        invariant
            i <= chars.len(),
            chars@ == text@,
            res@ == ascii_lower(text@.take(i as int)),
        decreases chars.len() - i,
    {
        let c = lower_ascii_char(chars[i]);
        assert(ascii_lower(text@.take(i + 1)) =~= ascii_lower(text@.take(i as int)).push(
            ascii_lower_char(text@[i as int]),
        ));
        res.push(c);
        i += 1;
    }
    assert(text@.take(text@.len() as int) =~= text@);
    res
}

/// The characters with the Unicode `White_Space` property.
pub open spec fn is_white_space(c: char) -> bool {
    let n = c as u32;
    ||| 0x9 <= n <= 0xd
    ||| n == 0x20
    ||| n == 0x85
    ||| n == 0xa0
    ||| n == 0x1680
    ||| 0x2000 <= n <= 0x200a
    ||| n == 0x2028
    ||| n == 0x2029
    ||| n == 0x202f
    ||| n == 0x205f
    ||| n == 0x3000
}

/// Whether a character is white space.
pub fn white_space(c: char) -> (res: bool)
    ensures
        res == is_white_space(c),
{
    let n: u32 = c as u32;
    (0x9 <= n && n <= 0xd) || n == 0x20 || n == 0x85 || n == 0xa0 || n == 0x1680 || (0x2000 <= n
        && n <= 0x200a) || n == 0x2028 || n == 0x2029 || n == 0x202f || n == 0x205f || n == 0x3000
}

/// The text without the white space at its start.
pub open spec fn trim_start(text: Seq<char>) -> Seq<char>
    decreases text.len(),
{
    if text.len() > 0 && is_white_space(text[0]) {
        trim_start(text.drop_first())
    } else {
        text
    }
}

/// The text without the white space at its end.
pub open spec fn trim_end(text: Seq<char>) -> Seq<char>
    decreases text.len(),
{
    if text.len() > 0 && is_white_space(text.last()) {
        trim_end(text.drop_last())
    } else {
        text
    }
}

/// The text without the white space at both ends.
pub open spec fn trim(text: Seq<char>) -> Seq<char> {
    trim_end(trim_start(text))
}

/// Removes the white space at both ends of a text.
pub fn trim_text(text: &str) -> (res: String)
    ensures
        res@ == trim(text@),
{
    let chars = chars_of(text);
    let mut from: usize = 0;
    assert(chars@.subrange(0, chars@.len() as int) =~= chars@);
    while from < chars.len() && white_space(chars[from])
        invariant
            from <= chars.len(),
            trim_start(chars@) == trim_start(chars@.subrange(from as int, chars@.len() as int)),
        decreases chars.len() - from,
    {
        assert(chars@.subrange(from as int, chars@.len() as int).drop_first() =~= chars@.subrange(
            from + 1,
            chars@.len() as int,
        ));
        from += 1;
    }
    let mut to: usize = chars.len();
    assert(trim_start(chars@) == chars@.subrange(from as int, to as int));
    while to > from && white_space(chars[to - 1])
        invariant
            from <= to <= chars.len(),
            trim(chars@) == trim_end(chars@.subrange(from as int, to as int)),
        decreases to,
    {
        assert(chars@.subrange(from as int, to as int).drop_last() =~= chars@.subrange(
            from as int,
            to - 1,
        ));
        to -= 1;
    }
    let kept = slice_chars(&chars, from, to);
    text_of(&kept)
}

/// The text holds nothing but white space.
pub open spec fn is_blank(text: Seq<char>) -> bool {
    forall|i: int| 0 <= i < text.len() ==> is_white_space(#[trigger] text[i])
}

/// A text is blank exactly if trimming leaves nothing.
pub proof fn blank_iff_trim_empty(text: Seq<char>)
    ensures
        is_blank(text) == (trim(text).len() == 0),
{
    trim_start_keeps_ink(text);
    trim_end_keeps_ink(trim_start(text));
}

proof fn trim_start_keeps_ink(text: Seq<char>)
    ensures
        is_blank(text) == is_blank(trim_start(text)),
        is_blank(trim_start(text)) == (trim_start(text).len() == 0),
    decreases text.len(),
{
    if text.len() > 0 {
        if is_white_space(text[0]) {
            let rest = text.drop_first();
            trim_start_keeps_ink(rest);
            if is_blank(rest) {
                assert forall|i: int| 0 <= i < text.len() implies is_white_space(
                    #[trigger] text[i],
                ) by {
                    if i > 0 {
                        assert(rest[i - 1] == text[i]);
                    }
                }
            }
            if is_blank(text) {
                assert forall|i: int| 0 <= i < rest.len() implies is_white_space(
                    #[trigger] rest[i],
                ) by {
                    assert(rest[i] == text[i + 1]);
                }
            }
        } else {
            assert(!is_blank(text));
        }
    }
}

proof fn trim_end_keeps_ink(text: Seq<char>)
    ensures
        is_blank(text) == (trim_end(text).len() == 0),
    decreases text.len(),
{
    if text.len() > 0 {
        if is_white_space(text.last()) {
            let rest = text.drop_last();
            trim_end_keeps_ink(rest);
            if is_blank(rest) {
                assert forall|i: int| 0 <= i < text.len() implies is_white_space(
                    #[trigger] text[i],
                ) by {
                    if i < rest.len() {
                        assert(rest[i] == text[i]);
                    }
                }
            }
            if is_blank(text) {
                assert forall|i: int| 0 <= i < rest.len() implies is_white_space(
                    #[trigger] rest[i],
                ) by {
                    assert(rest[i] == text[i]);
                }
            }
        } else {
            assert(!is_white_space(text[text.len() - 1]));
            assert(!is_blank(text));
        }
    }
}

/// Whether a text holds nothing but white space.
pub fn blank(text: &str) -> (res: bool)
    ensures
        res == is_blank(text@),
{
    let trimmed = trim_text(text);
    proof {
        blank_iff_trim_empty(text@);
    }
    trimmed.unicode_len() == 0
}

/// The decimal digit for a number below ten.
pub open spec fn digit_char(d: int) -> char {
    (48 + d) as char
}

/// A number in decimal.
pub open spec fn decimal(n: nat) -> Seq<char>
    decreases n,
{
    if n < 10 {
        seq![digit_char(n as int)]
    } else {
        decimal(n / 10).push(digit_char((n % 10) as int))
    }
}

/// Writes a number in decimal.
pub fn decimal_text(n: u64) -> (res: String)
    ensures
        res@ == decimal(n as nat),
    decreases n,
{
    let d: u8 = (n % 10) as u8;
    let c: char = (48 + d) as char;
    if n < 10 {
        let mut res = String::new();
        res.push(c);
        assert(res@ =~= decimal(n as nat));
        res
    } else {
        let mut res = decimal_text(n / 10);
        res.push(c);
        res
    }
}

/// The number of bytes of a character in UTF-8.
pub open spec fn char_bytes(c: char) -> nat {
    let n = c as u32;
    if n <= 0x7f {
        1
    } else if n <= 0x7ff {
        2
    } else if n <= 0xffff {
        3
    } else {
        4
    }
}

/// The number of bytes of a text in UTF-8.
pub open spec fn text_bytes(text: Seq<char>) -> nat
    decreases text.len(),
{
    if text.len() == 0 {
        0
    } else {
        text_bytes(text.drop_last()) + char_bytes(text.last())
    }
}

/// A longer prefix has at least as many bytes, and each character has at least one.
pub proof fn prefix_bytes_grow(text: Seq<char>, a: int, b: int)
    requires
        0 <= a <= b <= text.len(),
    ensures
        text_bytes(text.take(a)) + (b - a) <= text_bytes(text.take(b)),
        text_bytes(text.take(b)) <= text_bytes(text.take(a)) + 4 * (b - a),
    decreases b - a,
{
    if a < b {
        prefix_bytes_grow(text, a, b - 1);
        assert(text.take(b).drop_last() =~= text.take(b - 1));
    }
}

/// The longest prefix of `text` with at most `limit` bytes, as a number of characters, among
/// the prefixes of at most `upto` characters.
pub open spec fn fitting_from(text: Seq<char>, limit: nat, upto: int) -> int
    decreases upto,
{
    if upto <= 0 || text_bytes(text.take(upto)) <= limit {
        if upto < 0 { 0 } else { upto }
    } else {
        fitting_from(text, limit, upto - 1)
    }
}

/// The longest prefix of `text` that fits in `limit` bytes.
pub open spec fn fitting_prefix(text: Seq<char>, limit: nat) -> Seq<char> {
    text.take(fitting_from(text, limit, text.len() as int))
}

/// What fits is a prefix of at most `limit` bytes, and one more character would not fit.
pub proof fn fitting_from_fits(text: Seq<char>, limit: nat, upto: int)
    requires
        0 <= upto <= text.len(),
    ensures
        0 <= fitting_from(text, limit, upto) <= upto,
        text_bytes(text.take(fitting_from(text, limit, upto))) <= limit,
        forall|k: int|
            fitting_from(text, limit, upto) < k <= upto ==> text_bytes(
                #[trigger] text.take(k),
            ) > limit,
    decreases upto,
{
    if upto > 0 && text_bytes(text.take(upto)) > limit {
        fitting_from_fits(text, limit, upto - 1);
    } else if upto == 0 {
        assert(text.take(0).len() == 0);
    }
}

/// The number of bytes of a text, where a `usize` can hold it.
pub fn byte_length(chars: &Vec<char>) -> (res: Option<usize>)
    ensures
        match res {
            Some(n) => n == text_bytes(chars@),
            None => text_bytes(chars@) > usize::MAX,
        },
{
    let mut total: usize = 0;
    let mut i: usize = 0;
    while i < chars.len()
        invariant
            i <= chars.len(),
            total == text_bytes(chars@.take(i as int)),
        decreases chars.len() - i,
    {
        let w: usize = width(chars[i]);
        assert(chars@.take(i + 1).drop_last() =~= chars@.take(i as int));
        if total > usize::MAX - w {
            proof {
                prefix_bytes_grow(chars@, i + 1, chars@.len() as int);
                assert(chars@.take(chars@.len() as int) =~= chars@);
            }
            return None;
        }
        total += w;
        i += 1;
    }
    assert(chars@.take(chars@.len() as int) =~= chars@);
    Some(total)
}

/// The number of bytes of a character.
pub fn width(c: char) -> (res: usize)
    ensures
        res == char_bytes(c),
{
    let n: u32 = c as u32;
    if n <= 0x7f {
        1
    } else if n <= 0x7ff {
        2
    } else if n <= 0xffff {
        3
    } else {
        4
    }
}

/// The longest prefix of a text that fits in `limit` bytes.
pub fn fit_bytes(chars: &Vec<char>, limit: usize) -> (res: Vec<char>)
    ensures
        res@ == fitting_prefix(chars@, limit as nat),
{
    let mut total: usize = 0;
    let mut i: usize = 0;
    let ghost n = chars@.len() as int;
    while i < chars.len()
        invariant
            i <= chars.len(),
            n == chars@.len(),
            total == text_bytes(chars@.take(i as int)),
            total <= limit,
        decreases chars.len() - i,
    {
        let w: usize = width(chars[i]);
        assert(chars@.take(i + 1).drop_last() =~= chars@.take(i as int));
        if w > limit - total {
            proof {
                fitting_from_fits(chars@, limit as nat, n);
                let k = fitting_from(chars@, limit as nat, n);
                if k > i {
                    prefix_bytes_grow(chars@, i + 1, k);
                    assert(false);
                }
                if k < i {
                    assert(text_bytes(chars@.take(i as int)) > limit);
                }
            }
            return slice_chars(chars, 0, i);
        }
        total += w;
        i += 1;
    }
    proof {
        assert(fitting_from(chars@, limit as nat, n) == n);
    }
    slice_chars(chars, 0, chars.len())
}

/// The text with every `from` replaced by `to`.
pub open spec fn replaced(text: Seq<char>, from: char, to: char) -> Seq<char> {
    text.map_values(|c: char| if c == from { to } else { c })
}

/// Replaces one character by another throughout a text.
pub fn replace_char(text: &str, from: char, to: char) -> (res: String)
    ensures
        res@ == replaced(text@, from, to),
{
    let chars = chars_of(text);
    let mut res = String::new();
    let mut i: usize = 0;
    while i < chars.len()
        invariant
            i <= chars.len(),
            chars@ == text@,
            res@ == replaced(text@.take(i as int), from, to),
        decreases chars.len() - i,
    {
        let c = if chars[i] == from { to } else { chars[i] };
        assert(replaced(text@.take(i + 1), from, to) =~= replaced(text@.take(i as int), from, to).push(c));
        res.push(c);
        i += 1;
    }
    assert(text@.take(text@.len() as int) =~= text@);
    res
}

/// The pieces of a text between the occurrences of `sep`: always at least one.
pub open spec fn split(text: Seq<char>, sep: char) -> Seq<Seq<char>>
    decreases text.len(),
{
    if text.len() == 0 {
        seq![Seq::empty()]
    } else {
        let front = split(text.drop_last(), sep);
        if text.last() == sep {
            front.push(Seq::empty())
        } else {
            front.update(front.len() - 1, front.last().push(text.last()))
        }
    }
}

/// A text has at least one piece.
pub proof fn split_has_a_piece(text: Seq<char>, sep: char)
    ensures
        split(text, sep).len() >= 1,
    decreases text.len(),
{
    if text.len() > 0 {
        split_has_a_piece(text.drop_last(), sep);
    }
}

/// The texts that the vectors of characters hold.
pub open spec fn views(pieces: Seq<Vec<char>>) -> Seq<Seq<char>> {
    pieces.map_values(|p: Vec<char>| p@)
}

/// Splits a text at each occurrence of a character.
pub fn split_chars(chars: &Vec<char>, sep: char) -> (res: Vec<Vec<char>>)
    ensures
        views(res@) == split(chars@, sep),
        res@.len() >= 1,
{
    let mut res: Vec<Vec<char>> = Vec::new();
    let mut current: Vec<char> = Vec::new();
    let mut i: usize = 0;
    assert(views(res@).push(current@) =~= split(chars@.take(0), sep));
    while i < chars.len()
        invariant
            i <= chars.len(),
            views(res@).push(current@) == split(chars@.take(i as int), sep),
        decreases chars.len() - i,
    {
        let ghost t = chars@.take(i + 1);
        let ghost front = split(chars@.take(i as int), sep);
        assert(t.drop_last() =~= chars@.take(i as int));
        let ghost done = views(res@);
        let ghost cur = current@;
        let c = chars[i];
        if c == sep {
            res.push(current);
            current = Vec::new();
            assert(views(res@) =~= done.push(cur));
            assert(views(res@).push(current@) =~= split(t, sep));
        } else {
            current.push(c);
            assert(done.push(current@) =~= front.update(front.len() - 1, front.last().push(c)));
        }
        i += 1;
    }
    let ghost done = views(res@);
    let ghost cur = current@;
    res.push(current);
    assert(views(res@) =~= done.push(cur));
    assert(chars@.take(chars@.len() as int) =~= chars@);
    res
}

/// Pieces with a slash between each two.
pub open spec fn with_slashes(pieces: Seq<Seq<char>>) -> Seq<char>
    decreases pieces.len(),
{
    if pieces.len() == 0 {
        Seq::empty()
    } else if pieces.len() == 1 {
        pieces[0]
    } else {
        pieces[0] + "/"@ + with_slashes(pieces.drop_first())
    }
}

/// Joins the pieces from one position to another, with a slash between each two.
pub fn join_pieces(pieces: &Vec<Vec<char>>, from: usize, to: usize) -> (res: String)
    requires
        from <= to <= pieces@.len(),
    ensures
        res@ == with_slashes(views(pieces@).subrange(from as int, to as int)),
    decreases to - from,
{
    let ghost rest = views(pieces@).subrange(from as int, to as int);
    if from == to {
        return String::new();
    }
    let head = text_of(&pieces[from]);
    assert(rest[0] == pieces@[from as int]@);
    if to - from == 1 {
        return head;
    }
    let tail = join_pieces(pieces, from + 1, to);
    assert(rest.drop_first() =~= views(pieces@).subrange(from + 1, to as int));
    let mut res = head;
    res.append("/");
    res.append(tail.as_str());
    res
}

/// Splits a text in two pieces at the first occurrence of a character, and gives the first.
pub fn first_piece(text: &str, sep: char) -> (res: String)
    ensures
        res@ == split(text@, sep)[0],
{
    let chars = chars_of(text);
    let pieces = split_chars(&chars, sep);
    assert(views(pieces@)[0] == pieces@[0]@);
    text_of(&pieces[0])
}

/// The text after the character `c` was taken off its start as often as it stands there.
pub open spec fn strip_front(text: Seq<char>, c: char) -> Seq<char>
    decreases text.len(),
{
    if text.len() > 0 && text[0] == c {
        strip_front(text.drop_first(), c)
    } else {
        text
    }
}

/// The text after the character `c` was taken off its end as often as it stands there.
pub open spec fn strip_back(text: Seq<char>, c: char) -> Seq<char>
    decreases text.len(),
{
    if text.len() > 0 && text.last() == c {
        strip_back(text.drop_last(), c)
    } else {
        text
    }
}

/// Takes a character off the start of a text as often as it stands there.
pub fn drop_front(chars: &Vec<char>, c: char) -> (res: Vec<char>)
    ensures
        res@ == strip_front(chars@, c),
{
    let mut from: usize = 0;
    assert(chars@.subrange(0, chars@.len() as int) =~= chars@);
    while from < chars.len() && chars[from] == c
        invariant
            from <= chars.len(),
            strip_front(chars@, c) == strip_front(
                chars@.subrange(from as int, chars@.len() as int),
                c,
            ),
        decreases chars.len() - from,
    {
        assert(chars@.subrange(from as int, chars@.len() as int).drop_first() =~= chars@.subrange(
            from + 1,
            chars@.len() as int,
        ));
        from += 1;
    }
    slice_chars(chars, from, chars.len())
}

/// Takes a character off the end of a text as often as it stands there.
pub fn drop_back(chars: &Vec<char>, c: char) -> (res: Vec<char>)
    ensures
        res@ == strip_back(chars@, c),
{
    let mut to: usize = chars.len();
    assert(chars@.subrange(0, chars@.len() as int) =~= chars@);
    while to > 0 && chars[to - 1] == c
        invariant
            to <= chars.len(),
            strip_back(chars@, c) == strip_back(chars@.subrange(0, to as int), c),
        decreases to,
    {
        assert(chars@.subrange(0, to as int).drop_last() =~= chars@.subrange(0, to - 1));
        to -= 1;
    }
    slice_chars(chars, 0, to)
}

/// The text of several pieces one after another.
pub fn concat2(a: &str, b: &str) -> (res: String)
    ensures
        res@ == a@ + b@,
{
    let mut res = a.to_owned();
    res.append(b);
    res
}

/// The text of three pieces one after another.
pub fn concat3(a: &str, b: &str, c: &str) -> (res: String)
    ensures
        res@ == a@ + b@ + c@,
{
    let mut res = a.to_owned();
    res.append(b);
    res.append(c);
    res
}

/// A number in decimal, with a minus sign where it is negative.
pub open spec fn signed_decimal(n: int) -> Seq<char> {
    if n < 0 {
        "-"@ + decimal((-n) as nat)
    } else {
        decimal(n as nat)
    }
}

/// Writes a number in decimal, with a minus sign where it is negative.
pub fn signed_decimal_text(n: i32) -> (res: String)
    ensures
        res@ == signed_decimal(n as int),
{
    if n < 0 {
        let size: i64 = -(n as i64);
        let digits = decimal_text(size as u64);
        concat2("-", digits.as_str())
    } else {
        decimal_text(n as u64)
    }
}

} // verus!

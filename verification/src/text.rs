//! Text as sequences of characters: the operations that settings, credentials
//! and queries go through.

use vstd::prelude::*;
use vstd::string::StrSliceExecFns;
use vstd::utf8::{decode_utf8, valid_utf8};

verus! {

/// Whether `part` stands somewhere in `text` as a run of neighbouring characters.
pub open spec fn occurs(text: Seq<char>, part: Seq<char>) -> bool {
    exists|i: int|
        0 <= i && i + part.len() <= text.len() && #[trigger] text.subrange(i, i + part.len())
            == part
}

/// The characters with the Unicode property White_Space.
pub open spec fn is_blank(c: char) -> bool {
    ||| 0x9 <= c as u32 <= 0xd
    ||| c as u32 == 0x20
    ||| c as u32 == 0x85
    ||| c as u32 == 0xa0
    ||| c as u32 == 0x1680
    ||| 0x2000 <= c as u32 <= 0x200a
    ||| c as u32 == 0x2028
    ||| c as u32 == 0x2029
    ||| c as u32 == 0x202f
    ||| c as u32 == 0x205f
    ||| c as u32 == 0x3000
}

/// `text` without the blanks that it begins with.
pub open spec fn trimmed_start(text: Seq<char>) -> Seq<char>
    decreases text.len(),
{
    if text.len() > 0 && is_blank(text.first()) {
        trimmed_start(text.drop_first())
    } else {
        text
    }
}

/// `text` without the blanks that it ends with.
pub open spec fn trimmed_end(text: Seq<char>) -> Seq<char>
    decreases text.len(),
{
    if text.len() > 0 && is_blank(text.last()) {
        trimmed_end(text.drop_last())
    } else {
        text
    }
}

/// `text` without the blanks at both ends.
pub open spec fn trimmed(text: Seq<char>) -> Seq<char> {
    trimmed_end(trimmed_start(text))
}

/// The pieces of `text` between the separators: one more than there are
/// separators, empty ones among them.
pub open spec fn split(text: Seq<char>, separator: char) -> Seq<Seq<char>>
    decreases text.len(),
{
    if text.len() == 0 {
        seq![text]
    } else {
        let before = split(text.drop_last(), separator);
        if text.last() == separator {
            before.push(Seq::empty())
        } else {
            before.drop_last().push(before.last().push(text.last()))
        }
    }
}

/// The first `count` characters of `text`, or all of it where it has fewer.
pub open spec fn first_chars(text: Seq<char>, count: nat) -> Seq<char> {
    if text.len() <= count {
        text
    } else {
        text.take(count as int)
    }
}

/// What Rust's `Debug` writes for `text`: quoted, with escapes.
pub uninterp spec fn debug_text(text: Seq<char>) -> Seq<char>;

/// What `String::from_utf8_lossy` makes of `octets`.
pub uninterp spec fn lossy_text(octets: Seq<u8>) -> Seq<char>;

/// `str`'s `==`: the two hold the same characters.
pub assume_specification[ <str as PartialEq>::eq ](text: &str, other: &str) -> (r: bool)
    ensures
        r == (text@ == other@),
;

/// `str::trim`: the text without leading and trailing White_Space characters.
pub assume_specification[ str::trim ](text: &str) -> (r: &str)
    ensures
        r@ == trimmed(text@),
;

/// `String::push`: the character is appended.
pub assume_specification[ String::push ](text: &mut String, c: char)
    ensures
        final(text)@ == old(text)@.push(c),
;

/// `str::contains` with a string pattern: whether the pattern matches a
/// sub-slice of the text.
#[verifier::external_body]
pub(crate) fn contains(text: &str, part: &str) -> (r: bool)
    ensures
        r == occurs(text@, part@),
{
    text.contains(part)
}

/// `str::starts_with` with a string pattern: whether the text begins with it.
#[verifier::external_body]
pub(crate) fn starts_with(text: &str, prefix: &str) -> (r: bool)
    ensures
        r == prefix@.is_prefix_of(text@),
{
    text.starts_with(prefix)
}

/// Rust's `Debug` of a `str`. Only that the result is a function of the text
/// is claimed.
#[verifier::external_body]
pub(crate) fn quoted(text: &str) -> (r: String)
    ensures
        r@ == debug_text(text@),
{
    format!("{text:?}")
}

/// `String::from_utf8_lossy`: octets that are UTF-8 come back as the text that
/// they encode. What stands for other octets is a function of the octets, of
/// which no more is claimed.
#[verifier::external_body]
pub(crate) fn from_utf8_lossy(octets: &[u8]) -> (r: String)
    ensures
        r@ == lossy_text(octets@),
        valid_utf8(octets@) ==> r@ == decode_utf8(octets@),
{
    String::from_utf8_lossy(octets).into_owned()
}

/// The texts that a vector of strings holds.
pub open spec fn texts(strings: Seq<String>) -> Seq<Seq<char>> {
    strings.map_values(|s: String| s@)
}

/// The text that an optional string holds.
pub open spec fn optional(string: Option<String>) -> Option<Seq<char>> {
    match string {
        Some(s) => Some(s@),
        None => None,
    }
}

/// The text that an optional string slice holds.
pub open spec fn optional_str(text: Option<&str>) -> Option<Seq<char>> {
    match text {
        Some(t) => Some(t@),
        None => None,
    }
}

/// Whether the two hold the same characters.
pub fn same(text: &str, other: &str) -> (r: bool)
    ensures
        r == (text@ == other@),
{
    *text == *other
}

/// Splitting keeps at least one piece.
pub proof fn split_is_never_empty(text: Seq<char>, separator: char)
    ensures
        split(text, separator).len() >= 1,
    decreases text.len(),
{
    if text.len() > 0 {
        split_is_never_empty(text.drop_last(), separator);
    }
}

/// The pieces of `left`, a separator and `right` are those of `left` and those
/// of `right`.
pub proof fn split_joins(left: Seq<char>, right: Seq<char>, separator: char)
    ensures
        split(left + seq![separator] + right, separator) == split(left, separator) + split(
            right,
            separator,
        ),
    decreases right.len(),
{
    let all = left + seq![separator] + right;
    split_is_never_empty(right, separator);
    if right.len() == 0 {
        assert(all.drop_last() == left);
        assert(split(right, separator) == seq![right]);
        assert(right == Seq::<char>::empty());
        assert(split(all, separator) == split(left, separator) + split(right, separator));
    } else {
        split_joins(left, right.drop_last(), separator);
        split_is_never_empty(right.drop_last(), separator);
        assert(all.drop_last() == left + seq![separator] + right.drop_last());
        assert(all.last() == right.last());
        let before = split(right.drop_last(), separator);
        let lefts = split(left, separator);
        if right.last() == separator {
            assert((lefts + before).push(Seq::empty()) == lefts + before.push(Seq::empty()));
        } else {
            assert((lefts + before).drop_last() == lefts + before.drop_last());
            assert((lefts + before).last() == before.last());
            let grown = before.last().push(right.last());
            assert((lefts + before.drop_last()).push(grown) == lefts + before.drop_last().push(
                grown,
            ));
        }
    }
}

/// Text without a separator is one piece.
pub proof fn split_of_one_piece(text: Seq<char>, separator: char)
    requires
        !text.contains(separator),
    ensures
        split(text, separator) == seq![text],
    decreases text.len(),
{
    if text.len() > 0 {
        let before = text.drop_last();
        assert(!before.contains(separator)) by {
            if before.contains(separator) {
                let i = choose|i: int| 0 <= i < before.len() && before[i] == separator;
                assert(text[i] == separator);
            }
        }
        split_of_one_piece(before, separator);
        assert(text[text.len() - 1] == text.last());
        assert(before.push(text.last()) == text);
        assert(split(text, separator) == seq![text]);
    }
}

/// What is cut off at the beginning is blanks, and what is left begins with
/// none.
pub proof fn trimming_the_start_cuts_blanks(text: Seq<char>)
    ensures
        ({
            let rest = trimmed_start(text);
            let cut = text.len() - rest.len();
            &&& cut >= 0
            &&& rest == text.skip(cut)
            &&& forall|i: int| 0 <= i < cut ==> is_blank(#[trigger] text[i])
            &&& rest.len() > 0 ==> !is_blank(rest.first())
        }),
    decreases text.len(),
{
    if text.len() > 0 && is_blank(text.first()) {
        trimming_the_start_cuts_blanks(text.drop_first());
        let rest = trimmed_start(text);
        let cut = text.len() - rest.len();
        assert(text.drop_first().skip(cut - 1) =~= text.skip(cut));
        assert forall|i: int| 0 <= i < cut implies is_blank(#[trigger] text[i]) by {
            if i > 0 {
                assert(is_blank(text.drop_first()[i - 1]));
            }
        }
    } else {
        assert(text.skip(0) =~= text);
    }
}

/// What is cut off at the end is blanks, and what is left ends with none.
pub proof fn trimming_the_end_cuts_blanks(text: Seq<char>)
    ensures
        ({
            let rest = trimmed_end(text);
            &&& rest.len() <= text.len()
            &&& rest == text.take(rest.len() as int)
            &&& forall|i: int| rest.len() <= i < text.len() ==> is_blank(#[trigger] text[i])
            &&& rest.len() > 0 ==> !is_blank(rest.last())
        }),
    decreases text.len(),
{
    if text.len() > 0 && is_blank(text.last()) {
        trimming_the_end_cuts_blanks(text.drop_last());
        let rest = trimmed_end(text);
        assert(text.drop_last().take(rest.len() as int) =~= text.take(rest.len() as int));
        assert forall|i: int| rest.len() <= i < text.len() implies is_blank(#[trigger] text[i]) by {
            if i < text.len() - 1 {
                assert(is_blank(text.drop_last()[i]));
            }
        }
    } else {
        assert(text.take(text.len() as int) =~= text);
    }
}

/// Trimming cuts blanks off at both ends and nothing else: what is left stands
/// in the text as it is, neither begins nor ends with a blank, and has nothing
/// but blanks in front of it and behind it.
pub proof fn trimming_cuts_blanks_alone(text: Seq<char>) -> (start: int)
    ensures
        ({
            let rest = trimmed(text);
            let end = start + rest.len();
            &&& 0 <= start <= end <= text.len()
            &&& rest == text.subrange(start, end)
            &&& forall|i: int| 0 <= i < start ==> is_blank(#[trigger] text[i])
            &&& forall|i: int| end <= i < text.len() ==> is_blank(#[trigger] text[i])
            &&& rest.len() > 0 ==> !is_blank(rest.first()) && !is_blank(rest.last())
        }),
{
    let middle = trimmed_start(text);
    trimming_the_start_cuts_blanks(text);
    trimming_the_end_cuts_blanks(middle);
    let start = text.len() - middle.len();
    let rest = trimmed(text);
    let end = start + rest.len();
    assert(rest =~= text.subrange(start, end));
    assert forall|i: int| end <= i < text.len() implies is_blank(#[trigger] text[i]) by {
        assert(is_blank(middle[i - start]));
    }
    start
}

/// The pieces with a separator between any two.
pub open spec fn joined_by(pieces: Seq<Seq<char>>, separator: char) -> Seq<char>
    decreases pieces.len(),
{
    if pieces.len() == 0 {
        Seq::empty()
    } else if pieces.len() == 1 {
        pieces[0]
    } else {
        joined_by(pieces.drop_last(), separator) + seq![separator] + pieces.last()
    }
}

/// Splitting takes a text apart at its separators: joined again, the pieces are
/// the text, and none of them holds a separator.
pub proof fn splitting_undoes_joining(text: Seq<char>, separator: char)
    ensures
        split(text, separator).len() >= 1,
        joined_by(split(text, separator), separator) == text,
        forall|i: int, j: int|
            0 <= i < split(text, separator).len() && 0 <= j < split(text, separator)[i].len()
                ==> #[trigger] split(text, separator)[i][j] != separator,
    decreases text.len(),
{
    let pieces = split(text, separator);
    if text.len() == 0 {
        assert(pieces == seq![text]);
    } else {
        let before = split(text.drop_last(), separator);
        splitting_undoes_joining(text.drop_last(), separator);
        if text.last() == separator {
            assert(pieces.drop_last() =~= before);
            assert(joined_by(pieces, separator) =~= text);
        } else {
            assert(pieces.drop_last() =~= before.drop_last());
            assert(joined_by(pieces, separator) =~= joined_by(before, separator).push(text.last()))
                by {
                if before.len() == 1 {
                    assert(pieces[0] == before[0].push(text.last()));
                }
            }
            assert(joined_by(pieces, separator) =~= text);
        }
    }
}

/// The beginning of a text is as long as was asked for, or as the text.
pub proof fn beginnings_are_prefixes(text: Seq<char>, count: nat)
    ensures
        first_chars(text, count).is_prefix_of(text),
        first_chars(text, count).len() == if text.len() < count {
            text.len()
        } else {
            count
        },
{
}

/// The pieces of `text` between the separators.
pub fn split_text(text: &str, separator: char) -> (r: Vec<String>)
    ensures
        texts(r@) == split(text@, separator),
{
    let mut pieces: Vec<String> = Vec::new();
    let mut current = String::new();
    let ghost mut read: Seq<char> = Seq::empty();
    for c in it: text.chars()
        invariant
            it.seq() == text@,
            read == text@.take(it.index() as int),
            split(read, separator) == texts(pieces@).push(current@),
    {
        proof {
            let next = text@.take(it.index() + 1);
            assert(next.drop_last() == read);
            assert(next.last() == c);
            read = next;
        }
        if c == separator {
            let ghost before = texts(pieces@).push(current@);
            pieces.push(current);
            current = String::new();
            assert(texts(pieces@) == before);
        } else {
            let ghost piece = current@;
            current.push(c);
            assert(texts(pieces@).push(piece).drop_last() == texts(pieces@));
        }
    }
    assert(read == text@);
    let ghost before = texts(pieces@).push(current@);
    pieces.push(current);
    assert(texts(pieces@) == before);
    pieces
}

/// The first `count` characters of `text`.
pub fn take_chars(text: &str, count: usize) -> (r: String)
    ensures
        r@ == first_chars(text@, count as nat),
{
    let length: usize = text.unicode_len();
    if length <= count {
        text.to_owned()
    } else {
        text.substring_char(0, count).to_owned()
    }
}

/// Whether one of `pieces` is `piece`.
pub fn any_is(pieces: &Vec<String>, piece: &str) -> (r: bool)
    ensures
        r == texts(pieces@).contains(piece@),
{
    let mut i: usize = 0;
    while i < pieces.len()
        invariant
            i <= pieces.len(),
            forall|j: int| 0 <= j < i ==> texts(pieces@)[j] != piece@,
        decreases pieces.len() - i,
    {
        if same(pieces[i].as_str(), piece) {
            assert(texts(pieces@)[i as int] == piece@);
            return true;
        }
        i = i + 1;
    }
    false
}

} // verus!

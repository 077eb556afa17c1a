//! Text primitives shared by the whole library.
//!
//! Every function works on the characters of a string slice. The model of a
//! text is the sequence of its characters.
use vstd::prelude::*;

verus! {

/// `String::push` appends the given character to the end of the string.
pub assume_specification[ String::push ](s: &mut String, c: char)
    ensures
        final(s)@ == old(s)@.push(c),
;

/// The text that `String::from_utf8_lossy` reads out of a byte sequence.
pub uninterp spec fn utf8_lossy(bytes: Seq<u8>) -> Seq<char>;

/// `String::from_utf8_lossy`, as an owned string.
///
/// The result depends on the bytes alone. Bytes that are valid UTF-8 decode to
/// exactly their characters; how many replacement characters stand for an
/// invalid sequence is left to the name `utf8_lossy`.
#[verifier::external_body]
pub(crate) fn decode_lossy(bytes: &[u8]) -> (text: String)
    ensures
        text@ == utf8_lossy(bytes@),
        vstd::utf8::valid_utf8(bytes@) ==> text@ == vstd::utf8::decode_utf8(bytes@),
{
    String::from_utf8_lossy(bytes).into_owned()
}

/// The Unicode uppercase mapping of a text, as `str::to_uppercase` gives it.
pub uninterp spec fn unicode_uppercase(text: Seq<char>) -> Seq<char>;

/// Whether every character of a text is an ASCII one.
pub open spec fn ascii(text: Seq<char>) -> bool {
    forall|i: int| 0 <= i < text.len() ==> (#[trigger] text[i]) as u32 <= 127
}

/// `str::to_uppercase`: the uppercase equivalent of a string slice, by the
/// locale-independent Unicode mapping. For a text of ASCII characters that is the text
/// with its small letters in uppercase.
#[verifier::external_body]
pub(crate) fn to_uppercase(text: &str) -> (upper: String)
    ensures
        upper@ == unicode_uppercase(text@),
        ascii(text@) ==> upper@ == uppercase(text@),
{
    text.to_uppercase()
}

/// The ASCII lowercase form of a character; other characters are unchanged.
pub open spec fn lower_char(c: char) -> char {
    if 'A' <= c <= 'Z' {
        (c as u32 + 32) as char
    } else {
        c
    }
}

/// The ASCII uppercase form of a character; other characters are unchanged.
pub open spec fn upper_char(c: char) -> char {
    if 'a' <= c <= 'z' {
        (c as u32 - 32) as char
    } else {
        c
    }
}

/// A text with every ASCII capital letter in lowercase.
pub open spec fn lowercase(text: Seq<char>) -> Seq<char> {
    text.map_values(|c: char| lower_char(c))
}

/// A text with every ASCII small letter in uppercase.
pub open spec fn uppercase(text: Seq<char>) -> Seq<char> {
    text.map_values(|c: char| upper_char(c))
}

/// Whether two texts are equal up to the case of ASCII letters.
pub open spec fn same_ignoring_case(left: Seq<char>, right: Seq<char>) -> bool {
    lowercase(left) == lowercase(right)
}

/// Whether `word` stands in `text` at position `at`.
pub open spec fn stands_at(text: Seq<char>, word: Seq<char>, at: int) -> bool {
    0 <= at && at + word.len() <= text.len() && text.subrange(at, at + word.len()) == word
}

/// Whether `word` occurs somewhere in `text`.
pub open spec fn occurs_in(word: Seq<char>, text: Seq<char>) -> bool {
    exists|at: int| #[trigger] stands_at(text, word, at)
}

/// Whether `text` begins with `prefix`.
pub open spec fn has_prefix(text: Seq<char>, prefix: Seq<char>) -> bool {
    stands_at(text, prefix, 0)
}

/// The Unicode `White_Space` property.
pub open spec fn white_space(c: char) -> bool {
    ||| '\u{0009}' <= c <= '\u{000d}'
    ||| c == '\u{0020}'
    ||| c == '\u{0085}'
    ||| c == '\u{00a0}'
    ||| c == '\u{1680}'
    ||| '\u{2000}' <= c <= '\u{200a}'
    ||| c == '\u{2028}'
    ||| c == '\u{2029}'
    ||| c == '\u{202f}'
    ||| c == '\u{205f}'
    ||| c == '\u{3000}'
}

/// A text without its leading white space.
pub open spec fn trimmed_start(text: Seq<char>) -> Seq<char>
    decreases text.len(),
{
    if text.len() > 0 && white_space(text[0]) {
        trimmed_start(text.skip(1))
    } else {
        text
    }
}

/// A text without its trailing white space.
pub open spec fn trimmed_end(text: Seq<char>) -> Seq<char>
    decreases text.len(),
{
    if text.len() > 0 && white_space(text.last()) {
        trimmed_end(text.drop_last())
    } else {
        text
    }
}

/// A text without the white space on both of its ends.
pub open spec fn trimmed(text: Seq<char>) -> Seq<char> {
    trimmed_end(trimmed_start(text))
}

/// The pieces of a text between the occurrences of a separator.
pub open spec fn pieces(text: Seq<char>, separator: char) -> Seq<Seq<char>>
    decreases text.len(),
{
    if text.len() == 0 {
        seq![Seq::<char>::empty()]
    } else {
        let front = pieces(text.drop_last(), separator);
        if text.last() == separator {
            front.push(Seq::<char>::empty())
        } else {
            front.update(front.len() - 1, front.last().push(text.last()))
        }
    }
}

/// The decimal digit of a number below ten.
pub open spec fn digit(n: nat) -> char {
    ('0' as u32 + n) as char
}

/// The decimal notation of a natural number, without leading zeros.
pub open spec fn decimal(n: nat) -> Seq<char>
    decreases n,
{
    if n < 10 {
        seq![digit(n)]
    } else {
        decimal(n / 10).push(digit(n % 10))
    }
}

/// Lexicographic order of texts by code point.
pub open spec fn text_less(left: Seq<char>, right: Seq<char>) -> bool
    decreases left.len(),
{
    if right.len() == 0 {
        false
    } else if left.len() == 0 {
        true
    } else if left[0] != right[0] {
        left[0] < right[0]
    } else {
        text_less(left.skip(1), right.skip(1))
    }
}

/// The texts of a sequence of strings.
pub open spec fn texts(strings: Seq<String>) -> Seq<Seq<char>> {
    strings.map_values(|s: String| s@)
}

/// The text of an optional string.
pub open spec fn text_option(text: Option<String>) -> Option<Seq<char>> {
    match text {
        Some(text) => Some(text@),
        None => None,
    }
}

/// The characters of a string slice, in order.
pub(crate) fn chars_of(text: &str) -> (chars: Vec<char>)
    ensures
        chars@ == text@,
{
    let mut chars: Vec<char> = Vec::new();
    for c in it: text.chars()
        invariant
            it.seq() == text@,
            chars@ == it.seq().take(it.index() as int),
    {
        chars.push(c);
    }
    chars
}

/// The string made of the given characters.
pub(crate) fn string_of(chars: &[char]) -> (text: String)
    ensures
        text@ == chars@,
{
    let mut text = String::new();
    for i in 0..chars.len()
        invariant
            text@ == chars@.take(i as int),
    {
        text.push(chars[i]);
    }
    text
}

/// Whether two string slices hold the same characters.
pub(crate) fn same_text(left: &str, right: &str) -> (same: bool)
    ensures
        same == (left@ == right@),
{
    let a = chars_of(left);
    let b = chars_of(right);
    if a.len() != b.len() {
        return false;
    }
    for i in 0..a.len()
        invariant
            a@ == left@,
            b@ == right@,
            a.len() == b.len(),
            forall|j: int| 0 <= j < i ==> a@[j] == b@[j],
    {
        if a[i] != b[i] {
            return false;
        }
    }
    assert(a@ =~= b@);
    true
}

fn lower(c: char) -> (lowered: char)
    ensures
        lowered == lower_char(c),
{
    if 'A' <= c && c <= 'Z' {
        ((c as u8) + 32) as char
    } else {
        c
    }
}

fn upper(c: char) -> (uppered: char)
    ensures
        uppered == upper_char(c),
{
    if 'a' <= c && c <= 'z' {
        ((c as u8) - 32) as char
    } else {
        c
    }
}

/// ASCII lowercase copy of a text.
pub(crate) fn to_lowercase(text: &str) -> (lowered: String)
    ensures
        lowered@ == lowercase(text@),
{
    let mut lowered = String::new();
    for c in it: text.chars()
        invariant
            it.seq() == text@,
            lowered@ == lowercase(it.seq().take(it.index() as int)),
    {
        lowered.push(lower(c));
    }
    assert(text@.take(text@.len() as int) =~= text@);
    lowered
}

/// ASCII uppercase copy of a text.
pub(crate) fn to_ascii_uppercase(text: &str) -> (uppered: String)
    ensures
        uppered@ == uppercase(text@),
{
    let mut uppered = String::new();
    for c in it: text.chars()
        invariant
            it.seq() == text@,
            uppered@ == uppercase(it.seq().take(it.index() as int)),
    {
        uppered.push(upper(c));
    }
    assert(text@.take(text@.len() as int) =~= text@);
    uppered
}

/// Whether two texts are equal up to the case of ASCII letters.
pub(crate) fn eq_ignore_case(left: &str, right: &str) -> (same: bool)
    ensures
        same == same_ignoring_case(left@, right@),
{
    let a = to_lowercase(left);
    let b = to_lowercase(right);
    a == b
}

/// Whether the characters of `word` stand in `text` at position `at`.
fn matches_at(text: &Vec<char>, word: &Vec<char>, at: usize) -> (found: bool)
    ensures
        found == stands_at(text@, word@, at as int),
{
    if word.len() > text.len() || at > text.len() - word.len() {
        return false;
    }
    for j in 0..word.len()
        invariant
            at + word.len() <= text.len(),
            forall|k: int| 0 <= k < j ==> text@[at + k] == word@[k],
    {
        if text[at + j] != word[j] {
            assert(text@.subrange(at as int, at + word@.len())[j as int] != word@[j as int]);
            return false;
        }
    }
    assert(text@.subrange(at as int, at + word@.len()) =~= word@);
    true
}

/// Whether `word` occurs in `text`.
pub(crate) fn contains(text: &str, word: &str) -> (found: bool)
    ensures
        found == occurs_in(word@, text@),
{
    let text_chars = chars_of(text);
    let word_chars = chars_of(word);
    let mut at: usize = 0;
    while at < text_chars.len()
        invariant
            text_chars@ == text@,
            word_chars@ == word@,
            at <= text_chars.len(),
            forall|k: int| 0 <= k < at ==> !stands_at(text@, word@, k),
        decreases text_chars.len() - at,
    {
        if matches_at(&text_chars, &word_chars, at) {
            return true;
        }
        at = at + 1;
    }
    let found = matches_at(&text_chars, &word_chars, at);
    assert(!found ==> !occurs_in(word@, text@)) by {
        if !found && occurs_in(word@, text@) {
            let k = choose|k: int| #[trigger] stands_at(text@, word@, k);
            assert(k <= text@.len());
        }
    }
    found
}

/// Whether `text` begins with `prefix`.
pub(crate) fn starts_with(text: &str, prefix: &str) -> (found: bool)
    ensures
        found == has_prefix(text@, prefix@),
{
    matches_at(&chars_of(text), &chars_of(prefix), 0)
}

/// The rest of `text` behind `prefix`, where `text` begins with it.
pub(crate) fn strip_prefix(text: &str, prefix: &str) -> (rest: Option<String>)
    ensures
        rest is Some <==> has_prefix(text@, prefix@),
        rest matches Some(tail) ==> tail@ == text@.skip(prefix@.len() as int),
{
    let text_chars = chars_of(text);
    let prefix_chars = chars_of(prefix);
    if !matches_at(&text_chars, &prefix_chars, 0) {
        return None;
    }
    let tail = vstd::slice::slice_subrange(
        text_chars.as_slice(),
        prefix_chars.len(),
        text_chars.len(),
    );
    Some(string_of(tail))
}

/// Whether a character has the Unicode `White_Space` property.
pub fn is_white_space(c: char) -> (white: bool)
    ensures
        white == white_space(c),
{
    ('\u{0009}' <= c && c <= '\u{000d}') || c == '\u{0020}' || c == '\u{0085}' || c == '\u{00a0}'
        || c == '\u{1680}' || ('\u{2000}' <= c && c <= '\u{200a}') || c == '\u{2028}'
        || c == '\u{2029}' || c == '\u{202f}' || c == '\u{205f}' || c == '\u{3000}'
}

/// A copy of `text` without the white space on both of its ends.
pub(crate) fn trim(text: &str) -> (inner: String)
    ensures
        inner@ == trimmed(text@),
{
    let chars = chars_of(text);
    let mut start: usize = 0;
    assert(text@.skip(0) =~= text@);
    while start < chars.len() && is_white_space(chars[start])
        invariant
            chars@ == text@,
            start <= chars.len(),
            trimmed_start(text@) == trimmed_start(text@.skip(start as int)),
        decreases chars.len() - start,
    {
        assert(text@.skip(start as int).skip(1) =~= text@.skip(start + 1));
        start = start + 1;
    }
    assert(trimmed_start(text@) == text@.skip(start as int));
    let mut end: usize = chars.len();
    assert(text@.skip(start as int) =~= text@.subrange(start as int, end as int));
    while end > start && is_white_space(chars[end - 1])
        invariant
            chars@ == text@,
            start <= end <= chars.len(),
            trimmed(text@) == trimmed_end(text@.subrange(start as int, end as int)),
        decreases end,
    {
        assert(text@.subrange(start as int, end as int).drop_last() =~= text@.subrange(
            start as int,
            end - 1,
        ));
        end = end - 1;
    }
    assert(trimmed(text@) == text@.subrange(start as int, end as int));
    string_of(vstd::slice::slice_subrange(chars.as_slice(), start, end))
}

/// The pieces of `text` between the occurrences of `separator`.
pub(crate) fn split(text: &str, separator: char) -> (parts: Vec<String>)
    ensures
        texts(parts@) == pieces(text@, separator),
{
    let mut parts: Vec<String> = Vec::new();
    let mut current = String::new();
    assert(texts(parts@).push(current@) =~= pieces(text@.take(0), separator));
    for c in it: text.chars()
        invariant
            it.seq() == text@,
            texts(parts@).push(current@) == pieces(it.seq().take(it.index() as int), separator),
    {
        let ghost before = texts(parts@).push(current@);
        let ghost next = it.seq().take(it.index() + 1);
        assert(next.drop_last() =~= it.seq().take(it.index() as int));
        assert(next.last() == c);
        if c == separator {
            parts.push(current);
            current = String::new();
            assert(texts(parts@) =~= before);
        } else {
            current.push(c);
            assert(texts(parts@).push(current@) =~= before.update(
                before.len() - 1,
                before.last().push(c),
            ));
        }
    }
    assert(text@.take(text@.len() as int) =~= text@);
    let ghost before = texts(parts@).push(current@);
    parts.push(current);
    assert(texts(parts@) =~= before);
    parts
}

/// The decimal notation of a number.
pub(crate) fn to_decimal(n: u128) -> (text: String)
    ensures
        text@ == decimal(n as nat),
    decreases n,
{
    if n < 10 {
        let mut text = String::new();
        text.push((48u8 + n as u8) as char);
        assert(text@ =~= decimal(n as nat));
        text
    } else {
        let mut text = to_decimal(n / 10);
        text.push((48u8 + (n % 10) as u8) as char);
        text
    }
}

/// Whether `left` comes before `right` by code point.
pub(crate) fn comes_before(left: &str, right: &str) -> (before: bool)
    ensures
        before == text_less(left@, right@),
{
    let a = chars_of(left);
    let b = chars_of(right);
    let mut i: usize = 0;
    assert(left@.skip(0) =~= left@ && right@.skip(0) =~= right@);
    while i < a.len() && i < b.len() && a[i] == b[i]
        invariant
            a@ == left@,
            b@ == right@,
            i <= a.len(),
            i <= b.len(),
            text_less(left@, right@) == text_less(left@.skip(i as int), right@.skip(i as int)),
        decreases a.len() - i,
    {
        assert(left@.skip(i as int).skip(1) =~= left@.skip(i + 1));
        assert(right@.skip(i as int).skip(1) =~= right@.skip(i + 1));
        i = i + 1;
    }
    if i >= b.len() {
        false
    } else if i >= a.len() {
        true
    } else {
        a[i] < b[i]
    }
}

/// Whether two characters are the same letter: equal, or a capital ASCII letter and its
/// small form.
pub open spec fn same_letter(a: char, b: char) -> bool {
    ||| a == b
    ||| 'A' <= a <= 'Z' && b as u32 == a as u32 + 32
    ||| 'A' <= b <= 'Z' && a as u32 == b as u32 + 32
}

/// Two texts are equal up to case exactly where they are equally long and stand letter
/// by letter for the same; only ASCII letters have a case.
pub proof fn law_only_letters_have_a_case(left: Seq<char>, right: Seq<char>)
    ensures
        same_ignoring_case(left, right) <==> left.len() == right.len() && forall|i: int|
            0 <= i < left.len() ==> same_letter(#[trigger] left[i], right[i]),
{
    let a = lowercase(left);
    let b = lowercase(right);
    if a == b {
        assert(a.len() == b.len());
        assert forall|i: int| 0 <= i < left.len()
            implies same_letter(#[trigger] left[i], right[i]) by {
            assert(a[i] == b[i]);
        }
    }
    if left.len() == right.len() && forall|i: int|
        0 <= i < left.len() ==> same_letter(#[trigger] left[i], right[i]) {
        assert forall|i: int| 0 <= i < a.len() implies a[i] == b[i] by {
            assert(same_letter(left[i], right[i]));
        }
        assert(a =~= b);
    }
}

/// In another case a text keeps its length and its letters: in lowercase it has no
/// capital ASCII letter, in uppercase no small one.
pub proof fn law_case_keeps_the_letters(text: Seq<char>)
    ensures
        lowercase(text).len() == text.len(),
        uppercase(text).len() == text.len(),
        forall|i: int|
            0 <= i < text.len() ==> same_letter(#[trigger] lowercase(text)[i], text[i]) && !('A'
                <= lowercase(text)[i] <= 'Z'),
        forall|i: int|
            0 <= i < text.len() ==> same_letter(#[trigger] uppercase(text)[i], text[i]) && !('a'
                <= uppercase(text)[i] <= 'z'),
{
}

/// A text begins with a prefix exactly where it is that prefix and something behind it.
pub proof fn law_prefix_stands_first(text: Seq<char>, prefix: Seq<char>)
    ensures
        has_prefix(text, prefix) <==> exists|rest: Seq<char>| text == #[trigger] (prefix + rest),
        has_prefix(text, prefix) ==> text == prefix + text.skip(prefix.len() as int),
{
    if has_prefix(text, prefix) {
        assert(text =~= prefix + text.skip(prefix.len() as int));
    }
    if exists|rest: Seq<char>| text == #[trigger] (prefix + rest) {
        let rest = choose|rest: Seq<char>| text == #[trigger] (prefix + rest);
        assert(text.subrange(0, prefix.len() as int) =~= prefix);
    }
}

/// A word occurs in a text exactly where the text is something, the word and something
/// behind it.
pub proof fn law_words_occur_anywhere(word: Seq<char>, text: Seq<char>)
    ensures
        occurs_in(word, text) <==> exists|front: Seq<char>, back: Seq<char>|
            text == #[trigger] (front + word + back),
{
    if occurs_in(word, text) {
        let at = choose|at: int| #[trigger] stands_at(text, word, at);
        let front = text.take(at);
        let back = text.skip(at + word.len());
        assert(text =~= front + word + back);
    }
    if exists|front: Seq<char>, back: Seq<char>| text == #[trigger] (front + word + back) {
        let (front, back) = choose|front: Seq<char>, back: Seq<char>|
            text == #[trigger] (front + word + back);
        let at = front.len() as int;
        assert(text.subrange(at, at + word.len()) =~= word);
        assert(stands_at(text, word, at));
    }
}

/// Whether every character of a text is white space.
pub open spec fn blank(text: Seq<char>) -> bool {
    forall|i: int| 0 <= i < text.len() ==> white_space(#[trigger] text[i])
}

proof fn lemma_trimmed_start(text: Seq<char>) -> (front: Seq<char>)
    ensures
        text == front + trimmed_start(text),
        blank(front),
        trimmed_start(text).len() > 0 ==> !white_space(trimmed_start(text)[0]),
    decreases text.len(),
{
    if text.len() > 0 && white_space(text[0]) {
        let rest = lemma_trimmed_start(text.skip(1));
        let front = seq![text[0]] + rest;
        assert(text =~= seq![text[0]] + text.skip(1));
        assert(text =~= front + trimmed_start(text));
        front
    } else {
        assert(text =~= Seq::<char>::empty() + text);
        Seq::empty()
    }
}

proof fn lemma_trimmed_end(text: Seq<char>) -> (back: Seq<char>)
    ensures
        text == trimmed_end(text) + back,
        blank(back),
        trimmed_end(text).len() > 0 ==> !white_space(trimmed_end(text).last()),
    decreases text.len(),
{
    if text.len() > 0 && white_space(text.last()) {
        let rest = lemma_trimmed_end(text.drop_last());
        let back = rest.push(text.last());
        assert(text =~= text.drop_last().push(text.last()));
        assert(text =~= trimmed_end(text) + back);
        back
    } else {
        assert(text =~= text + Seq::<char>::empty());
        Seq::empty()
    }
}

/// Trimming takes away white space at both ends and nothing else: what is left neither
/// begins nor ends with white space.
pub proof fn law_trimming_takes_the_ends(text: Seq<char>)
    ensures
        exists|front: Seq<char>, back: Seq<char>|
            text == #[trigger] (front + trimmed(text) + back) && blank(front) && blank(back),
        trimmed(text).len() > 0 ==> !white_space(trimmed(text)[0]) && !white_space(
            trimmed(text).last(),
        ),
{
    let front = lemma_trimmed_start(text);
    let start = trimmed_start(text);
    let back = lemma_trimmed_end(start);
    assert(text =~= front + trimmed(text) + back);
    if trimmed(text).len() > 0 {
        assert(start[0] == trimmed(text)[0]);
    }
}

/// Pieces put together, with a separator between them.
pub open spec fn joined(parts: Seq<Seq<char>>, separator: char) -> Seq<char>
    decreases parts.len(),
{
    if parts.len() == 0 {
        Seq::empty()
    } else if parts.len() == 1 {
        parts[0]
    } else {
        joined(parts.drop_last(), separator).push(separator) + parts.last()
    }
}

/// The pieces of a text give the text back when they are joined, and none of them holds
/// the separator.
pub proof fn law_pieces_join_to_the_text(text: Seq<char>, separator: char)
    ensures
        pieces(text, separator).len() > 0,
        joined(pieces(text, separator), separator) == text,
        forall|i: int|
            0 <= i < pieces(text, separator).len() ==> !(#[trigger] pieces(
                text,
                separator,
            )[i]).contains(separator),
    decreases text.len(),
{
    let parts = pieces(text, separator);
    if text.len() > 0 {
        let front = pieces(text.drop_last(), separator);
        law_pieces_join_to_the_text(text.drop_last(), separator);
        if text.last() == separator {
            assert(parts.drop_last() =~= front);
            assert(joined(parts, separator) =~= text);
        } else {
            let last = front.last().push(text.last());
            assert(parts.last() == last);
            assert(parts.drop_last() =~= front.drop_last());
            assert(joined(parts, separator) =~= joined(front, separator).push(text.last()));
            assert(text =~= text.drop_last().push(text.last()));
            assert forall|i: int| 0 <= i < parts.len() implies !(#[trigger] parts[i]).contains(
                separator,
            ) by {
                assert(!front[i].contains(separator));
                if i == parts.len() - 1 {
                    assert forall|k: int| 0 <= k < last.len() implies last[k] != separator by {
                        if k < last.len() - 1 {
                            assert(front[i][k] != separator);
                        }
                    }
                }
            }
        }
    }
}

/// The number that decimal digits stand for.
pub open spec fn number(digits: Seq<char>) -> int
    decreases digits.len(),
{
    if digits.len() == 0 {
        0
    } else {
        10 * number(digits.drop_last()) + (digits.last() as u32 - 48)
    }
}

/// The decimal notation of a number consists of digits, stands for the number, and has no
/// leading zero but for zero itself.
pub proof fn law_decimals_stand_for_their_number(n: nat)
    ensures
        decimal(n).len() > 0,
        forall|i: int| 0 <= i < decimal(n).len() ==> 48 <= (#[trigger] decimal(n)[i]) as u32 <= 57,
        number(decimal(n)) == n,
        decimal(n)[0] as u32 == 48 ==> n == 0,
        n == 0 ==> decimal(n).len() == 1,
    decreases n,
{
    if n < 10 {
        assert(decimal(n).drop_last() =~= Seq::<char>::empty());
        reveal_with_fuel(number, 2);
    } else {
        law_decimals_stand_for_their_number(n / 10);
        assert(decimal(n).drop_last() =~= decimal(n / 10));
        assert(decimal(n)[0] == decimal(n / 10)[0]);
        assert(decimal(n).last() as u32 == 48 + n % 10);
    }
}

/// A text comes before another one exactly where they agree up to some place, and the
/// first one ends there or has the smaller character.
pub proof fn law_texts_are_ordered_by_their_first_difference(left: Seq<char>, right: Seq<char>)
    ensures
        text_less(left, right) <==> exists|i: int|
            0 <= i <= left.len() && i < right.len() && #[trigger] left.take(i) == right.take(i)
                && (i
                == left.len() || left[i] < right[i]),
    decreases left.len(),
{
    if left.len() == 0 {
        if right.len() > 0 {
            assert(left.take(0) =~= right.take(0));
        }
    } else if right.len() > 0 {
        let a = left.skip(1);
        let b = right.skip(1);
        law_texts_are_ordered_by_their_first_difference(a, b);
        if text_less(left, right) {
            if left[0] != right[0] {
                assert(left.take(0) =~= right.take(0));
            } else {
                let i = choose|i: int|
                    0 <= i <= a.len() && i < b.len() && #[trigger] a.take(i) == b.take(i) && (i
                        == a.len() || a[i] < b[i]);
                assert(left.take(i + 1) =~= seq![left[0]] + a.take(i));
                assert(right.take(i + 1) =~= seq![right[0]] + b.take(i));
            }
        }
        if exists|i: int|
            0 <= i <= left.len() && i < right.len() && #[trigger] left.take(i) == right.take(i)
                && (i
                == left.len() || left[i] < right[i]) {
            let i = choose|i: int|
                0 <= i <= left.len() && i < right.len() && #[trigger] left.take(i) == right.take(i)
                    && (i == left.len() || left[i] < right[i]);
            if i > 0 {
                assert(left.take(i)[0] == right.take(i)[0]);
                assert(a.take(i - 1) =~= left.take(i).skip(1));
                assert(b.take(i - 1) =~= right.take(i).skip(1));
            }
        }
    }
}

} // verus!

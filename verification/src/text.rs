//! Text building blocks: the view of every string is the sequence of its characters, and the
//! functions here compute on that view.

use vstd::prelude::*;

verus! {

/// `String::push` puts the given character behind the characters the string already holds.
pub assume_specification[ String::push ](text: &mut String, ch: char)
    ensures
        final(text)@ == old(text)@.push(ch),
;

/// Whether `ch` carries the Unicode `White_Space` property.
pub open spec fn is_white_space(ch: char) -> bool {
    ||| '\u{9}' <= ch <= '\u{d}'
    ||| ch == '\u{20}'
    ||| ch == '\u{85}'
    ||| ch == '\u{a0}'
    ||| ch == '\u{1680}'
    ||| '\u{2000}' <= ch <= '\u{200a}'
    ||| ch == '\u{2028}'
    ||| ch == '\u{2029}'
    ||| ch == '\u{202f}'
    ||| ch == '\u{205f}'
    ||| ch == '\u{3000}'
}

/// Whether `ch` is one of the Unicode control codes (general category `Cc`).
pub open spec fn is_control_code(ch: char) -> bool {
    ch <= '\u{1f}' || '\u{7f}' <= ch <= '\u{9f}'
}

/// `char::is_whitespace` answers whether the character has the `White_Space` property.
pub assume_specification[ char::is_whitespace ](ch: char) -> (result: bool)
    ensures
        result == is_white_space(ch),
;

/// `char::is_control` answers whether the character is in the general category `Cc`.
pub assume_specification[ char::is_control ](ch: char) -> (result: bool)
    ensures
        result == is_control_code(ch),
;

/// The lowercase form of a text under Unicode's locale-independent case mapping.
pub uninterp spec fn lowercase(text: Seq<char>) -> Seq<char>;

/// `str::to_lowercase`: the contract only names its result, which the case tables of Unicode
/// determine from the text alone.
#[verifier::external_body]
pub(crate) fn lowercase_text(text: &str) -> (result: String)
    ensures
        result@ == lowercase(text@),
{
    text.to_lowercase()
}

/// The characters of `text`, in order.
pub fn characters(text: &str) -> (result: Vec<char>)
    ensures
        result@ == text@,
{
    let mut result: Vec<char> = Vec::new();
    for ch in it: text.chars()
        invariant
            it.seq() == text@,
            result@ == text@.take(it.index()),
    {
        proof {
            assert(text@.take(it.index() + 1) == text@.take(it.index()).push(text@[it.index()]));
        }
        result.push(ch);
    }
    proof {
        assert(text@.take(text@.len() as int) == text@);
    }
    result
}

/// The text made of `source[from..to]`.
pub fn text_between(source: &Vec<char>, from: usize, to: usize) -> (result: String)
    requires
        from <= to <= source@.len(),
    ensures
        result@ == source@.subrange(from as int, to as int),
{
    let mut result: String = String::new();
    let mut i: usize = from;
    while i < to
        invariant
            from <= i <= to <= source@.len(),
            result@ == source@.subrange(from as int, i as int),
        decreases to - i,
    {
        proof {
            assert(source@.subrange(from as int, i + 1) == source@.subrange(from as int, i as int).push(
                source@[i as int],
            ));
        }
        result.push(source[i]);
        i = i + 1;
    }
    result
}

/// The decimal digit of a number below ten.
pub open spec fn digit(value: nat) -> char {
    (48 + value) as char
}

/// The decimal digits of a number, most significant first, without leading zeros.
pub open spec fn decimal(value: nat) -> Seq<char>
    decreases value,
{
    if value < 10 {
        seq![digit(value)]
    } else {
        decimal(value / 10).push(digit(value % 10))
    }
}

/// The character of a digit below ten.
fn digit_char(value: u64) -> (result: char)
    requires
        value < 10,
    ensures
        result == digit(value as nat),
{
    if value == 0 {
        '0'
    } else if value == 1 {
        '1'
    } else if value == 2 {
        '2'
    } else if value == 3 {
        '3'
    } else if value == 4 {
        '4'
    } else if value == 5 {
        '5'
    } else if value == 6 {
        '6'
    } else if value == 7 {
        '7'
    } else if value == 8 {
        '8'
    } else {
        '9'
    }
}

/// The decimal text of a number.
pub fn decimal_text(value: u64) -> (result: String)
    ensures
        result@ == decimal(value as nat),
    decreases value,
{
    if value < 10 {
        let mut result: String = String::new();
        result.push(digit_char(value));
        assert(result@ == decimal(value as nat));
        result
    } else {
        let mut result: String = decimal_text(value / 10);
        result.push(digit_char(value % 10));
        result
    }
}

/// The decimal text of a count.
pub fn count_text(count: usize) -> (result: String)
    ensures
        result@ == decimal(count as nat),
{
    decimal_text(count as u64)
}

/// The text in which `left` is followed by `right`.
pub fn concat_text(left: &str, right: &str) -> (result: String)
    ensures
        result@ == left@ + right@,
{
    let mut result: String = left.to_owned();
    result.append(right);
    result
}

/// Whether `part` occurs in `text` at `at`.
pub open spec fn occurs_at(text: Seq<char>, part: Seq<char>, at: int) -> bool {
    &&& 0 <= at
    &&& at + part.len() <= text.len()
    &&& text.subrange(at, at + part.len()) == part
}

/// Whether `part` occurs somewhere in `text`.
pub open spec fn occurs_in(text: Seq<char>, part: Seq<char>) -> bool {
    exists|at: int| occurs_at(text, part, at)
}

/// Whether `part` occurs in `text` at `at`.
pub fn matches_at(text: &Vec<char>, part: &Vec<char>, at: usize) -> (result: bool)
    requires
        at <= text@.len(),
    ensures
        result == occurs_at(text@, part@, at as int),
{
    if text.len() - at < part.len() {
        return false;
    }
    let mut i: usize = 0;
    while i < part.len()
        invariant
            i <= part@.len(),
            at + part@.len() <= text.len(),
            forall|k: int| 0 <= k < i ==> text@[at + k] == part@[k],
        decreases part@.len() - i,
    {
        if text[at + i] != part[i] {
            assert(text@.subrange(at as int, at + part@.len())[i as int] != part@[i as int]);
            return false;
        }
        i = i + 1;
    }
    assert(text@.subrange(at as int, at + part@.len()) == part@);
    true
}

/// Whether `part` occurs somewhere in `text`.
pub fn contains_text(text: &str, part: &str) -> (result: bool)
    ensures
        result == occurs_in(text@, part@),
{
    let text_chars: Vec<char> = characters(text);
    let part_chars: Vec<char> = characters(part);
    if text_chars.len() < part_chars.len() {
        return false;
    }
    let last: usize = text_chars.len() - part_chars.len();
    if matches_at(&text_chars, &part_chars, last) {
        return true;
    }
    let mut at: usize = 0;
    while at < last
        invariant
            text_chars@ == text@,
            part_chars@ == part@,
            last + part@.len() == text@.len(),
            at <= last,
            !occurs_at(text@, part@, last as int),
            forall|k: int| 0 <= k < at ==> !occurs_at(text@, part@, k),
        decreases last - at,
    {
        if matches_at(&text_chars, &part_chars, at) {
            return true;
        }
        at = at + 1;
    }
    false
}

/// A text begins with a single character exactly where that is its first one.
pub proof fn lemma_single_prefix(text: Seq<char>, part: Seq<char>)
    requires
        part.len() == 1,
    ensures
        part.is_prefix_of(text) == (text.len() > 0 && text[0] == part[0]),
{
    if text.len() > 0 && text[0] == part[0] {
        assert(text.take(1) == part);
    }
}

/// Whether `text` begins with `part`.
pub fn starts_with_text(text: &str, part: &str) -> (result: bool)
    ensures
        result == part@.is_prefix_of(text@),
{
    let result: bool = matches_at(&characters(text), &characters(part), 0);
    result
}

/// Whether `text` ends with `part`.
pub fn ends_with_text(text: &str, part: &str) -> (result: bool)
    ensures
        result == part@.is_suffix_of(text@),
{
    let text_chars: Vec<char> = characters(text);
    let part_chars: Vec<char> = characters(part);
    if text_chars.len() < part_chars.len() {
        return false;
    }
    matches_at(&text_chars, &part_chars, text_chars.len() - part_chars.len())
}

/// `text` without the white space it begins with.
pub open spec fn trimmed_start(text: Seq<char>) -> Seq<char>
    decreases text.len(),
{
    if text.len() > 0 && is_white_space(text[0]) {
        trimmed_start(text.drop_first())
    } else {
        text
    }
}

/// `text` without the white space it ends with.
pub open spec fn trimmed_end(text: Seq<char>) -> Seq<char>
    decreases text.len(),
{
    if text.len() > 0 && is_white_space(text.last()) {
        trimmed_end(text.drop_last())
    } else {
        text
    }
}

/// `text` without the white space around it.
pub open spec fn trimmed(text: Seq<char>) -> Seq<char> {
    trimmed_end(trimmed_start(text))
}

/// `text` without the white space it begins with.
fn trim_start_at(text: &Vec<char>) -> (at: usize)
    ensures
        at <= text@.len(),
        text@.skip(at as int) == trimmed_start(text@),
{
    let mut at: usize = 0;
    assert(text@.skip(0) == text@);
    while at < text.len() && text[at].is_whitespace()
        invariant
            at <= text@.len(),
            trimmed_start(text@.skip(at as int)) == trimmed_start(text@),
        ensures
            at <= text@.len(),
            at < text@.len() ==> !is_white_space(text@[at as int]),
            trimmed_start(text@.skip(at as int)) == trimmed_start(text@),
        decreases text@.len() - at,
    {
        assert(text@.skip(at as int).drop_first() == text@.skip(at + 1));
        at = at + 1;
    }
    at
}

/// Where the white space begins that the part of `text` from `from` on ends with.
fn trim_end_at(text: &Vec<char>, from: usize) -> (end: usize)
    requires
        from <= text@.len(),
    ensures
        from <= end <= text@.len(),
        text@.subrange(from as int, end as int) == trimmed_end(text@.skip(from as int)),
{
    let mut end: usize = text.len();
    assert(text@.subrange(from as int, end as int) == text@.skip(from as int));
    while end > from && text[end - 1].is_whitespace()
        invariant
            from <= end <= text@.len(),
            trimmed_end(text@.subrange(from as int, end as int)) == trimmed_end(
                text@.skip(from as int),
            ),
        ensures
            from <= end <= text@.len(),
            end > from ==> !is_white_space(text@[end - 1]),
            trimmed_end(text@.subrange(from as int, end as int)) == trimmed_end(
                text@.skip(from as int),
            ),
        decreases end,
    {
        assert(text@.subrange(from as int, end as int).drop_last() == text@.subrange(
            from as int,
            end - 1,
        ));
        end = end - 1;
    }
    end
}

/// `text` without the white space around it.
pub fn trim_text(text: &str) -> (result: String)
    ensures
        result@ == trimmed(text@),
{
    let source: Vec<char> = characters(text);
    let from: usize = trim_start_at(&source);
    let to: usize = trim_end_at(&source, from);
    text_between(&source, from, to)
}

/// `text` without the white space it ends with.
pub fn trim_end_text(text: &str) -> (result: String)
    ensures
        result@ == trimmed_end(text@),
{
    let source: Vec<char> = characters(text);
    let to: usize = trim_end_at(&source, 0);
    assert(source@.skip(0) == text@);
    text_between(&source, 0, to)
}

/// Whether `at` is the last place of `ch` in `text`.
pub open spec fn is_last_place(text: Seq<char>, ch: char, at: int) -> bool {
    &&& 0 <= at < text.len()
    &&& text[at] == ch
    &&& forall|k: int| at < k < text.len() ==> text[k] != ch
}

/// The last place of `ch` in `text`.
pub fn last_place(text: &Vec<char>, ch: char) -> (result: Option<usize>)
    ensures
        match result {
            Some(at) => is_last_place(text@, ch, at as int),
            None => !text@.contains(ch),
        },
{
    let mut end: usize = text.len();
    while end > 0
        invariant
            end <= text@.len(),
            forall|k: int| end <= k < text@.len() ==> text@[k] != ch,
        decreases end,
    {
        if text[end - 1] == ch {
            return Some(end - 1);
        }
        end = end - 1;
    }
    None
}

/// Whether `at` is the first place of `ch` in `text`.
pub open spec fn is_first_place(text: Seq<char>, ch: char, at: int) -> bool {
    &&& 0 <= at < text.len()
    &&& text[at] == ch
    &&& forall|k: int| 0 <= k < at ==> text[k] != ch
}

/// The first place of `ch` in `text`.
pub fn first_place(text: &Vec<char>, ch: char) -> (result: Option<usize>)
    ensures
        match result {
            Some(at) => is_first_place(text@, ch, at as int),
            None => !text@.contains(ch),
        },
{
    let mut at: usize = 0;
    while at < text.len()
        invariant
            at <= text@.len(),
            forall|k: int| 0 <= k < at ==> text@[k] != ch,
        decreases text@.len() - at,
    {
        if text[at] == ch {
            return Some(at);
        }
        at = at + 1;
    }
    None
}

/// The lowercase form of an ASCII letter, any other character unchanged.
pub open spec fn ascii_lowercase(ch: char) -> char {
    if 'A' <= ch <= 'Z' {
        (ch as u32 + 32) as char
    } else {
        ch
    }
}

/// `text` with its ASCII letters in lowercase.
pub open spec fn ascii_lowercased(text: Seq<char>) -> Seq<char> {
    text.map_values(|ch: char| ascii_lowercase(ch))
}

/// The lowercase form of an ASCII letter, any other character unchanged.
pub fn ascii_lowercase_char(ch: char) -> (result: char)
    ensures
        result == ascii_lowercase(ch),
{
    if 'A' <= ch && ch <= 'Z' {
        ((ch as u8) + 32) as char
    } else {
        ch
    }
}

/// `text` with its ASCII letters in lowercase.
pub fn ascii_lowercase_text(text: &str) -> (result: String)
    ensures
        result@ == ascii_lowercased(text@),
{
    let source: Vec<char> = characters(text);
    let mut result: String = String::new();
    let mut i: usize = 0;
    while i < source.len()
        invariant
            source@ == text@,
            i <= source@.len(),
            result@ == ascii_lowercased(text@.take(i as int)),
        decreases source@.len() - i,
    {
        result.push(ascii_lowercase_char(source[i]));
        i = i + 1;
        assert(result@ == ascii_lowercased(text@.take(i as int)));
    }
    assert(text@.take(i as int) == text@);
    result
}

/// The views of a list of texts.
pub open spec fn views(texts: Seq<String>) -> Seq<Seq<char>> {
    texts.map_values(|text: String| text@)
}

/// The parts in order, with `separator` between each two.
pub open spec fn joined(parts: Seq<Seq<char>>, separator: Seq<char>) -> Seq<char>
    decreases parts.len(),
{
    if parts.len() == 0 {
        Seq::empty()
    } else if parts.len() == 1 {
        parts[0]
    } else {
        joined(parts.drop_last(), separator) + separator + parts.last()
    }
}

/// The parts in order, with `separator` between each two.
pub fn join_text(parts: &Vec<String>, separator: &str) -> (result: String)
    ensures
        result@ == joined(views(parts@), separator@),
{
    let mut result: String = String::new();
    let mut i: usize = 0;
    while i < parts.len()
        invariant
            i <= parts@.len(),
            result@ == joined(views(parts@).take(i as int), separator@),
        decreases parts@.len() - i,
    {
        let ghost before = views(parts@).take(i as int);
        let ghost after = views(parts@).take(i + 1);
        assert(after.drop_last() == before);
        if i > 0 {
            result.append(separator);
        }
        result.append(parts[i].as_str());
        i = i + 1;
        assert(result@ == joined(after, separator@));
    }
    assert(views(parts@).take(i as int) == views(parts@));
    result
}

/// Whether two texts hold the same characters.
pub fn same_text(left: &str, right: &str) -> (result: bool)
    ensures
        result == (left@ == right@),
{
    let left_chars: Vec<char> = characters(left);
    let right_chars: Vec<char> = characters(right);
    if left_chars.len() != right_chars.len() {
        return false;
    }
    let result: bool = matches_at(&left_chars, &right_chars, 0);
    assert(left@.subrange(0, left@.len() as int) == left@);
    result
}

/// What follows the first `ch` of `text`, if it has one.
pub open spec fn after_first(text: Seq<char>, ch: char) -> Option<Seq<char>>
    decreases text.len(),
{
    if text.len() == 0 {
        None
    } else if text[0] == ch {
        Some(text.drop_first())
    } else {
        after_first(text.drop_first(), ch)
    }
}

/// What precedes the last `ch` of `text`, if it has one.
pub open spec fn before_last(text: Seq<char>, ch: char) -> Option<Seq<char>>
    decreases text.len(),
{
    if text.len() == 0 {
        None
    } else if text.last() == ch {
        Some(text.drop_last())
    } else {
        before_last(text.drop_last(), ch)
    }
}

/// What follows the last `ch` of `text`, if it has one.
pub open spec fn after_last(text: Seq<char>, ch: char) -> Option<Seq<char>> {
    match before_last(text, ch) {
        Some(before) => Some(text.skip(before.len() as int + 1)),
        None => None,
    }
}

proof fn lemma_after_first(text: Seq<char>, ch: char, at: int)
    requires
        is_first_place(text, ch, at),
    ensures
        after_first(text, ch) == Some(text.skip(at + 1)),
    decreases text.len(),
{
    if at == 0 {
        assert(text.drop_first() == text.skip(1));
    } else {
        let rest = text.drop_first();
        assert(is_first_place(rest, ch, at - 1));
        lemma_after_first(rest, ch, at - 1);
        assert(rest.skip(at) == text.skip(at + 1));
    }
}

proof fn lemma_after_first_none(text: Seq<char>, ch: char)
    requires
        !text.contains(ch),
    ensures
        after_first(text, ch) is None,
    decreases text.len(),
{
    if text.len() > 0 {
        assert(text[0] != ch);
        assert forall|k: int| 0 <= k < text.drop_first().len() implies text.drop_first()[k] != ch by {
            assert(text[k + 1] != ch);
        }
        lemma_after_first_none(text.drop_first(), ch);
    }
}

/// Where the last `ch` stands decides what precedes it.
pub proof fn lemma_before_last(text: Seq<char>, ch: char, at: int)
    requires
        is_last_place(text, ch, at),
    ensures
        before_last(text, ch) == Some(text.take(at)),
    decreases text.len(),
{
    if at == text.len() - 1 {
        assert(text.drop_last() == text.take(at));
    } else {
        let front = text.drop_last();
        assert(is_last_place(front, ch, at));
        lemma_before_last(front, ch, at);
        assert(front.take(at) == text.take(at));
    }
}

/// Nothing precedes a character that does not occur.
pub proof fn lemma_before_last_none(text: Seq<char>, ch: char)
    requires
        !text.contains(ch),
    ensures
        before_last(text, ch) is None,
    decreases text.len(),
{
    if text.len() > 0 {
        assert(text.last() != ch);
        assert forall|k: int| 0 <= k < text.drop_last().len() implies text.drop_last()[k] != ch by {
            assert(text[k] != ch);
        }
        lemma_before_last_none(text.drop_last(), ch);
    }
}

/// What follows the first `ch` of `text`, if it has one.
pub fn text_after_first(text: &str, ch: char) -> (result: Option<String>)
    ensures
        match result {
            Some(rest) => after_first(text@, ch) == Some(rest@),
            None => after_first(text@, ch) is None,
        },
{
    let chars: Vec<char> = characters(text);
    match first_place(&chars, ch) {
        Some(at) => {
            proof {
                lemma_after_first(text@, ch, at as int);
            }
            let end: usize = chars.len();
            let rest: String = text_between(&chars, at + 1, end);
            assert(rest@ == text@.skip(at + 1));
            Some(rest)
        },
        None => {
            proof {
                lemma_after_first_none(text@, ch);
            }
            None
        },
    }
}

/// What follows the last `ch` of `text`, if it has one.
pub fn text_after_last(text: &str, ch: char) -> (result: Option<String>)
    ensures
        match result {
            Some(rest) => after_last(text@, ch) == Some(rest@),
            None => after_last(text@, ch) is None,
        },
{
    let chars: Vec<char> = characters(text);
    match last_place(&chars, ch) {
        Some(at) => {
            proof {
                lemma_before_last(text@, ch, at as int);
            }
            let end: usize = chars.len();
            let rest: String = text_between(&chars, at + 1, end);
            assert(rest@ == text@.skip(at + 1));
            Some(rest)
        },
        None => {
            proof {
                lemma_before_last_none(text@, ch);
            }
            None
        },
    }
}

/// White space around a text is taken away, and nothing else: what stands between the first and the
/// last other character stays.
pub proof fn law_trimming_keeps_the_inside(before: Seq<char>, inside: Seq<char>, after: Seq<char>)
    requires
        forall|k: int| 0 <= k < before.len() ==> is_white_space(#[trigger] before[k]),
        forall|k: int| 0 <= k < after.len() ==> is_white_space(#[trigger] after[k]),
        inside.len() > 0 ==> !is_white_space(inside[0]) && !is_white_space(inside.last()),
    ensures
        trimmed(before + inside + after) == inside,
        trimmed_start(before + inside) == inside,
        trimmed_end(inside + after) == inside,
        inside.len() == 0 ==> trimmed_end(before) == inside,
{
    lemma_trimmed_start(before, inside);
    lemma_trimmed_end(inside, after);
    if inside.len() == 0 {
        assert(inside + before == before);
        lemma_trimmed_end(inside, before);
        assert(before + inside + after == (before + after) + inside);
        lemma_trimmed_start(before + after, inside);
    } else {
        assert(before + inside + after == before + (inside + after));
        lemma_trimmed_start(before, inside + after);
    }
}

proof fn lemma_trimmed_start(before: Seq<char>, inside: Seq<char>)
    requires
        forall|k: int| 0 <= k < before.len() ==> is_white_space(#[trigger] before[k]),
        inside.len() > 0 ==> !is_white_space(inside[0]),
    ensures
        trimmed_start(before + inside) == inside,
    decreases before.len(),
{
    if before.len() == 0 {
        assert(before + inside == inside);
    } else {
        assert(is_white_space(before[0]));
        assert((before + inside).drop_first() == before.drop_first() + inside);
        lemma_trimmed_start(before.drop_first(), inside);
    }
}

proof fn lemma_trimmed_end(inside: Seq<char>, after: Seq<char>)
    requires
        forall|k: int| 0 <= k < after.len() ==> is_white_space(#[trigger] after[k]),
        inside.len() > 0 ==> !is_white_space(inside.last()),
    ensures
        trimmed_end(inside + after) == inside,
    decreases after.len(),
{
    if after.len() == 0 {
        assert(inside + after == inside);
    } else {
        assert(is_white_space(after.last()));
        assert((inside + after).drop_last() == inside + after.drop_last());
        lemma_trimmed_end(inside, after.drop_last());
    }
}

/// Separators, dots, digits and letters are no white space, and neither is anything else that is
/// printed: only blanks, tabs, line ends and the like are.
pub proof fn law_printed_characters_are_no_white_space(ch: char)
    ensures
        '!' <= ch <= '~' ==> !is_white_space(ch) && !is_control_code(ch),
        ch <= '\u{7f}' && is_white_space(ch) ==> ch == ' ' || is_control_code(ch),
        ch == ' ' || ch == '\t' || ch == '\n' || ch == '\r' ==> is_white_space(ch),
        ch < ' ' || ch == '\u{7f}' ==> is_control_code(ch),
{
}

/// A part is found exactly where the text reads as something, the part, and something else.
pub proof fn law_part_stands_between(text: Seq<char>, part: Seq<char>)
    ensures
        occurs_in(text, part) <==> exists|before: Seq<char>, after: Seq<char>|
            text == #[trigger] ((before + part) + after),
{
    if occurs_in(text, part) {
        let at = choose|at: int| occurs_at(text, part, at);
        assert(occurs_at(text, part, at));
        let before = text.take(at);
        let after = text.skip(at + part.len());
        assert forall|k: int| 0 <= k < text.len() implies ((before + part) + after)[k] == text[k] by {
            if at <= k < at + part.len() {
                assert(text.subrange(at, at + part.len())[k - at] == part[k - at]);
            }
        }
        assert(text =~= (before + part) + after);
    }
    if exists|before: Seq<char>, after: Seq<char>| text == #[trigger] ((before + part) + after) {
        let (before, after) = choose|before: Seq<char>, after: Seq<char>|
            text == #[trigger] ((before + part) + after);
        let at = before.len() as int;
        assert(text.subrange(at, at + part.len()) =~= part);
        assert(occurs_at(text, part, at));
    }
}

/// The first separator parts a text in two, whatever stands behind it; so does the last one,
/// whatever stands before it.
pub proof fn law_separators_part_a_text(before: Seq<char>, ch: char, after: Seq<char>)
    ensures
        !before.contains(ch) ==> after_first(before + seq![ch] + after, ch) == Some(after),
        !after.contains(ch) ==> before_last(before + seq![ch] + after, ch) == Some(before),
        !after.contains(ch) ==> after_last(before + seq![ch] + after, ch) == Some(after),
        !before.contains(ch) ==> after_first(before, ch) is None && before_last(before, ch) is None
            && after_last(before, ch) is None,
{
    let text = before + seq![ch] + after;
    let at = before.len() as int;
    assert(text[at] == ch);
    assert(text.skip(at + 1) =~= after);
    assert(text.take(at) =~= before);
    if !before.contains(ch) {
        assert forall|k: int| 0 <= k < at implies text[k] != ch by {
            assert(text[k] == before[k]);
        }
        assert(is_first_place(text, ch, at));
        lemma_after_first(text, ch, at);
        lemma_after_first_none(before, ch);
        lemma_before_last_none(before, ch);
    }
    if !after.contains(ch) {
        assert forall|k: int| at < k < text.len() implies text[k] != ch by {
            assert(text[k] == after[k - at - 1]);
        }
        assert(is_last_place(text, ch, at));
        lemma_before_last(text, ch, at);
    }
}

/// Letters from `A` to `Z` become those from `a` to `z`, and every other character stays: a text in
/// lowercase has as many characters, and is not changed again.
pub proof fn law_ascii_lowercase(text: Seq<char>, i: int)
    requires
        0 <= i < text.len(),
    ensures
        ascii_lowercased(text).len() == text.len(),
        'A' <= text[i] <= 'Z' ==> ascii_lowercased(text)[i] as int - 'a' as int == text[i] as int
            - 'A' as int,
        !('A' <= text[i] <= 'Z') ==> ascii_lowercased(text)[i] == text[i],
        ascii_lowercased(ascii_lowercased(text)) == ascii_lowercased(text),
{
    assert(ascii_lowercased(ascii_lowercased(text)) =~= ascii_lowercased(text));
}

/// Joined lists of texts have the separator between them, and nowhere else: joining two lists after
/// one another is joining each, with one separator between.
pub proof fn law_joining_puts_separators_between(
    left: Seq<Seq<char>>,
    right: Seq<Seq<char>>,
    part: Seq<char>,
    separator: Seq<char>,
)
    ensures
        joined(Seq::empty(), separator) == Seq::<char>::empty(),
        joined(seq![part], separator) == part,
        left.len() > 0 && right.len() > 0 ==> joined(left + right, separator) == joined(
            left,
            separator,
        ) + separator + joined(right, separator),
    decreases right.len(),
{
    if left.len() > 0 && right.len() > 0 {
        let whole = left + right;
        assert(whole.drop_last() =~= left + right.drop_last());
        assert(whole.last() == right.last());
        if right.len() == 1 {
            assert(whole.drop_last() =~= left);
            assert(joined(right, separator) == right.last());
        } else {
            law_joining_puts_separators_between(left, right.drop_last(), part, separator);
            assert(joined(whole, separator) == joined(left + right.drop_last(), separator)
                + separator + right.last());
            assert(joined(left, separator) + separator + joined(right.drop_last(), separator)
                + separator + right.last() =~= joined(left, separator) + separator + (joined(
                right.drop_last(),
                separator,
            ) + separator + right.last()));
        }
    }
}

/// A number is written with its last digit at the end and the digits of a tenth of it before, and
/// only zero begins with a zero.
pub proof fn law_decimal_digits_stand_for_the_number(value: nat)
    ensures
        decimal(value).len() > 0,
        '0' <= decimal(value).last() <= '9',
        decimal(value).last() as int - '0' as int == value % 10,
        value >= 10 ==> decimal(value).drop_last() == decimal(value / 10),
        value < 10 ==> decimal(value).len() == 1,
        decimal(value)[0] == '0' ==> value == 0,
    decreases value,
{
    if value >= 10 {
        law_decimal_digits_stand_for_the_number(value / 10);
        assert(decimal(value).drop_last() =~= decimal(value / 10));
        assert(decimal(value)[0] == decimal(value / 10)[0]);
    }
}

} // verus!

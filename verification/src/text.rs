//! Plain text handling: trimming, splitting, searching, decimal numbers.
//!
//! Every function is stated over the sequence of characters of its arguments.

use vstd::prelude::*;

verus! {

/// `String::push` appends one character.
pub assume_specification[ String::push ](target: &mut String, character: char)
    ensures
        final(target)@ == old(target)@.push(character),
;

/// The views of a list of strings.
pub open spec fn views(texts: Seq<String>) -> Seq<Seq<char>> {
    Seq::new(texts.len(), |i: int| texts[i]@)
}

/// The view of an optional string.
pub open spec fn option_view(text: Option<String>) -> Option<Seq<char>> {
    match text {
        Some(text) => Some(text@),
        None => None,
    }
}

/// The view of an optional string slice.
pub open spec fn option_str_view(text: Option<&str>) -> Option<Seq<char>> {
    match text {
        Some(text) => Some(text@),
        None => None,
    }
}

/// The characters of a string.
pub fn chars_of(text: &str) -> (characters: Vec<char>)
    ensures
        characters@ == text@,
{
    let mut characters: Vec<char> = Vec::new();
    for character in it: text.chars()
        invariant
            it.seq() == text@,
            characters@ == text@.take(it.index()),
    {
        characters.push(character);
    }
    characters
}

/// The string made of the characters from `from` up to `to`.
pub fn text_of(characters: &Vec<char>, from: usize, to: usize) -> (text: String)
    requires
        from <= to <= characters@.len(),
    ensures
        text@ == characters@.subrange(from as int, to as int),
{
    let mut text = String::new();
    let mut index: usize = from;
    while index < to
        invariant
            from <= index <= to <= characters@.len(),
            text@ == characters@.subrange(from as int, index as int),
        decreases to - index,
    {
        text.push(characters[index]);
        index = index + 1;
        assert(text@ =~= characters@.subrange(from as int, index as int));
    }
    text
}

/// Two strings hold the same characters.
pub fn same(left: &str, right: &str) -> (equal: bool)
    ensures
        equal == (left@ == right@),
{
    left.to_owned() == right.to_owned()
}

/// An optional string holds exactly `expected`.
pub fn is_text(text: &Option<String>, expected: &str) -> (equal: bool)
    ensures
        equal == (option_view(*text) == Some(expected@)),
{
    match text {
        Some(text) => same(text.as_str(), expected),
        None => false,
    }
}

/// Two optional strings hold the same characters.
pub fn same_option(left: &Option<String>, right: &Option<String>) -> (equal: bool)
    ensures
        equal == (option_view(*left) == option_view(*right)),
{
    match (left, right) {
        (Some(left), Some(right)) => same(left.as_str(), right.as_str()),
        (None, None) => true,
        _ => false,
    }
}

/// The concatenation of two strings.
pub fn joined(left: &str, right: &str) -> (text: String)
    ensures
        text@ == left@ + right@,
{
    let mut text = left.to_owned();
    text.append(right);
    text
}

// ---------------------------------------------------------------------------
// White space and trimming
// ---------------------------------------------------------------------------

/// The characters that Unicode gives the property `White_Space`.
pub open spec fn white_space(character: char) -> bool {
    let code = character as u32;
    ||| 0x09 <= code <= 0x0d
    ||| code == 0x20
    ||| code == 0x85
    ||| code == 0xa0
    ||| code == 0x1680
    ||| 0x2000 <= code <= 0x200a
    ||| code == 0x2028
    ||| code == 0x2029
    ||| code == 0x202f
    ||| code == 0x205f
    ||| code == 0x3000
}

/// Whether a character is white space.
pub fn is_white_space(character: char) -> (white: bool)
    ensures
        white == white_space(character),
{
    let code: u32 = character as u32;
    (0x09 <= code && code <= 0x0d) || code == 0x20 || code == 0x85 || code == 0xa0 || code == 0x1680
        || (0x2000 <= code && code <= 0x200a) || code == 0x2028 || code == 0x2029 || code == 0x202f
        || code == 0x205f || code == 0x3000
}

/// `text` without its leading white space.
pub open spec fn trimmed_start(text: Seq<char>) -> Seq<char>
    decreases text.len(),
{
    if text.len() > 0 && white_space(text[0]) {
        trimmed_start(text.skip(1))
    } else {
        text
    }
}

/// `text` without its trailing white space.
pub open spec fn trimmed_end(text: Seq<char>) -> Seq<char>
    decreases text.len(),
{
    if text.len() > 0 && white_space(text.last()) {
        trimmed_end(text.drop_last())
    } else {
        text
    }
}

/// `text` without leading and trailing white space.
pub open spec fn trimmed(text: Seq<char>) -> Seq<char> {
    trimmed_end(trimmed_start(text))
}

/// Removes white space at both ends.
pub fn trim(text: &str) -> (result: String)
    ensures
        result@ == trimmed(text@),
{
    let characters = chars_of(text);
    let length: usize = characters.len();
    let mut from: usize = 0;
    assert(text@.skip(0) =~= text@);
    while from < length && is_white_space(characters[from])
        invariant
            length == characters@.len(),
            characters@ == text@,
            from <= length,
            trimmed_start(text@) == trimmed_start(text@.skip(from as int)),
        decreases length - from,
    {
        assert(text@.skip(from as int).skip(1) =~= text@.skip(from as int + 1));
        from = from + 1;
    }
    let ghost rest = text@.skip(from as int);
    assert(trimmed_start(text@) == rest);
    let mut to: usize = length;
    assert(text@.subrange(from as int, to as int) =~= rest);
    while to > from && is_white_space(characters[to - 1])
        invariant
            length == characters@.len(),
            characters@ == text@,
            from <= to <= length,
            trimmed_end(rest) == trimmed_end(text@.subrange(from as int, to as int)),
        decreases to,
    {
        assert(text@.subrange(from as int, to as int).drop_last() =~= text@.subrange(
            from as int,
            to as int - 1,
        ));
        to = to - 1;
    }
    text_of(&characters, from, to)
}

/// A text without white space at its ends is its own trimmed form.
pub proof fn lemma_trimmed_is_fixed(text: Seq<char>)
    requires
        text.len() > 0 ==> !white_space(text[0]) && !white_space(text.last()),
    ensures
        trimmed(text) == text,
{
}

proof fn lemma_trimmed_start_front(text: Seq<char>)
    ensures
        trimmed_start(text).len() > 0 ==> !white_space(trimmed_start(text)[0]),
    decreases text.len(),
{
    if text.len() > 0 && white_space(text[0]) {
        lemma_trimmed_start_front(text.skip(1));
    }
}

proof fn lemma_trimmed_end_ends(text: Seq<char>)
    ensures
        trimmed_end(text).len() > 0 ==> !white_space(trimmed_end(text).last())
            && trimmed_end(text)[0] == text[0],
        trimmed_end(text).len() <= text.len(),
    decreases text.len(),
{
    if text.len() > 0 && white_space(text.last()) {
        lemma_trimmed_end_ends(text.drop_last());
    }
}

/// A trimmed text has no white space at either end.
pub proof fn lemma_trimmed_ends(text: Seq<char>)
    ensures
        trimmed(text).len() > 0 ==> !white_space(trimmed(text)[0]) && !white_space(
            trimmed(text).last(),
        ),
{
    lemma_trimmed_start_front(text);
    lemma_trimmed_end_ends(trimmed_start(text));
}

/// Trimming twice is trimming once.
pub proof fn lemma_trim_is_idempotent(text: Seq<char>)
    ensures
        trimmed(trimmed(text)) == trimmed(text),
{
    lemma_trimmed_ends(text);
    lemma_trimmed_is_fixed(trimmed(text));
}

/// Some character of `text` is white space.
pub open spec fn has_white_space(text: Seq<char>) -> bool {
    exists|i: int| 0 <= i < text.len() && white_space(#[trigger] text[i])
}

/// Whether any character is white space.
pub fn contains_white_space(text: &str) -> (found: bool)
    ensures
        found == has_white_space(text@),
{
    let characters = chars_of(text);
    let mut index: usize = 0;
    while index < characters.len()
        invariant
            characters@ == text@,
            index <= characters@.len(),
            forall|i: int| 0 <= i < index ==> !white_space(#[trigger] text@[i]),
        decreases characters@.len() - index,
    {
        if is_white_space(characters[index]) {
            assert(white_space(text@[index as int]));
            return true;
        }
        index = index + 1;
    }
    false
}

/// Every character of `text` is `character`.
pub open spec fn only(text: Seq<char>, character: char) -> bool {
    forall|i: int| 0 <= i < text.len() ==> #[trigger] text[i] == character
}

/// Whether every character is the given one.
pub fn consists_of(text: &str, character: char) -> (all: bool)
    ensures
        all == only(text@, character),
{
    let characters = chars_of(text);
    let mut index: usize = 0;
    while index < characters.len()
        invariant
            characters@ == text@,
            index <= characters@.len(),
            forall|i: int| 0 <= i < index ==> #[trigger] text@[i] == character,
        decreases characters@.len() - index,
    {
        if characters[index] != character {
            assert(text@[index as int] != character);
            return false;
        }
        index = index + 1;
    }
    true
}

// ---------------------------------------------------------------------------
// Prefixes, suffixes, searching, replacing
// ---------------------------------------------------------------------------

/// `text` begins with `prefix`.
pub open spec fn begins_with(text: Seq<char>, prefix: Seq<char>) -> bool {
    prefix.len() <= text.len() && text.take(prefix.len() as int) == prefix
}

/// `text` ends with `suffix`.
pub open spec fn ends_with(text: Seq<char>, suffix: Seq<char>) -> bool {
    suffix.len() <= text.len() && text.skip(text.len() - suffix.len()) == suffix
}

/// Whether `pattern` stands in `characters` at `at`.
fn stands_at(characters: &Vec<char>, at: usize, pattern: &Vec<char>) -> (found: bool)
    requires
        at <= characters@.len(),
    ensures
        found == begins_with(characters@.skip(at as int), pattern@),
{
    if pattern.len() > characters.len() - at {
        return false;
    }
    let length: usize = characters.len();
    let mut index: usize = 0;
    while index < pattern.len()
        invariant
            length == characters@.len(),
            at + pattern@.len() <= length,
            index <= pattern@.len(),
            forall|i: int| 0 <= i < index ==> characters@[at + i] == #[trigger] pattern@[i],
        decreases pattern@.len() - index,
    {
        if characters[at + index] != pattern[index] {
            assert(characters@.skip(at as int).take(pattern@.len() as int)[index as int]
                != pattern@[index as int]);
            return false;
        }
        index = index + 1;
    }
    assert(characters@.skip(at as int).take(pattern@.len() as int) =~= pattern@);
    true
}

/// Whether the text begins with the prefix.
pub fn starts_with(text: &str, prefix: &str) -> (found: bool)
    ensures
        found == begins_with(text@, prefix@),
{
    let characters = chars_of(text);
    let pattern = chars_of(prefix);
    assert(text@.skip(0) =~= text@);
    stands_at(&characters, 0, &pattern)
}

/// The text behind the prefix, where the text begins with it.
pub fn strip_prefix(text: &str, prefix: &str) -> (rest: Option<String>)
    ensures
        match rest {
            Some(rest) => begins_with(text@, prefix@) && rest@ == text@.skip(prefix@.len() as int),
            None => !begins_with(text@, prefix@),
        },
{
    let characters = chars_of(text);
    let pattern = chars_of(prefix);
    assert(text@.skip(0) =~= text@);
    if stands_at(&characters, 0, &pattern) {
        let rest = text_of(&characters, pattern.len(), characters.len());
        assert(rest@ =~= text@.skip(prefix@.len() as int));
        Some(rest)
    } else {
        None
    }
}

/// The text before the suffix, where the text ends with it.
pub fn strip_suffix(text: &str, suffix: &str) -> (rest: Option<String>)
    ensures
        match rest {
            Some(rest) => ends_with(text@, suffix@) && rest@ == text@.take(
                text@.len() - suffix@.len(),
            ),
            None => !ends_with(text@, suffix@),
        },
{
    let characters = chars_of(text);
    let pattern = chars_of(suffix);
    if pattern.len() > characters.len() {
        return None;
    }
    let at: usize = characters.len() - pattern.len();
    if stands_at(&characters, at, &pattern) {
        assert(text@.skip(at as int).take(suffix@.len() as int) =~= text@.skip(at as int));
        let rest = text_of(&characters, 0, at);
        assert(rest@ =~= text@.take(at as int));
        Some(rest)
    } else {
        assert(text@.skip(at as int).take(suffix@.len() as int) =~= text@.skip(at as int));
        None
    }
}

/// Where `pattern` first stands in `text`.
pub open spec fn first_match(text: Seq<char>, pattern: Seq<char>) -> Option<int>
    decreases text.len(),
{
    if begins_with(text, pattern) {
        Some(0)
    } else if text.len() == 0 {
        None
    } else {
        match first_match(text.skip(1), pattern) {
            Some(at) => Some(at + 1),
            None => None,
        }
    }
}

/// `pattern` stands somewhere in `text`.
pub open spec fn holds(text: Seq<char>, pattern: Seq<char>) -> bool {
    exists|at: int| 0 <= at <= text.len() && begins_with(#[trigger] text.skip(at), pattern)
}

/// The first match is a match, nothing before it is one, and it is missing only where nothing
/// matches.
pub proof fn lemma_first_match(text: Seq<char>, pattern: Seq<char>)
    ensures
        match first_match(text, pattern) {
            Some(at) => 0 <= at <= text.len() && begins_with(text.skip(at), pattern) && (forall|
                other: int,
            |
                0 <= other < at ==> !begins_with(#[trigger] text.skip(other), pattern)),
            None => !holds(text, pattern),
        },
    decreases text.len(),
{
    assert(text.skip(0) =~= text);
    if !begins_with(text, pattern) && text.len() > 0 {
        let rest = text.skip(1);
        lemma_first_match(rest, pattern);
        assert forall|at: int| 1 <= at <= text.len() implies #[trigger] text.skip(at) == rest.skip(
            at - 1,
        ) by {
            assert(text.skip(at) =~= rest.skip(at - 1));
        }
        match first_match(rest, pattern) {
            Some(at) => {
                assert(text.skip(at + 1) == rest.skip(at));
            },
            None => {
                assert forall|at: int| 0 <= at <= text.len() implies !begins_with(
                    #[trigger] text.skip(at),
                    pattern,
                ) by {
                    if at > 0 {
                        assert(!begins_with(rest.skip(at - 1), pattern));
                    }
                }
            },
        }
    } else if !begins_with(text, pattern) {
        assert forall|at: int| 0 <= at <= text.len() implies !begins_with(
            #[trigger] text.skip(at),
            pattern,
        ) by {
            assert(at == 0);
        }
    }
}

/// Where the pattern first stands in the text.
pub fn find(text: &str, pattern: &str) -> (at: Option<usize>)
    ensures
        match at {
            Some(at) => first_match(text@, pattern@) == Some(at as int),
            None => first_match(text@, pattern@) is None,
        },
{
    let characters = chars_of(text);
    let wanted = chars_of(pattern);
    let mut at: usize = 0;
    proof {
        lemma_first_match(text@, pattern@);
    }
    while at < characters.len()
        invariant
            characters@ == text@,
            wanted@ == pattern@,
            at <= characters@.len(),
            forall|other: int|
                0 <= other < at ==> !begins_with(#[trigger] text@.skip(other), pattern@),
        decreases characters@.len() - at,
    {
        if stands_at(&characters, at, &wanted) {
            proof {
                lemma_first_match(text@, pattern@);
                assert(begins_with(text@.skip(at as int), pattern@));
            }
            return Some(at);
        }
        at = at + 1;
    }
    if stands_at(&characters, at, &wanted) {
        assert(begins_with(text@.skip(at as int), pattern@));
        Some(at)
    } else {
        assert(!holds(text@, pattern@));
        None
    }
}

/// `text` with each occurrence of `pattern`, taken from the left without overlap, replaced by
/// `with`.
pub open spec fn replaced(text: Seq<char>, pattern: Seq<char>, with: Seq<char>) -> Seq<char>
    decreases text.len(),
{
    if pattern.len() == 0 || text.len() == 0 {
        text
    } else if begins_with(text, pattern) {
        with + replaced(text.skip(pattern.len() as int), pattern, with)
    } else {
        seq![text[0]] + replaced(text.skip(1), pattern, with)
    }
}

/// Replaces each occurrence of the pattern.
pub fn replace(text: &str, pattern: &str, with: &str) -> (result: String)
    requires
        pattern@.len() > 0,
    ensures
        result@ == replaced(text@, pattern@, with@),
{
    let characters = chars_of(text);
    let wanted = chars_of(pattern);
    let mut result = String::new();
    let mut at: usize = 0;
    assert(text@.skip(0) =~= text@);
    assert(result@ + replaced(text@, pattern@, with@) =~= replaced(text@, pattern@, with@));
    while at < characters.len()
        invariant
            characters@ == text@,
            wanted@ == pattern@,
            pattern@.len() > 0,
            at <= characters@.len(),
            replaced(text@, pattern@, with@) == result@ + replaced(
                text@.skip(at as int),
                pattern@,
                with@,
            ),
        decreases characters@.len() - at,
    {
        let ghost before = result@;
        let ghost rest = text@.skip(at as int);
        if stands_at(&characters, at, &wanted) {
            result.append(with);
            at = at + wanted.len();
            assert(rest.skip(pattern@.len() as int) =~= text@.skip(at as int));
            assert(before + (with@ + replaced(text@.skip(at as int), pattern@, with@)) =~= result@
                + replaced(text@.skip(at as int), pattern@, with@));
        } else {
            result.push(characters[at]);
            at = at + 1;
            assert(rest.skip(1) =~= text@.skip(at as int));
            assert(before + (seq![rest[0]] + replaced(text@.skip(at as int), pattern@, with@))
                =~= result@ + replaced(text@.skip(at as int), pattern@, with@));
        }
    }
    assert(result@ + replaced(text@.skip(at as int), pattern@, with@) =~= result@);
    result
}

// ---------------------------------------------------------------------------
// Splitting
// ---------------------------------------------------------------------------

/// The fields of `text` between the separators: always at least one.
pub open spec fn fields(text: Seq<char>, separator: char) -> Seq<Seq<char>>
    decreases text.len(),
{
    if text.len() == 0 {
        seq![Seq::empty()]
    } else {
        let before = fields(text.drop_last(), separator);
        if text.last() == separator {
            before.push(Seq::empty())
        } else {
            before.drop_last().push(before.last().push(text.last()))
        }
    }
}

/// There is at least one field.
pub proof fn lemma_fields_nonempty(text: Seq<char>, separator: char)
    ensures
        fields(text, separator).len() >= 1,
    decreases text.len(),
{
    if text.len() > 0 {
        lemma_fields_nonempty(text.drop_last(), separator);
    }
}

/// Splits at each separator.
pub fn split(text: &str, separator: char) -> (parts: Vec<String>)
    ensures
        views(parts@) == fields(text@, separator),
{
    let characters = chars_of(text);
    let mut parts: Vec<String> = Vec::new();
    let mut current = String::new();
    let mut index: usize = 0;
    assert(text@.take(0) =~= Seq::<char>::empty());
    assert(views(parts@).push(current@) =~= fields(text@.take(0), separator));
    while index < characters.len()
        invariant
            characters@ == text@,
            index <= characters@.len(),
            views(parts@).push(current@) == fields(text@.take(index as int), separator),
        decreases characters@.len() - index,
    {
        let character = characters[index];
        let ghost before = views(parts@);
        let ghost field = current@;
        let ghost taken = text@.take(index as int + 1);
        assert(taken.drop_last() =~= text@.take(index as int));
        assert(before.push(field).drop_last() =~= before);
        if character == separator {
            parts.push(current);
            current = String::new();
            assert(views(parts@) =~= before.push(field));
            assert(views(parts@).push(current@) =~= fields(taken, separator));
        } else {
            current.push(character);
            assert(views(parts@).push(current@) =~= fields(taken, separator));
        }
        index = index + 1;
    }
    assert(text@.take(index as int) =~= text@);
    let ghost before = views(parts@);
    let ghost field = current@;
    parts.push(current);
    assert(views(parts@) =~= before.push(field));
    parts
}

/// A text without the separator is its only field.
pub proof fn lemma_fields_single(text: Seq<char>, separator: char)
    requires
        !text.contains(separator),
    ensures
        fields(text, separator) == seq![text],
    decreases text.len(),
{
    if text.len() == 0 {
        assert(text =~= Seq::empty());
    } else {
        let front = text.drop_last();
        assert(!front.contains(separator)) by {
            if front.contains(separator) {
                let i = choose|i: int| 0 <= i < front.len() && front[i] == separator;
                assert(text[i] == separator);
            }
        }
        assert(text[text.len() - 1] != separator);
        lemma_fields_single(front, separator);
        assert(front.push(text.last()) =~= text);
        assert(fields(text, separator) =~= seq![text]);
    }
}

/// The fields of two texts with a separator between them are the fields of the first followed by
/// those of the second.
pub proof fn lemma_fields_concat(left: Seq<char>, right: Seq<char>, separator: char)
    ensures
        fields(left.push(separator) + right, separator) == fields(left, separator) + fields(
            right,
            separator,
        ),
    decreases right.len(),
{
    let whole = left.push(separator) + right;
    if right.len() == 0 {
        assert(whole =~= left.push(separator));
        assert(whole.drop_last() =~= left);
        assert(fields(whole, separator) =~= fields(left, separator) + fields(right, separator));
    } else {
        lemma_fields_concat(left, right.drop_last(), separator);
        lemma_fields_nonempty(right.drop_last(), separator);
        assert(whole.drop_last() =~= left.push(separator) + right.drop_last());
        assert(whole.last() == right.last());
        assert(fields(whole, separator) =~= fields(left, separator) + fields(right, separator));
    }
}

// ---------------------------------------------------------------------------
// Decimal numbers
// ---------------------------------------------------------------------------

/// `character` is one of the ten decimal digits.
pub open spec fn is_digit(character: char) -> bool {
    0x30 <= character as u32 <= 0x39
}

/// The value of a decimal digit.
pub open spec fn digit_value(character: char) -> nat {
    (character as u32 - 0x30) as nat
}

/// The decimal digit for a value below ten.
pub open spec fn digit(value: nat) -> char {
    (0x30 + value) as char
}

/// Every character of `text` is a decimal digit.
pub open spec fn all_digits(text: Seq<char>) -> bool {
    forall|i: int| 0 <= i < text.len() ==> is_digit(#[trigger] text[i])
}

/// The number that a sequence of decimal digits writes.
pub open spec fn decimal_value(text: Seq<char>) -> nat
    decreases text.len(),
{
    if text.len() == 0 {
        0
    } else {
        decimal_value(text.drop_last()) * 10 + digit_value(text.last())
    }
}

/// The number as decimal digits, without leading zeros.
pub open spec fn decimal(value: nat) -> Seq<char>
    decreases value,
{
    if value < 10 {
        seq![digit(value)]
    } else {
        decimal(value / 10).push(digit(value % 10))
    }
}

/// `text` without one leading plus sign.
pub open spec fn without_plus(text: Seq<char>) -> Seq<char> {
    if text.len() > 0 && text[0] == '+' {
        text.skip(1)
    } else {
        text
    }
}

/// The 64-bit number that `text` writes: an optional plus sign and at least one digit, with a
/// value in range.
pub open spec fn parsed_u64(text: Seq<char>) -> Option<u64> {
    let digits = without_plus(text);
    if digits.len() > 0 && all_digits(digits) && decimal_value(digits) <= u64::MAX {
        Some(decimal_value(digits) as u64)
    } else {
        None
    }
}

/// Whether every character is a decimal digit.
pub fn only_digits(text: &str) -> (all: bool)
    ensures
        all == all_digits(text@),
{
    let characters = chars_of(text);
    let mut index: usize = 0;
    while index < characters.len()
        invariant
            characters@ == text@,
            index <= characters@.len(),
            forall|i: int| 0 <= i < index ==> is_digit(#[trigger] text@[i]),
        decreases characters@.len() - index,
    {
        let code: u32 = characters[index] as u32;
        if code < 0x30 || code > 0x39 {
            assert(!is_digit(text@[index as int]));
            return false;
        }
        index = index + 1;
    }
    true
}

proof fn lemma_decimal_value_grows(text: Seq<char>, length: int)
    requires
        0 <= length <= text.len(),
    ensures
        decimal_value(text.take(length)) <= decimal_value(text),
    decreases text.len() - length,
{
    if length == text.len() {
        assert(text.take(length) =~= text);
    } else {
        lemma_decimal_value_grows(text, length + 1);
        assert(text.take(length + 1).drop_last() =~= text.take(length));
    }
}

/// Reads a 64-bit decimal number.
pub fn parse_u64(text: &str) -> (value: Option<u64>)
    ensures
        value == parsed_u64(text@),
{
    let characters = chars_of(text);
    let length: usize = characters.len();
    let start: usize = if length > 0 && characters[0] == '+' {
        1
    } else {
        0
    };
    let ghost digits = without_plus(text@);
    assert(digits =~= text@.skip(start as int));
    if start == length {
        return None;
    }
    let mut index: usize = start;
    let mut value: u64 = 0;
    while index < length
        invariant
            length == characters@.len(),
            characters@ == text@,
            start <= index <= length,
            digits == text@.skip(start as int),
            digits == without_plus(text@),
            all_digits(digits.take(index - start)),
            value == decimal_value(digits.take(index - start)),
        decreases length - index,
    {
        let code: u32 = characters[index] as u32;
        let ghost at = index - start;
        assert(digits[at] == text@[index as int]);
        assert(digits.take(at + 1).drop_last() =~= digits.take(at));
        assert(digits.take(at + 1).last() == digits[at]);
        if code < 0x30 || code > 0x39 {
            assert(!is_digit(digits[at]));
            return None;
        }
        let next: u64 = (code - 0x30) as u64;
        proof {
            lemma_decimal_value_grows(digits, at + 1);
        }
        if value > (u64::MAX - next) / 10 {
            return None;
        }
        value = value * 10 + next;
        index = index + 1;
        assert(all_digits(digits.take(index - start))) by {
            assert forall|i: int| 0 <= i < index - start implies is_digit(
                #[trigger] digits.take(index - start)[i],
            ) by {
                if i < at {
                    assert(digits.take(at)[i] == digits[i]);
                }
            }
        }
    }
    assert(digits.take(index - start) =~= digits);
    Some(value)
}

fn digit_char(value: u64) -> (character: char)
    requires
        value < 10,
    ensures
        character == digit(value as nat),
{
    let code: u8 = 0x30u8 + value as u8;
    code as char
}

/// Writes a 64-bit number in decimal.
pub fn decimal_text(value: u64) -> (text: String)
    ensures
        text@ == decimal(value as nat),
    decreases value,
{
    if value < 10 {
        let mut text = String::new();
        text.push(digit_char(value));
        assert(text@ =~= decimal(value as nat));
        text
    } else {
        let mut text = decimal_text(value / 10);
        text.push(digit_char(value % 10));
        text
    }
}

/// Decimal digits read back as the number that they were written from.
pub proof fn lemma_decimal_reads_back(value: nat)
    ensures
        decimal(value).len() > 0,
        all_digits(decimal(value)),
        decimal_value(decimal(value)) == value,
    decreases value,
{
    if value < 10 {
        let text = decimal(value);
        assert(text.drop_last() =~= Seq::empty());
        assert(decimal_value(Seq::<char>::empty()) == 0);
        assert(is_digit(digit(value)) && digit_value(digit(value)) == value);
    } else {
        lemma_decimal_reads_back(value / 10);
        let text = decimal(value);
        assert(text.drop_last() =~= decimal(value / 10));
        assert(is_digit(digit(value % 10)) && digit_value(digit(value % 10)) == value % 10);
        assert forall|i: int| 0 <= i < text.len() implies is_digit(#[trigger] text[i]) by {
            if i < text.len() - 1 {
                assert(text[i] == decimal(value / 10)[i]);
            }
        }
    }
}

/// Reading a written number gives the number back.
pub proof fn lemma_decimal_round_trip(value: u64)
    ensures
        parsed_u64(decimal(value as nat)) == Some(value),
{
    lemma_decimal_reads_back(value as nat);
    let text = decimal(value as nat);
    assert(is_digit(text[0]));
    assert(without_plus(text) == text);
}

// ---------------------------------------------------------------------------
// ASCII case
// ---------------------------------------------------------------------------

/// `character` with an ASCII capital letter made small.
pub open spec fn ascii_lower(character: char) -> char {
    if 0x41 <= character as u32 <= 0x5a {
        (character as u32 + 0x20) as char
    } else {
        character
    }
}

/// `text` with its ASCII capital letters made small.
pub open spec fn ascii_lowered(text: Seq<char>) -> Seq<char> {
    Seq::new(text.len(), |i: int| ascii_lower(text[i]))
}

fn ascii_lower_char(character: char) -> (lower: char)
    ensures
        lower == ascii_lower(character),
{
    let code: u32 = character as u32;
    if 0x41 <= code && code <= 0x5a {
        let small: u8 = code as u8 + 0x20u8;
        small as char
    } else {
        character
    }
}

/// Makes ASCII capital letters small.
pub fn to_ascii_lowercase(text: &str) -> (lower: String)
    ensures
        lower@ == ascii_lowered(text@),
{
    let characters = chars_of(text);
    let mut lower = String::new();
    let mut index: usize = 0;
    while index < characters.len()
        invariant
            characters@ == text@,
            index <= characters@.len(),
            lower@ == ascii_lowered(text@).take(index as int),
        decreases characters@.len() - index,
    {
        lower.push(ascii_lower_char(characters[index]));
        index = index + 1;
        assert(lower@ =~= ascii_lowered(text@).take(index as int));
    }
    assert(ascii_lowered(text@).take(index as int) =~= ascii_lowered(text@));
    lower
}

/// Two texts are equal when ASCII case is ignored.
pub open spec fn same_ignoring_case(left: Seq<char>, right: Seq<char>) -> bool {
    ascii_lowered(left) == ascii_lowered(right)
}

/// Compares two strings without regard to ASCII case.
pub fn eq_ignore_ascii_case(left: &str, right: &str) -> (equal: bool)
    ensures
        equal == same_ignoring_case(left@, right@),
{
    to_ascii_lowercase(left) == to_ascii_lowercase(right)
}

// ---------------------------------------------------------------------------
// Order
// ---------------------------------------------------------------------------

/// `left` stands behind `right` in the order of the characters' code points.
pub open spec fn text_after(left: Seq<char>, right: Seq<char>) -> bool
    decreases left.len(),
{
    if left.len() == 0 {
        false
    } else if right.len() == 0 {
        true
    } else if left[0] == right[0] {
        text_after(left.skip(1), right.skip(1))
    } else {
        left[0] as int > right[0] as int
    }
}

/// Whether the left text stands behind the right one.
pub fn is_after(left: &str, right: &str) -> (after: bool)
    ensures
        after == text_after(left@, right@),
{
    let first = chars_of(left);
    let second = chars_of(right);
    let mut index: usize = 0;
    assert(left@.skip(0) =~= left@);
    assert(right@.skip(0) =~= right@);
    while index < first.len() && index < second.len()
        invariant
            first@ == left@,
            second@ == right@,
            index <= first@.len(),
            index <= second@.len(),
            text_after(left@, right@) == text_after(
                left@.skip(index as int),
                right@.skip(index as int),
            ),
        decreases first@.len() - index,
    {
        assert(left@.skip(index as int)[0] == left@[index as int]);
        assert(right@.skip(index as int)[0] == right@[index as int]);
        if first[index] != second[index] {
            let one: char = first[index];
            let other: char = second[index];
            return one > other;
        }
        assert(left@.skip(index as int).skip(1) =~= left@.skip(index as int + 1));
        assert(right@.skip(index as int).skip(1) =~= right@.skip(index as int + 1));
        index = index + 1;
    }
    index < first.len()
}

/// The order is strict: no text stands behind itself, no two texts stand behind each other, and
/// the order carries over a text in between.
pub proof fn lemma_text_order(a: Seq<char>, b: Seq<char>, c: Seq<char>)
    ensures
        !text_after(a, a),
        !(text_after(a, b) && text_after(b, a)),
        text_after(a, b) && text_after(b, c) ==> text_after(a, c),
        a == b || text_after(a, b) || text_after(b, a),
    decreases a.len() + b.len() + c.len(),
{
    let rest_a = if a.len() > 0 { a.skip(1) } else { a };
    let rest_b = if b.len() > 0 { b.skip(1) } else { b };
    let rest_c = if c.len() > 0 { c.skip(1) } else { c };
    if a.len() + b.len() + c.len() > 0 {
        lemma_text_order(rest_a, rest_b, rest_c);
        if a.len() > 0 && b.len() > 0 && a[0] == b[0] && rest_a == rest_b {
            assert(a =~= seq![a[0]] + rest_a);
            assert(b =~= seq![b[0]] + rest_b);
        }
    }
    if a.len() == 0 && b.len() == 0 {
        assert(a =~= b);
    }
}

/// Trimming takes away the white space around a text and nothing of the text itself.
pub proof fn trimming_removes_the_space_around(
    before: Seq<char>,
    core: Seq<char>,
    after: Seq<char>,
)
    requires
        forall|i: int| 0 <= i < before.len() ==> white_space(#[trigger] before[i]),
        forall|i: int| 0 <= i < after.len() ==> white_space(#[trigger] after[i]),
        core.len() > 0,
        !white_space(core[0]) && !white_space(core.last()),
    ensures
        trimmed(before + core + after) == core,
    decreases before.len() + after.len(),
{
    let whole = before + core + after;
    if before.len() > 0 {
        assert(whole[0] == before[0]);
        assert(whole.skip(1) =~= before.skip(1) + core + after);
        assert forall|i: int| 0 <= i < before.skip(1).len() implies white_space(
            #[trigger] before.skip(1)[i],
        ) by {
            assert(before.skip(1)[i] == before[i + 1]);
        }
        trimming_removes_the_space_around(before.skip(1), core, after);
    } else if after.len() > 0 {
        assert(whole[0] == core[0]);
        assert(whole.last() == after.last());
        assert(white_space(after[after.len() - 1]));
        let shorter = before + core + after.drop_last();
        assert(whole.drop_last() =~= shorter);
        assert forall|i: int| 0 <= i < after.drop_last().len() implies white_space(
            #[trigger] after.drop_last()[i],
        ) by {
            assert(after.drop_last()[i] == after[i]);
        }
        assert(shorter[0] == core[0]);
        trimming_removes_the_space_around(before, core, after.drop_last());
    } else {
        assert(whole =~= core);
    }
}

/// Nothing is left of a text that is white space throughout.
pub proof fn blank_texts_trim_to_nothing(blank: Seq<char>)
    requires
        forall|i: int| 0 <= i < blank.len() ==> white_space(#[trigger] blank[i]),
    ensures
        trimmed(blank).len() == 0,
    decreases blank.len(),
{
    if blank.len() > 0 {
        assert(white_space(blank[0]));
        assert forall|i: int| 0 <= i < blank.skip(1).len() implies white_space(
            #[trigger] blank.skip(1)[i],
        ) by {
            assert(blank.skip(1)[i] == blank[i + 1]);
        }
        blank_texts_trim_to_nothing(blank.skip(1));
    }
}

/// Spaces, tabs and line ends are white space; what is printed in ASCII is not.
pub proof fn printed_characters_are_no_space(character: char)
    ensures
        0x21 <= character as u32 <= 0x7e ==> !white_space(character),
        character == ' ' || character == '\t' || character == '\n' || character == '\r'
            ==> white_space(character),
{
}

/// Replacing works from the left: what stands before the first occurrence stays, the occurrence
/// gives its place, and the rest is treated alike. A text without the pattern stays as it is.
pub proof fn occurrences_are_replaced(text: Seq<char>, pattern: Seq<char>, with: Seq<char>)
    requires
        pattern.len() > 0,
    ensures
        match first_match(text, pattern) {
            Some(at) => replaced(text, pattern, with) == text.take(at) + with + replaced(
                text.skip(at + pattern.len()),
                pattern,
                with,
            ),
            None => replaced(text, pattern, with) == text,
        },
    decreases text.len(),
{
    if begins_with(text, pattern) {
        assert(text.take(0) + with =~= with);
    } else if text.len() > 0 {
        let rest = text.skip(1);
        occurrences_are_replaced(rest, pattern, with);
        lemma_first_match(rest, pattern);
        match first_match(rest, pattern) {
            Some(at) => {
                assert(rest.skip(at + pattern.len()) =~= text.skip(at + 1 + pattern.len()));
                let tail = replaced(text.skip(at + 1 + pattern.len()), pattern, with);
                assert(seq![text[0]] + (rest.take(at) + with + tail) =~= text.take(at + 1) + with
                    + tail);
            },
            None => {
                assert(seq![text[0]] + rest =~= text);
            },
        }
    }
}

/// Decimal digits weigh ten times as much as the digit to their right, in reading and in writing.
pub proof fn digits_weigh_ten_times_the_next(digits: Seq<char>, character: char, value: nat)
    requires
        0x30 <= character as u32 <= 0x39,
    ensures
        decimal_value(digits.push(character)) == 10 * decimal_value(digits) + (character as u32
            - 0x30),
        value > 0 ==> decimal((10 * value + (character as u32 - 0x30)) as nat) == decimal(
            value,
        ).push(character),
        decimal((character as u32 - 0x30) as nat) == seq![character],
{
    assert(digits.push(character).drop_last() =~= digits);
}

/// Two characters are the same, or a capital letter A to Z and its small one.
pub open spec fn same_letter(left: char, right: char) -> bool {
    ||| left as int == right as int
    ||| 0x41 <= left as int <= 0x5a && right as int == left as int + 0x20
    ||| 0x41 <= right as int <= 0x5a && left as int == right as int + 0x20
}

proof fn lemma_same_letter(left: char, right: char)
    ensures
        ascii_lower(left) == ascii_lower(right) <==> same_letter(left, right),
{
    let one = left as u32;
    let other = right as u32;
    assert(0x41 <= one <= 0x5a ==> ascii_lower(left) as u32 == one + 0x20);
    assert(0x41 <= other <= 0x5a ==> ascii_lower(right) as u32 == other + 0x20);
}

/// Two texts are the same without regard to case when they agree in each place, but for a capital
/// letter A to Z in one and the small one in the other.
pub proof fn case_is_ignored_letter_by_letter(left: Seq<char>, right: Seq<char>)
    ensures
        same_ignoring_case(left, right) <==> left.len() == right.len() && forall|i: int|
            0 <= i < left.len() ==> same_letter(#[trigger] left[i], right[i]),
{
    let low = ascii_lowered(left);
    let right_low = ascii_lowered(right);
    assert forall|i: int| 0 <= i < left.len() && 0 <= i < right.len() implies (low[i]
        == right_low[i] <==> same_letter(#[trigger] left[i], right[i])) by {
        lemma_same_letter(left[i], right[i]);
    }
    if same_ignoring_case(left, right) {
        assert(low.len() == right_low.len());
    }
    if left.len() == right.len() && forall|i: int|
        0 <= i < left.len() ==> same_letter(#[trigger] left[i], right[i]) {
        assert forall|i: int| 0 <= i < low.len() implies low[i] == right_low[i] by {
            assert(same_letter(left[i], right[i]));
        }
        assert(low =~= right_low);
    }
}

/// A text stands behind another where its first other character has the larger code, and behind
/// its own beginning.
pub proof fn larger_characters_stand_behind(
    common: Seq<char>,
    larger: char,
    smaller: char,
    left: Seq<char>,
    right: Seq<char>,
)
    requires
        larger as u32 > smaller as u32,
    ensures
        text_after(common.push(larger) + left, common.push(smaller) + right),
        text_after(common.push(larger), common),
    decreases common.len(),
{
    let first = common.push(larger) + left;
    let second = common.push(smaller) + right;
    if common.len() == 0 {
        assert(first[0] == larger && second[0] == smaller);
    } else {
        assert(first.skip(1) =~= common.skip(1).push(larger) + left);
        assert(second.skip(1) =~= common.skip(1).push(smaller) + right);
        assert(common.push(larger).skip(1) =~= common.skip(1).push(larger));
        larger_characters_stand_behind(common.skip(1), larger, smaller, left, right);
    }
}

/// A text begins with what it is continued from and ends with what it is continued by, and with
/// nothing else of that length.
pub proof fn texts_begin_and_end_with_their_parts(
    front: Seq<char>,
    back: Seq<char>,
    other: Seq<char>,
)
    ensures
        begins_with(front + back, front),
        ends_with(front + back, back),
        other.len() == front.len() && other != front ==> !begins_with(front + back, other),
        other.len() == back.len() && other != back ==> !ends_with(front + back, other),
        other.len() > front.len() + back.len() ==> !begins_with(front + back, other)
            && !ends_with(front + back, other),
        decimal_value(Seq::empty()) == 0,
{
    assert((front + back).take(front.len() as int) =~= front);
    assert((front + back).skip((front + back).len() - back.len()) =~= back);
}

} // verus!

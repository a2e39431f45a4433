//! Text as sequences of characters: conversion from and to strings, words
//! and fields of a line, and decimal numbers.

use vstd::prelude::*;

verus! {

/// `String::push` appends one character at the end of the string.
pub assume_specification[ String::push ](s: &mut String, c: char)
    ensures
        final(s)@ == old(s)@.push(c),
;

/// What a list of strings holds: the characters of each, in order.
pub open spec fn strings_view(strings: Seq<String>) -> Seq<Seq<char>> {
    strings.map_values(|s: String| s@)
}

/// What a list of texts holds: the characters of each, in order.
pub open spec fn texts_view(texts: Seq<Vec<char>>) -> Seq<Seq<char>> {
    texts.map_values(|t: Vec<char>| t@)
}

/// The characters of `s`, in order.
pub fn chars_of(s: &str) -> (chars: Vec<char>)
    ensures
        chars@ == s@,
{
    let mut chars: Vec<char> = Vec::new();
    for c in it: s.chars()
        invariant
            chars@ == it.seq().take(it.index() as int),
            it.seq() == s@,
    {
        chars.push(c);
    }
    chars
}

/// The string made of `chars`, in order.
pub fn string_of(chars: &Vec<char>) -> (s: String)
    ensures
        s@ == chars@,
{
    let mut s = String::new();
    let mut i: usize = 0;
    while i < chars.len()
        invariant
            i <= chars.len(),
            s@ == chars@.take(i as int),
        decreases chars.len() - i,
    {
        s.push(chars[i]);
        i += 1;
    }
    s
}

/// The strings made of each of `texts`, in order.
pub fn strings_of(texts: &Vec<Vec<char>>) -> (strings: Vec<String>)
    ensures
        strings_view(strings@) == texts_view(texts@),
{
    let mut strings: Vec<String> = Vec::new();
    let mut i: usize = 0;
    while i < texts.len()
        invariant
            i <= texts.len(),
            strings_view(strings@) == texts_view(texts@.take(i as int)),
        decreases texts.len() - i,
    {
        strings.push(string_of(&texts[i]));
        proof {
            assert(texts_view(texts@.take(i + 1)) =~= texts_view(texts@.take(i as int)).push(
                texts@[i as int]@,
            ));
        }
        i += 1;
    }
    strings
}

/// Whether `text` is exactly `word`.
pub fn is_word(text: &Vec<char>, word: &str) -> (same: bool)
    ensures
        same == (text@ == word@),
{
    let wanted = chars_of(word);
    if text.len() != wanted.len() {
        return false;
    }
    let mut i: usize = 0;
    while i < text.len()
        invariant
            i <= text.len(),
            text.len() == wanted.len(),
            wanted@ == word@,
            text@.take(i as int) == wanted@.take(i as int),
        decreases text.len() - i,
    {
        if text[i] != wanted[i] {
            return false;
        }
        i += 1;
    }
    assert(text@.take(i as int) =~= text@);
    assert(wanted@.take(i as int) =~= wanted@);
    true
}

/// Whether `c` separates words: a space, a tab, a line feed, a vertical
/// tab, a form feed or a carriage return.
pub open spec fn is_blank(c: char) -> bool {
    c == ' ' || ('\t' <= c && c <= '\r')
}

/// Whether `c` separates words.
pub fn blank(c: char) -> (b: bool)
    ensures
        b == is_blank(c),
{
    c == ' ' || ('\t' <= c && c <= '\r')
}

/// The words of `line`: the longest runs of characters that are not blank,
/// in the order in which they stand in the line.
pub open spec fn words(line: Seq<char>) -> Seq<Seq<char>>
    decreases line.len(),
{
    if line.len() == 0 {
        Seq::empty()
    } else {
        let before = line.drop_last();
        let c = line.last();
        if is_blank(c) {
            words(before)
        } else if before.len() > 0 && !is_blank(before.last()) {
            words(before).drop_last().push(words(before).last().push(c))
        } else {
            words(before).push(seq![c])
        }
    }
}

/// No word is empty and no word holds a blank.
pub proof fn words_are_solid(line: Seq<char>, i: int)
    requires
        0 <= i < words(line).len(),
    ensures
        words(line)[i].len() > 0,
        forall|j: int| 0 <= j < words(line)[i].len() ==> !is_blank(#[trigger] words(line)[i][j]),
    decreases line.len(),
{
    if line.len() > 0 {
        let before = line.drop_last();
        let c = line.last();
        if is_blank(c) {
            words_are_solid(before, i);
        } else if before.len() > 0 && !is_blank(before.last()) {
            if i < words(before).len() - 1 {
                words_are_solid(before, i);
            } else {
                words_are_solid(before, words(before).len() - 1);
            }
        } else {
            if i < words(before).len() {
                words_are_solid(before, i);
            }
        }
    }
}

/// A line that holds blanks only has no words, and the other way round.
pub proof fn blank_line_has_no_words(line: Seq<char>)
    ensures
        words(line).len() == 0 <==> forall|i: int| 0 <= i < line.len() ==> is_blank(line[i]),
    decreases line.len(),
{
    if line.len() > 0 {
        let before = line.drop_last();
        blank_line_has_no_words(before);
        if is_blank(line.last()) {
            assert forall|i: int| 0 <= i < before.len() implies before[i] == line[i] by {}
        }
    }
}

/// The words of `line`.
pub fn split_words(line: &Vec<char>) -> (found: Vec<Vec<char>>)
    ensures
        texts_view(found@) == words(line@),
{
    let mut found: Vec<Vec<char>> = Vec::new();
    let mut word: Vec<char> = Vec::new();
    let mut i: usize = 0;
    while i < line.len()
        invariant
            i <= line.len(),
            word@.len() == 0 <==> (i == 0 || is_blank(line@[i - 1])),
            words(line@.take(i as int)) == if word@.len() == 0 {
                texts_view(found@)
            } else {
                texts_view(found@).push(word@)
            },
        decreases line.len() - i,
    {
        let c = line[i];
        proof {
            assert(line@.take(i + 1).drop_last() =~= line@.take(i as int));
        }
        if blank(c) {
            if word.len() > 0 {
                found.push(word);
                word = Vec::new();
            }
        } else {
            word.push(c);
            assert(word@.len() == 1 ==> word@ =~= seq![c]);
        }
        i += 1;
    }
    assert(line@.take(i as int) =~= line@);
    if word.len() > 0 {
        found.push(word);
    }
    found
}

/// `words` put together again with one space between each two.
pub open spec fn joined(words: Seq<Seq<char>>) -> Seq<char>
    decreases words.len(),
{
    if words.len() == 0 {
        Seq::empty()
    } else if words.len() == 1 {
        words[0]
    } else {
        joined(words.drop_last()).push(' ') + words.last()
    }
}

/// The words of `words` from position `from` on, put together with one
/// space between each two. Behind the last word there is nothing to put
/// together.
pub fn join_from(words: &Vec<Vec<char>>, from: usize) -> (line: Vec<char>)
    ensures
        from <= words.len() ==> line@ == joined(texts_view(words@).skip(from as int)),
        from > words.len() ==> line@ == Seq::<char>::empty(),
{
    if from > words.len() {
        return Vec::new();
    }
    let ghost all = texts_view(words@).skip(from as int);
    let mut line: Vec<char> = Vec::new();
    let mut i: usize = from;
    while i < words.len()
        invariant
            from <= i <= words.len(),
            all == texts_view(words@).skip(from as int),
            line@ == joined(all.take(i - from)),
        decreases words.len() - i,
    {
        proof {
            assert(all.take(i + 1 - from).drop_last() =~= all.take(i - from));
        }
        if i > from {
            line.push(' ');
        }
        let ghost start = line@;
        let word = &words[i];
        let mut j: usize = 0;
        while j < word.len()
            invariant
                j <= word.len(),
                line@ == start + word@.take(j as int),
            decreases word.len() - j,
        {
            line.push(word[j]);
            j += 1;
        }
        i += 1;
    }
    assert(all.take(i - from) =~= all);
    line
}

/// Whether `c` is a decimal digit.
pub open spec fn is_digit(c: char) -> bool {
    '0' <= c && c <= '9'
}

/// Whether `text` is a decimal number: one digit or more, and nothing else.
pub open spec fn is_number(text: Seq<char>) -> bool {
    text.len() > 0 && forall|i: int| 0 <= i < text.len() ==> is_digit(#[trigger] text[i])
}

/// The number that the digits of `text` write down.
pub open spec fn number(text: Seq<char>) -> nat
    decreases text.len(),
{
    if text.len() == 0 {
        0
    } else {
        number(text.drop_last()) * 10 + (text.last() as nat - '0' as nat) as nat
    }
}

/// A number is no smaller than the number that its first digits write down.
pub proof fn number_grows_with_digits(text: Seq<char>, i: int)
    requires
        0 <= i <= text.len(),
    ensures
        number(text.take(i)) <= number(text),
    decreases text.len() - i,
{
    if i < text.len() {
        number_grows_with_digits(text, i + 1);
        assert(text.take(i + 1).drop_last() =~= text.take(i));
        assert(number(text.take(i)) <= number(text.take(i)) * 10) by (nonlinear_arith);
    } else {
        assert(text.take(i) =~= text);
    }
}

/// The number that `text` writes down, if `text` is a decimal number that
/// fits the machine's word.
pub fn parse_number(text: &Vec<char>) -> (value: Option<usize>)
    ensures
        value == if is_number(text@) && number(text@) <= usize::MAX {
            Some(number(text@) as usize)
        } else {
            None
        },
{
    if text.len() == 0 {
        return None;
    }
    let mut value: usize = 0;
    let mut i: usize = 0;
    while i < text.len()
        invariant
            i <= text.len(),
            forall|j: int| 0 <= j < i ==> is_digit(#[trigger] text@[j]),
            value == number(text@.take(i as int)),
        decreases text.len() - i,
    {
        let c = text[i];
        if !('0' <= c && c <= '9') {
            return None;
        }
        let digit: usize = (c as u32 - '0' as u32) as usize;
        proof {
            assert(text@.take(i + 1).drop_last() =~= text@.take(i as int));
            number_grows_with_digits(text@, i + 1);
        }
        if value > (usize::MAX - digit) / 10 {
            return None;
        }
        value = value * 10 + digit;
        i += 1;
    }
    assert(text@.take(i as int) =~= text@);
    Some(value)
}

/// The fields of `text`: the runs of characters between each two `separator`s,
/// before the first and behind the last. There is always at least one field.
pub open spec fn fields(text: Seq<char>, separator: char) -> Seq<Seq<char>>
    decreases text.len(),
{
    if text.len() == 0 {
        seq![Seq::empty()]
    } else {
        let before = fields(text.drop_last(), separator);
        if text.last() == separator {
            before.push(Seq::empty())
        } else {
            before.drop_last().push(before.last().push(text.last()))
        }
    }
}

/// There is one field more than there are separators.
pub proof fn fields_are_never_none(text: Seq<char>, separator: char)
    ensures
        fields(text, separator).len() >= 1,
    decreases text.len(),
{
}

/// The fields of `text`.
pub fn split_fields(text: &str, separator: char) -> (found: Vec<String>)
    ensures
        strings_view(found@) == fields(text@, separator),
{
    let text = chars_of(text);
    let mut found: Vec<String> = Vec::new();
    let mut field: Vec<char> = Vec::new();
    let mut i: usize = 0;
    while i < text.len()
        invariant
            i <= text.len(),
            fields(text@.take(i as int), separator) == strings_view(found@).push(field@),
        decreases text.len() - i,
    {
        let c = text[i];
        proof {
            assert(text@.take(i + 1).drop_last() =~= text@.take(i as int));
        }
        if c == separator {
            found.push(string_of(&field));
            field = Vec::new();
        } else {
            field.push(c);
        }
        i += 1;
    }
    assert(text@.take(i as int) =~= text@);
    found.push(string_of(&field));
    found
}

} // verus!

//! Text: characters in and out of strings, numbers written out, and one text
//! put in the place of another.

use vstd::prelude::*;

verus! {

/// The characters of `text`, in order.
pub fn chars_of(text: &str) -> (chars: Vec<char>)
    ensures
        chars@ == text@,
{
    let mut chars: Vec<char> = Vec::new();
    for c in it: text.chars()
        invariant
            chars@ == it.seq().take(it.index() as int),
            it.seq() == text@,
    {
        chars.push(c);
    }
    chars
}

/// Calls `String::push`, which puts one character at the end of a string.
#[verifier::external_body]
fn push_char(text: &mut String, c: char)
    ensures
        final(text)@ == old(text)@.push(c),
{
    text.push(c)
}

/// The string that holds `chars`, in order.
pub fn string_of(chars: &Vec<char>) -> (text: String)
    ensures
        text@ == chars@,
{
    let mut text = String::new();
    let mut i: usize = 0;
    while i < chars.len()
        invariant
            i <= chars.len(),
            text@ == chars@.take(i as int),
        decreases chars.len() - i,
    {
        push_char(&mut text, chars[i]);
        i = i + 1;
    }
    text
}

/// Puts the characters of `more` at the end of `out`.
pub fn push_all(out: &mut Vec<char>, more: &Vec<char>)
    ensures
        final(out)@ == old(out)@ + more@,
{
    let mut i: usize = 0;
    while i < more.len()
        invariant
            i <= more.len(),
            out@ == old(out)@ + more@.take(i as int),
        decreases more.len() - i,
    {
        out.push(more[i]);
        i = i + 1;
    }
}

/// The character that writes the digit `digit`.
pub open spec fn digit_char(digit: nat) -> char {
    ('0' as nat + digit) as char
}

/// `number` written out in decimal digits, without a sign and without
/// leading zeros.
pub open spec fn decimal(number: nat) -> Seq<char>
    decreases number,
{
    if number < 10 {
        seq![digit_char(number)]
    } else {
        decimal(number / 10).push(digit_char(number % 10))
    }
}

/// The character that writes a digit.
fn char_of_digit(digit: u8) -> (c: char)
    requires
        digit < 10,
    ensures
        c == digit_char(digit as nat),
{
    match digit {
        0 => '0',
        1 => '1',
        2 => '2',
        3 => '3',
        4 => '4',
        5 => '5',
        6 => '6',
        7 => '7',
        8 => '8',
        _ => '9',
    }
}

/// Writes `number` in decimal digits at the end of `out`.
pub fn push_decimal(out: &mut Vec<char>, number: u128)
    ensures
        final(out)@ == old(out)@ + decimal(number as nat),
    decreases number,
{
    if number >= 10 {
        push_decimal(out, number / 10);
    }
    out.push(char_of_digit((number % 10) as u8));
}

/// Whether `pattern` stands in `text` at place `at`.
pub open spec fn stands_at(text: Seq<char>, at: int, pattern: Seq<char>) -> bool {
    0 <= at && at + pattern.len() <= text.len() && text.subrange(at, at + pattern.len())
        == pattern
}

/// The marks of `marks` as texts: what is looked for, and what is written in
/// its place.
pub open spec fn marks_of(marks: Seq<(Vec<char>, Vec<char>)>) -> Seq<(Seq<char>, Seq<char>)> {
    marks.map_values(|mark: (Vec<char>, Vec<char>)| (mark.0@, mark.1@))
}

/// `text` read once from the left, the marks tried from place `from` of
/// their list on for the head of the text.
///
/// Where a mark stands at the head, its value is written and the reading
/// goes on behind the mark; what was written is not read again. Where none
/// stands, the first character is copied. Of two marks that stand at the
/// same place, the one that comes first in the list is taken. An empty mark
/// stands nowhere.
pub open spec fn substituted_from(
    text: Seq<char>,
    marks: Seq<(Seq<char>, Seq<char>)>,
    from: int,
) -> Seq<char>
    decreases text.len(), marks.len() - from,
{
    if text.len() == 0 {
        text
    } else if !(0 <= from < marks.len()) {
        seq![text[0]] + substituted_from(text.skip(1), marks, 0)
    } else if marks[from].0.len() > 0 && stands_at(text, 0, marks[from].0) {
        marks[from].1 + substituted_from(text.skip(marks[from].0.len() as int), marks, 0)
    } else {
        substituted_from(text, marks, from + 1)
    }
}

/// `text` with the value of each mark in the place of the mark, in one
/// reading from the left.
pub open spec fn substituted(text: Seq<char>, marks: Seq<(Seq<char>, Seq<char>)>) -> Seq<char> {
    substituted_from(text, marks, 0)
}

/// Whether `pattern` stands in `text` at place `at`.
pub fn matches_at(text: &Vec<char>, at: usize, pattern: &Vec<char>) -> (found: bool)
    ensures
        found == stands_at(text@, at as int, pattern@),
{
    if at > text.len() || pattern.len() > text.len() - at {
        return false;
    }
    let mut i: usize = 0;
    while i < pattern.len()
        invariant
            i <= pattern.len(),
            at + pattern.len() <= text.len(),
            forall|j: int| 0 <= j < i ==> text@[at + j] == pattern@[j],
        decreases pattern.len() - i,
    {
        if text[at + i] != pattern[i] {
            return false;
        }
        i = i + 1;
    }
    assert(text@.subrange(at as int, at + pattern.len()) =~= pattern@);
    true
}

/// Finds the first mark of `marks` that stands in `text` at place `at`.
fn find_mark(text: &Vec<char>, at: usize, marks: &Vec<(Vec<char>, Vec<char>)>) -> (found:
    Option<usize>)
    requires
        at < text.len(),
    ensures
        match found {
            Some(k) => k < marks.len() && marks@[k as int].0@.len() > 0 && stands_at(
                text@,
                at as int,
                marks@[k as int].0@,
            ) && substituted(text@.skip(at as int), marks_of(marks@)) == marks@[k as int].1@
                + substituted(
                text@.skip(at + marks@[k as int].0@.len()),
                marks_of(marks@),
            ),
            None => substituted(text@.skip(at as int), marks_of(marks@)) == seq![text@[at as int]]
                + substituted(text@.skip(at + 1), marks_of(marks@)),
        },
{
    let ghost all = marks_of(marks@);
    let ghost rest = text@.skip(at as int);
    let mut k: usize = 0;
    while k < marks.len()
        invariant
            k <= marks.len(),
            at < text.len(),
            all == marks_of(marks@),
            rest == text@.skip(at as int),
            substituted_from(rest, all, 0) == substituted_from(rest, all, k as int),
        decreases marks.len() - k,
    {
        let mark = &marks[k].0;
        proof {
            if at + mark@.len() <= text@.len() {
                assert(rest.subrange(0, mark@.len() as int) == text@.subrange(
                    at as int,
                    at + mark@.len(),
                ));
            }
        }
        if mark.len() > 0 && matches_at(text, at, mark) {
            assert(rest.skip(mark@.len() as int) == text@.skip(at + mark@.len()));
            return Some(k);
        }
        k = k + 1;
    }
    assert(rest.skip(1) == text@.skip(at + 1));
    None
}

/// Writes the value of each mark in the place of the mark, reading `text`
/// once from the left.
pub fn substitute(text: &Vec<char>, marks: &Vec<(Vec<char>, Vec<char>)>) -> (out: Vec<char>)
    ensures
        out@ == substituted(text@, marks_of(marks@)),
{
    let ghost all = marks_of(marks@);
    let mut out: Vec<char> = Vec::new();
    let mut i: usize = 0;
    assert(text@.skip(0) == text@);
    while i < text.len()
        invariant
            i <= text.len(),
            all == marks_of(marks@),
            out@ + substituted(text@.skip(i as int), all) == substituted(text@, all),
        decreases text.len() - i,
    {
        match find_mark(text, i, marks) {
            Some(k) => {
                push_all(&mut out, &marks[k].1);
                i = i + marks[k].0.len();
            },
            None => {
                out.push(text[i]);
                i = i + 1;
            },
        }
    }
    out
}

/// Whether two marks differ at a place that both have, so that they
/// cannot stand at the same place of a text.
pub open spec fn apart(one: Seq<char>, other: Seq<char>) -> bool {
    exists|i: int| 0 <= i < one.len() && i < other.len() && one[i] != other[i]
}

/// Whether every two marks of the list are apart.
pub open spec fn marks_apart(marks: Seq<(Seq<char>, Seq<char>)>) -> bool {
    forall|j: int, k: int|
        0 <= j < marks.len() && 0 <= k < marks.len() && j != k ==> apart(
            (#[trigger] marks[j]).0,
            (#[trigger] marks[k]).0,
        )
}

/// Whether every mark of `one` is a mark of `other`.
pub open spec fn marks_among(
    one: Seq<(Seq<char>, Seq<char>)>,
    other: Seq<(Seq<char>, Seq<char>)>,
) -> bool {
    forall|k: int| 0 <= k < one.len() ==> other.contains(#[trigger] one[k])
}

/// Whether the mark at place `k` of the list stands at the head of `text`.
pub open spec fn stands_first(text: Seq<char>, marks: Seq<(Seq<char>, Seq<char>)>, k: int) -> bool {
    0 <= k < marks.len() && marks[k].0.len() > 0 && stands_at(text, 0, marks[k].0)
}

/// Of two marks that are apart, one at most stands at the head of a text.
pub proof fn lemma_apart_marks_do_not_clash(text: Seq<char>, one: Seq<char>, other: Seq<char>)
    requires
        apart(one, other),
        stands_at(text, 0, one),
    ensures
        !stands_at(text, 0, other),
{
    let i = choose|i: int| 0 <= i < one.len() && i < other.len() && one[i] != other[i];
    assert(text.subrange(0, one.len() as int)[i] == text[i]);
    if stands_at(text, 0, other) {
        assert(text.subrange(0, other.len() as int)[i] == text[i]);
    }
}

/// Where the marks are apart and one of them stands at the head of the
/// text, its value is written, wherever in the list it comes.
pub proof fn lemma_standing_mark_is_written(
    text: Seq<char>,
    marks: Seq<(Seq<char>, Seq<char>)>,
    from: int,
    k: int,
)
    requires
        marks_apart(marks),
        stands_first(text, marks, k),
        0 <= from <= k,
    ensures
        substituted_from(text, marks, from) == marks[k].1 + substituted(
            text.skip(marks[k].0.len() as int),
            marks,
        ),
    decreases k - from,
{
    if from < k {
        lemma_apart_marks_do_not_clash(text, marks[k].0, marks[from].0);
        lemma_standing_mark_is_written(text, marks, from + 1, k);
    }
}

/// Where no mark stands at the head of the text, its first character is
/// copied.
pub proof fn lemma_head_without_mark_is_copied(
    text: Seq<char>,
    marks: Seq<(Seq<char>, Seq<char>)>,
    from: int,
)
    requires
        text.len() > 0,
        0 <= from,
        forall|k: int| !stands_first(text, marks, k),
    ensures
        substituted_from(text, marks, from) == seq![text[0]] + substituted(text.skip(1), marks),
    decreases marks.len() - from,
{
    if from < marks.len() {
        assert(!stands_first(text, marks, from));
        lemma_head_without_mark_is_copied(text, marks, from + 1);
    }
}

/// Marks that are apart can be listed in any order: two lists of the same
/// marks fill a text in the same way.
pub proof fn lemma_order_of_marks_is_free(
    text: Seq<char>,
    one: Seq<(Seq<char>, Seq<char>)>,
    other: Seq<(Seq<char>, Seq<char>)>,
)
    requires
        marks_apart(one),
        marks_apart(other),
        marks_among(one, other),
        marks_among(other, one),
    ensures
        substituted(text, one) == substituted(text, other),
    decreases text.len(),
{
    if text.len() > 0 {
        if exists|k: int| stands_first(text, one, k) {
            let k = choose|k: int| stands_first(text, one, k);
            assert(other.contains(one[k]));
            let j = choose|j: int| 0 <= j < other.len() && other[j] == one[k];
            lemma_standing_mark_is_written(text, one, 0, k);
            lemma_standing_mark_is_written(text, other, 0, j);
            lemma_order_of_marks_is_free(text.skip(one[k].0.len() as int), one, other);
        } else {
            assert forall|j: int| !stands_first(text, other, j) by {
                if stands_first(text, other, j) {
                    assert(one.contains(other[j]));
                    let k = choose|k: int| 0 <= k < one.len() && one[k] == other[j];
                    assert(stands_first(text, one, k));
                }
            }
            lemma_head_without_mark_is_copied(text, one, 0);
            lemma_head_without_mark_is_copied(text, other, 0);
            lemma_order_of_marks_is_free(text.skip(1), one, other);
        }
    }
}

/// A text that holds the first character of no mark holds no mark, and
/// stays as it is.
pub proof fn lemma_substituted_without_marks(
    text: Seq<char>,
    marks: Seq<(Seq<char>, Seq<char>)>,
    from: int,
)
    requires
        forall|k: int|
            0 <= k < marks.len() && (#[trigger] marks[k]).0.len() > 0 ==> !text.contains(
                marks[k].0[0],
            ),
    ensures
        substituted_from(text, marks, from) == text,
    decreases text.len(), marks.len() - from,
{
    if text.len() == 0 {
    } else if !(0 <= from < marks.len()) {
        let rest = text.skip(1);
        assert forall|k: int|
            0 <= k < marks.len() && (#[trigger] marks[k]).0.len() > 0 implies !rest.contains(
            marks[k].0[0],
        ) by {
            if rest.contains(marks[k].0[0]) {
                let j = choose|j: int| 0 <= j < rest.len() && rest[j] == marks[k].0[0];
                assert(text[j + 1] == marks[k].0[0]);
            }
        }
        lemma_substituted_without_marks(rest, marks, 0);
        assert(seq![text[0]] + rest == text);
    } else {
        if marks[from].0.len() > 0 && stands_at(text, 0, marks[from].0) {
            assert(text.subrange(0, marks[from].0.len() as int)[0] == marks[from].0[0]);
            assert(text[0] == marks[from].0[0]);
        }
        lemma_substituted_without_marks(text, marks, from + 1);
    }
}

} // verus!

//! Lines of text, and the numbers in them.

use vstd::prelude::*;

verus! {

/// The texts of a sequence of lines.
pub open spec fn texts(lines: Seq<String>) -> Seq<Seq<char>> {
    Seq::new(lines.len(), |i: int| lines[i]@)
}

/// The text of one decimal digit.
pub open spec fn digit_text(d: nat) -> Seq<char> {
    if d == 0 {
        "0"@
    } else if d == 1 {
        "1"@
    } else if d == 2 {
        "2"@
    } else if d == 3 {
        "3"@
    } else if d == 4 {
        "4"@
    } else if d == 5 {
        "5"@
    } else if d == 6 {
        "6"@
    } else if d == 7 {
        "7"@
    } else if d == 8 {
        "8"@
    } else {
        "9"@
    }
}

/// The text of a number in decimal, without leading zeros.
pub open spec fn decimal_text(n: nat) -> Seq<char>
    decreases n,
{
    if n < 10 {
        digit_text(n)
    } else {
        decimal_text(n / 10) + digit_text(n % 10)
    }
}

/// The text of a truth value.
pub open spec fn bool_text(b: bool) -> Seq<char> {
    if b {
        "true"@
    } else {
        "false"@
    }
}

/// Appends one line to a log.
pub(crate) fn say(log: &mut Vec<String>, line: &str)
    ensures
        texts(final(log)@) == texts(old(log)@).push(line@),
{
    log.push(line.to_owned());
}

/// Appends to a log the line made of `before` and `after`.
pub(crate) fn say_pair(log: &mut Vec<String>, before: &str, after: &str)
    ensures
        texts(final(log)@) == texts(old(log)@).push(before@ + after@),
{
    let mut line = before.to_owned();
    line.append(after);
    log.push(line);
}

/// Appends to a log the line made of `before`, `middle` and `after`.
pub(crate) fn say_with(log: &mut Vec<String>, before: &str, middle: &str, after: &str)
    ensures
        texts(final(log)@) == texts(old(log)@).push(before@ + middle@ + after@),
{
    let mut line = before.to_owned();
    line.append(middle);
    line.append(after);
    log.push(line);
}

/// The text of one decimal digit.
fn digit(d: u64) -> (r: &'static str)
    requires
        d < 10,
    ensures
        r@ == digit_text(d as nat),
{
    match d {
        0 => "0",
        1 => "1",
        2 => "2",
        3 => "3",
        4 => "4",
        5 => "5",
        6 => "6",
        7 => "7",
        8 => "8",
        _ => "9",
    }
}

/// Writes a number in decimal.
pub fn decimal(n: u64) -> (r: String)
    ensures
        r@ == decimal_text(n as nat),
    decreases n,
{
    if n < 10 {
        digit(n).to_owned()
    } else {
        let mut text = decimal(n / 10);
        text.append(digit(n % 10));
        text
    }
}

/// Writes a truth value.
pub(crate) fn yes_or_no(b: bool) -> (r: &'static str)
    ensures
        r@ == bool_text(b),
{
    if b {
        "true"
    } else {
        "false"
    }
}

/// The digit that a character stands for.
pub open spec fn digit_value(c: char) -> int {
    c as int - '0' as int
}

/// The number that a text of decimal digits reads as.
pub open spec fn value_of(text: Seq<char>) -> int
    decreases text.len(),
{
    if text.len() == 0 {
        0
    } else {
        10 * value_of(text.drop_last()) + digit_value(text.last())
    }
}

/// The texts of a log are those of its lines, one for one and in order.
pub proof fn law_texts_are_those_of_the_lines(lines: Seq<String>)
    ensures
        texts(lines).len() == lines.len(),
        forall|i: int| 0 <= i < lines.len() ==> #[trigger] texts(lines)[i] == lines[i]@,
{
}

/// Each digit is written as the one character that stands for it.
pub proof fn law_digit_is_its_character(d: nat)
    requires
        d < 10,
    ensures
        digit_text(d).len() == 1,
        digit_value(digit_text(d)[0]) == d,
{
    reveal_strlit("0");
    reveal_strlit("1");
    reveal_strlit("2");
    reveal_strlit("3");
    reveal_strlit("4");
    reveal_strlit("5");
    reveal_strlit("6");
    reveal_strlit("7");
    reveal_strlit("8");
    reveal_strlit("9");
}

/// A number that is written reads back as itself: its text is made of digits, the number
/// they spell is the one that was written, and no zero leads but that of zero itself.
pub proof fn law_decimal_reads_back(n: nat)
    ensures
        decimal_text(n).len() > 0,
        forall|i: int|
            0 <= i < decimal_text(n).len() ==> 0 <= digit_value(#[trigger] decimal_text(n)[i]) < 10,
        value_of(decimal_text(n)) == n,
        n == 0 ==> decimal_text(n).len() == 1,
        n > 0 ==> decimal_text(n)[0] != '0',
    decreases n,
{
    law_digit_is_its_character(n % 10);
    let text = decimal_text(n);
    if n < 10 {
        assert(text.drop_last() =~= Seq::<char>::empty());
        assert(value_of(text.drop_last()) == 0);
    } else {
        law_decimal_reads_back(n / 10);
        assert(text.drop_last() =~= decimal_text(n / 10));
    }
}

/// Different numbers are written differently.
pub proof fn law_decimal_tells_numbers_apart(m: nat, n: nat)
    requires
        decimal_text(m) == decimal_text(n),
    ensures
        m == n,
{
    law_decimal_reads_back(m);
    law_decimal_reads_back(n);
}

/// Two lines that agree before and after what is inserted agree in what is inserted.
pub proof fn law_inserted_text_shows(
    before: Seq<char>,
    a: Seq<char>,
    b: Seq<char>,
    after: Seq<char>,
)
    requires
        before + a + after == before + b + after,
    ensures
        a == b,
{
    let left = before + a + after;
    let right = before + b + after;
    assert(left.len() == before.len() + a.len() + after.len());
    assert(right.len() == before.len() + b.len() + after.len());
    assert(left.subrange(before.len() as int, (before.len() + a.len()) as int) =~= a);
    assert(right.subrange(before.len() as int, (before.len() + b.len()) as int) =~= b);
}

/// Two lines that begin alike agree in what follows.
pub proof fn law_appended_text_shows(before: Seq<char>, a: Seq<char>, b: Seq<char>)
    requires
        before + a == before + b,
    ensures
        a == b,
{
    assert((before + a).skip(before.len() as int) =~= a);
    assert((before + b).skip(before.len() as int) =~= b);
}

/// A truth value is written as the word for it, letter by letter.
pub proof fn law_truth_values_are_spelled_out(b: bool)
    ensures
        b ==> bool_text(b) == seq!['t', 'r', 'u', 'e'],
        !b ==> bool_text(b) == seq!['f', 'a', 'l', 's', 'e'],
{
    reveal_strlit("true");
    reveal_strlit("false");
    assert("true"@ =~= seq!['t', 'r', 'u', 'e']);
    assert("false"@ =~= seq!['f', 'a', 'l', 's', 'e']);
}

} // verus!

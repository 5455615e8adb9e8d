//! Text: decimal numbers, lists of them, beginnings and endings.
use crate::runtime::is_c_text;
use vstd::prelude::*;

verus! {

/// The character of a decimal digit.
pub open spec fn digit_char(digit: int) -> char {
    (48 + digit) as char
}

/// A natural number in decimal.
pub open spec fn decimal(n: nat) -> Seq<char>
    decreases n,
{
    if n < 10 {
        seq![digit_char(n as int)]
    } else {
        decimal(n / 10).push(digit_char((n % 10) as int))
    }
}

/// An integer in decimal, with a minus sign where it is negative.
pub open spec fn integer_text(n: int) -> Seq<char> {
    if n < 0 {
        seq!['-'] + decimal((-n) as nat)
    } else {
        decimal(n as nat)
    }
}

/// Integers in decimal, with a comma and a space between one and the next.
pub open spec fn items_text(items: Seq<i64>) -> Seq<char>
    decreases items.len(),
{
    if items.len() == 0 {
        seq![]
    } else if items.len() == 1 {
        integer_text(items[0] as int)
    } else {
        items_text(items.drop_last()) + seq![',', ' '] + integer_text(items.last() as int)
    }
}

/// A list of integers in square brackets.
pub open spec fn list_text(items: Seq<i64>) -> Seq<char> {
    seq!['['] + items_text(items) + seq![']']
}

/// One text followed by another.
pub(crate) fn joined(first: &str, second: &str) -> (r: String)
    ensures
        r@ == first@ + second@,
{
    first.to_owned().concat(second)
}

/// The text of a decimal digit.
fn digit_text(digit: u64) -> (r: &'static str)
    requires
        digit < 10,
    ensures
        r@ == seq![digit_char(digit as int)],
{
    proof {
        reveal_strlit("0");
        reveal_strlit("1");
        reveal_strlit("2");
        reveal_strlit("3");
        reveal_strlit("4");
        reveal_strlit("5");
        reveal_strlit("6");
        reveal_strlit("7");
        reveal_strlit("8");
        reveal_strlit("9");
    }
    let r = match digit {
        0 => "0",
        1 => "1",
        2 => "2",
        3 => "3",
        4 => "4",
        5 => "5",
        6 => "6",
        7 => "7",
        8 => "8",
        _ => "9",
    };
    assert(r@ =~= seq![digit_char(digit as int)]);
    r
}

/// Writes a natural number in decimal behind a text.
fn append_decimal(text: &mut String, n: u64)
    ensures
        final(text)@ == old(text)@ + decimal(n as nat),
    decreases n,
{
    if n >= 10 {
        append_decimal(text, n / 10);
    }
    text.append(digit_text(n % 10));
    assert(text@ =~= old(text)@ + decimal(n as nat));
}

/// Writes an integer in decimal behind a text.
fn append_integer(text: &mut String, n: i64)
    ensures
        final(text)@ == old(text)@ + integer_text(n as int),
{
    if n < 0 {
        proof {
            reveal_strlit("-");
        }
        text.append("-");
        append_decimal(text, (-(n as i128)) as u64);
        assert(text@ =~= old(text)@ + integer_text(n as int));
    } else {
        append_decimal(text, n as u64);
    }
}

/// A list of integers in square brackets, as the `Debug` output of a slice of them.
pub(crate) fn list(items: &Vec<i64>) -> (r: String)
    ensures
        r@ == list_text(items@),
{
    proof {
        reveal_strlit("[");
        reveal_strlit("]");
        reveal_strlit(", ");
    }
    let mut text = "[".to_owned();
    let mut i: usize = 0;
    assert(text@ =~= seq!['['] + items_text(items@.take(0)));
    while i < items.len()
        invariant
            i <= items.len(),
            text@ == seq!['['] + items_text(items@.take(i as int)),
            ", "@ == seq![',', ' '],
        decreases items.len() - i,
    {
        let ghost before = text@;
        if i > 0 {
            text.append(", ");
        }
        append_integer(&mut text, items[i]);
        proof {
            let taken = items@.take(i + 1);
            assert(taken.drop_last() =~= items@.take(i as int));
            assert(text@ =~= seq!['['] + items_text(taken));
        }
        i += 1;
    }
    assert(items@.take(i as int) =~= items@);
    text.append("]");
    assert(text@ =~= list_text(items@));
    text
}

/// Whether no character of a text is NUL.
pub(crate) fn is_free_of_nul(text: &str) -> (r: bool)
    ensures
        r == is_c_text(text@),
{
    let len = text.unicode_len();
    let mut i: usize = 0;
    while i < len
        invariant
            i <= len == text@.len(),
            forall|j: int| 0 <= j < i ==> #[trigger] text@[j] != '\0',
        decreases len - i,
    {
        if text.get_char(i) == '\0' {
            return false;
        }
        i += 1;
    }
    true
}

/// Whether a text begins with another.
pub(crate) fn has_prefix(text: &str, prefix: &str) -> (r: bool)
    ensures
        r == prefix@.is_prefix_of(text@),
{
    let len = text.unicode_len();
    let prefix_len = prefix.unicode_len();
    if prefix_len > len {
        return false;
    }
    let mut i: usize = 0;
    while i < prefix_len
        invariant
            i <= prefix_len <= len,
            prefix_len == prefix@.len(),
            len == text@.len(),
            forall|j: int| 0 <= j < i ==> prefix@[j] == #[trigger] text@[j],
        decreases prefix_len - i,
    {
        if text.get_char(i) != prefix.get_char(i) {
            assert(prefix@[i as int] != text@.subrange(0, prefix_len as int)[i as int]);
            return false;
        }
        i += 1;
    }
    assert(prefix@ =~= text@.subrange(0, prefix_len as int));
    true
}

/// Whether a text ends with another.
pub(crate) fn has_suffix(text: &str, suffix: &str) -> (r: bool)
    ensures
        r == suffix@.is_suffix_of(text@),
{
    let len = text.unicode_len();
    let suffix_len = suffix.unicode_len();
    if suffix_len > len {
        return false;
    }
    let start: usize = len - suffix_len;
    let mut i: usize = 0;
    while i < suffix_len
        invariant
            i <= suffix_len <= len,
            start == len - suffix_len,
            suffix_len == suffix@.len(),
            len == text@.len(),
            forall|j: int| 0 <= j < i ==> #[trigger] suffix@[j] == text@[start + j],
        decreases suffix_len - i,
    {
        if text.get_char(start + i) != suffix.get_char(i) {
            assert(suffix@[i as int] != text@.subrange(start as int, len as int)[i as int]);
            return false;
        }
        i += 1;
    }
    assert(suffix@ =~= text@.subrange(start as int, len as int));
    true
}

/// The number that decimal digits stand for.
pub open spec fn digits_value(text: Seq<char>) -> int
    decreases text.len(),
{
    if text.len() == 0 {
        0
    } else {
        digits_value(text.drop_last()) * 10 + (text.last() as int - '0' as int)
    }
}

/// A number in decimal consists of digits, reads back as the number, and begins with a zero only
/// where it is zero.
pub proof fn law_decimal_reads_back(n: nat)
    ensures
        decimal(n).len() > 0,
        forall|i: int| 0 <= i < decimal(n).len() ==> '0' <= #[trigger] decimal(n)[i] <= '9',
        digits_value(decimal(n)) == n,
        decimal(n)[0] == '0' ==> n == 0,
    decreases n,
{
    reveal_with_fuel(digits_value, 2);
    if n >= 10 {
        law_decimal_reads_back(n / 10);
        assert(decimal(n).drop_last() =~= decimal(n / 10));
        assert(decimal(n)[0] == decimal(n / 10)[0]);
    } else {
        assert(decimal(n).drop_last() =~= seq![]);
    }
}

/// An integer is shown as its absolute value in decimal, behind a minus sign where it is negative.
pub proof fn law_integer_reads_back(n: int)
    ensures
        n >= 0 ==> digits_value(integer_text(n)) == n && integer_text(n)[0] != '-',
        n < 0 ==> integer_text(n)[0] == '-' && digits_value(integer_text(n).skip(1)) == -n,
{
    if n >= 0 {
        law_decimal_reads_back(n as nat);
    } else {
        law_decimal_reads_back((-n) as nat);
        assert(integer_text(n).skip(1) =~= decimal((-n) as nat));
    }
}

/// A list is shown in square brackets, and what is between them is the shown items with a comma and
/// a space between one and the next.
pub proof fn law_list_is_its_items(item: i64, front: Seq<i64>)
    ensures
        list_text(seq![]) == seq!['[', ']'],
        list_text(seq![item]) == seq!['['] + integer_text(item as int) + seq![']'],
        front.len() > 0 ==> list_text(front.push(item)) == list_text(front).drop_last() + seq![
            ',',
            ' ',
        ] + integer_text(item as int) + seq![']'],
{
    let empty = Seq::<i64>::empty();
    assert(items_text(empty) =~= seq![]);
    assert(list_text(empty) =~= seq!['[', ']']);
    let whole = front.push(item);
    assert(whole.drop_last() =~= front);
    assert(list_text(front).drop_last() =~= seq!['['] + items_text(front));
    if front.len() > 0 {
        assert(list_text(whole) =~= list_text(front).drop_last() + seq![',', ' '] + integer_text(
            item as int,
        ) + seq![']']);
    }
}

}

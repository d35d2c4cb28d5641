//! Text the other modules share: blank drafts and decimal numbers.

use vstd::prelude::*;
use vstd::string::*;

verus! {

/// The characters with Unicode's `White_Space` property.
pub open spec fn white_space(c: char) -> bool {
    let code = c as u32;
    ||| 0x09 <= code <= 0x0d
    ||| code == 0x20
    ||| code == 0x85
    ||| code == 0xa0
    ||| code == 0x1680
    ||| 0x2000 <= code <= 0x200a
    ||| code == 0x2028
    ||| code == 0x2029
    ||| code == 0x202f
    ||| code == 0x205f
    ||| code == 0x3000
}

/// Nothing is left of `text` once white space is trimmed from both ends.
pub open spec fn blank(text: Seq<char>) -> bool {
    forall|i: int| 0 <= i < text.len() ==> white_space(#[trigger] text[i])
}

/// Whether `c` has Unicode's `White_Space` property.
pub fn is_white_space(c: char) -> (answer: bool)
    ensures
        answer == white_space(c),
{
    let code: u32 = c as u32;
    (0x09 <= code && code <= 0x0d) || code == 0x20 || code == 0x85 || code == 0xa0 || code == 0x1680
        || (0x2000 <= code && code <= 0x200a) || code == 0x2028 || code == 0x2029 || code == 0x202f
        || code == 0x205f || code == 0x3000
}

/// Whether `text` is empty or holds white space only.
pub fn is_blank(text: &str) -> (answer: bool)
    ensures
        answer == blank(text@),
{
    for c in chars: text.chars()
        invariant
            chars.seq() == text@,
            forall|i: int| 0 <= i < chars.index() ==> white_space(#[trigger] text@[i]),
    {
        if !is_white_space(c) {
            return false;
        }
    }
    true
}

/// The character that writes the digit `d`.
pub open spec fn digit(d: nat) -> char {
    (0x30 + d) as char
}

/// `n` in decimal, without leading zeros.
pub open spec fn decimal(n: nat) -> Seq<char>
    decreases n,
{
    if n < 10 {
        seq![digit(n)]
    } else {
        decimal(n / 10).push(digit(n % 10))
    }
}

fn digit_text(d: u64) -> (text: &'static str)
    requires
        d < 10,
    ensures
        text@ == seq![digit(d as nat)],
{
    proof {
        reveal_strlit("0");
        reveal_strlit("1");
        reveal_strlit("2");
        reveal_strlit("3");
        reveal_strlit("4");
        reveal_strlit("5");
        reveal_strlit("6");
        reveal_strlit("7");
        reveal_strlit("8");
        reveal_strlit("9");
    }
    match d {
        0 => "0",
        1 => "1",
        2 => "2",
        3 => "3",
        4 => "4",
        5 => "5",
        6 => "6",
        7 => "7",
        8 => "8",
        _ => "9",
    }
}

/// Writes `n` in decimal.
pub fn decimal_text(n: u64) -> (text: String)
    ensures
        text@ == decimal(n as nat),
    decreases n,
{
    if n < 10 {
        String::from_str(digit_text(n))
    } else {
        let ghost head = decimal((n / 10) as nat);
        let text = decimal_text(n / 10).concat(digit_text(n % 10));
        assert(text@ == head.push(digit((n % 10) as nat)));
        text
    }
}

/// `n` in decimal, with a minus sign in front if it is negative.
pub open spec fn signed_decimal(n: int) -> Seq<char> {
    if n < 0 {
        "-"@ + decimal((-n) as nat)
    } else {
        decimal(n as nat)
    }
}

/// Writes `n` in decimal, with its sign.
pub fn signed_decimal_text(n: i8) -> (text: String)
    ensures
        text@ == signed_decimal(n as int),
{
    if n < 0 {
        let magnitude: u64 = (-(n as i64)) as u64;
        "-".to_string().concat(decimal_text(magnitude).as_str())
    } else {
        decimal_text(n as u64)
    }
}

/// `text` is at least one digit, the first of them no zero unless it is the only one.
pub open spec fn digits_only(text: Seq<char>) -> bool {
    &&& text.len() > 0
    &&& forall|i: int| 0 <= i < text.len() ==> '0' <= #[trigger] text[i] <= '9'
    &&& text[0] == '0' ==> text.len() == 1
}

/// The number that a row of digits stands for, the last digit counting ones.
pub open spec fn digits_value(text: Seq<char>) -> int
    decreases text.len(),
{
    if text.len() == 0 {
        0
    } else {
        10 * digits_value(text.drop_last()) + (text.last() as int - '0' as int)
    }
}

pub(crate) proof fn decimal_reads_back(n: nat)
    ensures
        digits_only(decimal(n)),
        digits_value(decimal(n)) == n,
        n > 0 ==> decimal(n)[0] != '0',
    decreases n,
{
    if n < 10 {
        assert(decimal(n).drop_last() =~= seq![]);
        assert(digits_value(seq![]) == 0);
    } else {
        decimal_reads_back(n / 10);
        assert(decimal(n).drop_last() =~= decimal(n / 10));
        assert(decimal(n)[0] == decimal(n / 10)[0]);
        assert forall|i: int| 0 <= i < decimal(n).len() implies '0' <= #[trigger] decimal(n)[i]
            <= '9' by {
            if i < decimal(n / 10).len() {
                assert(decimal(n)[i] == decimal(n / 10)[i]);
            }
        }
    }
}

/// A number that was written reads back as itself: its text is all digits, begins with no
/// idle zero, and stands for the number.
pub proof fn written_number_reads_back(n: u64, text: String)
    requires
        call_ensures(decimal_text, (n,), text),
    ensures
        digits_only(text@),
        digits_value(text@) == n,
{
    decimal_reads_back(n as nat);
}

/// A number with its sign reads back as itself: the sign stands in front of a negative
/// one and of no other.
pub proof fn signed_number_reads_back(n: i8, text: String)
    requires
        call_ensures(signed_decimal_text, (n,), text),
    ensures
        n >= 0 ==> digits_only(text@) && digits_value(text@) == n,
        n < 0 ==> {
            &&& text@.len() > 1
            &&& text@[0] == '-'
            &&& digits_only(text@.skip(1))
            &&& digits_value(text@.skip(1)) == -n
        },
{
    reveal_strlit("-");
    if n < 0 {
        decimal_reads_back((-n) as nat);
        assert(text@.skip(1) =~= decimal((-n) as nat));
    } else {
        decimal_reads_back(n as nat);
    }
}

/// A text is blank when none of its characters counts, however long it is: one that holds
/// anything but white space is not.
pub proof fn blank_text_is_white_space_only(text: &str, answer: bool)
    requires
        call_ensures(is_blank, (text,), answer),
    ensures
        answer ==> forall|i: int| 0 <= i < text@.len() ==> white_space(#[trigger] text@[i]),
        !answer ==> exists|i: int| 0 <= i < text@.len() && !white_space(#[trigger] text@[i]),
{
}

/// The white space is what Unicode gives that property to.
pub proof fn white_space_is_unicodes(c: char, answer: bool)
    requires
        call_ensures(is_white_space, (c,), answer),
    ensures
        answer <==> c == ' ' || '\t' <= c <= '\r' || c == '\u{85}' || c == '\u{a0}' || c
            == '\u{1680}' || '\u{2000}' <= c <= '\u{200a}' || c == '\u{2028}' || c == '\u{2029}'
            || c == '\u{202f}' || c == '\u{205f}' || c == '\u{3000}',
{
}

/// Blank texts put together are blank, and a text with a part that is not blank is not.
pub proof fn blankness_goes_by_parts(a: Seq<char>, b: Seq<char>)
    ensures
        blank(a + b) <==> blank(a) && blank(b),
        blank(Seq::<char>::empty()),
{
    if blank(a + b) {
        assert forall|i: int| 0 <= i < a.len() implies white_space(#[trigger] a[i]) by {
            assert((a + b)[i] == a[i]);
        }
        assert forall|i: int| 0 <= i < b.len() implies white_space(#[trigger] b[i]) by {
            assert((a + b)[a.len() + i] == b[i]);
        }
    }
}

/// Different numbers are written differently.
pub proof fn decimal_is_injective(m: nat, n: nat)
    requires
        decimal(m) == decimal(n),
    ensures
        m == n,
    decreases m,
{
    assert(decimal(m).last() == digit(m % 10)) by {
        assert(m < 10 ==> m % 10 == m);
    }
    assert(decimal(n).last() == digit(n % 10)) by {
        assert(n < 10 ==> n % 10 == n);
    }
    decimal_is_not_empty(m / 10);
    decimal_is_not_empty(n / 10);
    if m >= 10 && n >= 10 {
        assert(decimal(m).drop_last() == decimal(m / 10));
        assert(decimal(n).drop_last() == decimal(n / 10));
        decimal_is_injective(m / 10, n / 10);
    }
}

proof fn decimal_is_not_empty(n: nat)
    ensures
        decimal(n).len() > 0,
{
}

} // verus!

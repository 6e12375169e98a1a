use vstd::prelude::*;
use vstd::string::StrSliceExecFns;
use vstd::string::StringExecFns;

verus! {

/// The character of the digit `d`.
pub open spec fn digit_char(d: int) -> char {
    if d == 0 {
        '0'
    } else if d == 1 {
        '1'
    } else if d == 2 {
        '2'
    } else if d == 3 {
        '3'
    } else if d == 4 {
        '4'
    } else if d == 5 {
        '5'
    } else if d == 6 {
        '6'
    } else if d == 7 {
        '7'
    } else if d == 8 {
        '8'
    } else {
        '9'
    }
}

/// The digit that a character is, if it is one.
pub open spec fn digit_of(c: char) -> Option<int> {
    if c == '0' {
        Some(0)
    } else if c == '1' {
        Some(1)
    } else if c == '2' {
        Some(2)
    } else if c == '3' {
        Some(3)
    } else if c == '4' {
        Some(4)
    } else if c == '5' {
        Some(5)
    } else if c == '6' {
        Some(6)
    } else if c == '7' {
        Some(7)
    } else if c == '8' {
        Some(8)
    } else if c == '9' {
        Some(9)
    } else {
        None
    }
}

/// The decimal digits of `n`, without leading zeros.
pub open spec fn digits(n: nat) -> Seq<char>
    decreases n,
{
    if n < 10 {
        seq![digit_char(n as int)]
    } else {
        digits(n / 10).push(digit_char((n % 10) as int))
    }
}

/// The decimal text of an integer: its digits, after a minus sign if it is
/// negative.
pub open spec fn decimal(n: int) -> Seq<char> {
    if n < 0 {
        seq!['-'] + digits((-n) as nat)
    } else {
        digits(n as nat)
    }
}

/// The number that a text of digits denotes; `None` of the empty text and
/// of a text that holds anything but digits.
pub open spec fn number_of(text: Seq<char>) -> Option<nat>
    decreases text.len(),
{
    if text.len() == 0 {
        None
    } else if text.len() == 1 {
        match digit_of(text[0]) {
            Some(d) => Some(d as nat),
            None => None,
        }
    } else {
        match (number_of(text.drop_last()), digit_of(text.last())) {
            (Some(a), Some(d)) => Some((a * 10 + d) as nat),
            _ => None,
        }
    }
}

/// The integer that a decimal text denotes: digits after at most one sign.
/// Without `signed` a minus sign is refused.
pub open spec fn parsed_int(text: Seq<char>, signed: bool) -> Option<int> {
    if text.len() == 0 {
        None
    } else if text[0] == '+' {
        match number_of(text.skip(1)) {
            Some(v) => Some(v as int),
            None => None,
        }
    } else if text[0] == '-' {
        match number_of(text.skip(1)) {
            Some(v) => if signed {
                Some(-(v as int))
            } else {
                None
            },
            None => None,
        }
    } else {
        match number_of(text) {
            Some(v) => Some(v as int),
            None => None,
        }
    }
}

/// The number of 64 bits with sign that a decimal text denotes; `None` of a
/// text that denotes none or one that does not fit.
pub open spec fn parsed_i64(text: Seq<char>) -> Option<i64> {
    match parsed_int(text, true) {
        Some(v) => if i64::MIN <= v <= i64::MAX {
            Some(v as i64)
        } else {
            None
        },
        None => None,
    }
}

/// The number of 64 bits without sign that a decimal text denotes.
pub open spec fn parsed_u64(text: Seq<char>) -> Option<u64> {
    match parsed_int(text, false) {
        Some(v) => if v <= u64::MAX {
            Some(v as u64)
        } else {
            None
        },
        None => None,
    }
}

/// The number of 32 bits without sign that a decimal text denotes.
pub open spec fn parsed_u32(text: Seq<char>) -> Option<u32> {
    match parsed_int(text, false) {
        Some(v) => if v <= u32::MAX {
            Some(v as u32)
        } else {
            None
        },
        None => None,
    }
}

fn digit_text(d: u64) -> (r: &'static str)
    requires
        d < 10,
    ensures
        r@ == seq![digit_char(d as int)],
{
    proof {
        reveal_strlit("0");
        reveal_strlit("1");
        reveal_strlit("2");
        reveal_strlit("3");
        reveal_strlit("4");
        reveal_strlit("5");
        reveal_strlit("6");
        reveal_strlit("7");
        reveal_strlit("8");
        reveal_strlit("9");
    }
    let r = if d == 0 {
        "0"
    } else if d == 1 {
        "1"
    } else if d == 2 {
        "2"
    } else if d == 3 {
        "3"
    } else if d == 4 {
        "4"
    } else if d == 5 {
        "5"
    } else if d == 6 {
        "6"
    } else if d == 7 {
        "7"
    } else if d == 8 {
        "8"
    } else {
        "9"
    };
    assert(r@ =~= seq![digit_char(d as int)]);
    r
}

fn push_digits(out: &mut String, n: u64)
    ensures
        final(out)@ == old(out)@ + digits(n as nat),
    decreases n,
{
    if n >= 10 {
        push_digits(out, n / 10);
    }
    let ghost before = out@;
    out.append(digit_text(n % 10));
    assert(out@ =~= old(out)@ + digits(n as nat)) by {
        if n >= 10 {
            assert(before == old(out)@ + digits((n / 10) as nat));
            assert(digits(n as nat) == digits((n / 10) as nat).push(digit_char((n % 10) as int)));
        }
    }
}

/// The decimal text of `n`.
pub fn u64_to_text(n: u64) -> (r: String)
    ensures
        r@ == decimal(n as int),
{
    let mut out = String::new();
    push_digits(&mut out, n);
    assert(out@ =~= digits(n as nat));
    out
}

/// The decimal text of `n`.
pub fn i64_to_text(n: i64) -> (r: String)
    ensures
        r@ == decimal(n as int),
{
    if n >= 0 {
        u64_to_text(n as u64)
    } else {
        proof {
            reveal_strlit("-");
        }
        let mut out = String::from_str("-");
        assert(out@ =~= seq!['-']);
        let magnitude: u64 = (-(n + 1)) as u64 + 1;
        push_digits(&mut out, magnitude);
        out
    }
}

fn read_digit(c: char) -> (r: Option<u64>)
    ensures
        match r {
            Some(d) => d < 10 && digit_of(c) == Some(d as int),
            None => digit_of(c) is None,
        },
{
    if c == '0' {
        Some(0)
    } else if c == '1' {
        Some(1)
    } else if c == '2' {
        Some(2)
    } else if c == '3' {
        Some(3)
    } else if c == '4' {
        Some(4)
    } else if c == '5' {
        Some(5)
    } else if c == '6' {
        Some(6)
    } else if c == '7' {
        Some(7)
    } else if c == '8' {
        Some(8)
    } else if c == '9' {
        Some(9)
    } else {
        None
    }
}

/// A text that denotes a number has a beginning that denotes a number no
/// larger.
pub proof fn lemma_number_grows(text: Seq<char>, n: int)
    requires
        0 < n <= text.len(),
        number_of(text) is Some,
    ensures
        number_of(text.take(n)) is Some,
        number_of(text.take(n))->0 <= number_of(text)->0,
    decreases text.len(),
{
    if n == text.len() {
        assert(text.take(n) =~= text);
    } else {
        assert(text.len() > 1);
        lemma_number_grows(text.drop_last(), n);
        assert(text.drop_last().take(n) =~= text.take(n));
    }
}

/// A text whose beginning denotes no number denotes none.
pub proof fn lemma_number_needs_digits(text: Seq<char>, n: int)
    requires
        0 < n <= text.len(),
        number_of(text.take(n)) is None,
    ensures
        number_of(text) is None,
{
    if number_of(text) is Some {
        lemma_number_grows(text, n);
    }
}

/// Reads the digits of `text` from the position `from` on, as a number up
/// to `limit`.
fn read_number(text: &str, from: usize, limit: u64) -> (r: Option<u64>)
    requires
        from <= text@.len(),
    ensures
        match r {
            Some(v) => number_of(text@.skip(from as int)) == Some(v as nat) && v <= limit,
            None => match number_of(text@.skip(from as int)) {
                Some(v) => v > limit,
                None => true,
            },
        },
{
    let n = text.unicode_len();
    let ghost body = text@.skip(from as int);
    if from == n {
        return None;
    }
    let mut acc: u64 = 0;
    let mut i: usize = from;
    while i < n
        invariant
            from <= i <= n,
            from < n,
            n == text@.len(),
            body == text@.skip(from as int),
            acc <= limit,
            i > from ==> number_of(body.take(i - from)) == Some(acc as nat),
            i == from ==> acc == 0,
        decreases n - i,
    {
        let ghost upto = body.take(i - from + 1);
        assert(upto.drop_last() =~= body.take(i - from));
        assert(upto.last() == text@[i as int]);
        match read_digit(text.get_char(i)) {
            Some(d) => {
                let next: u128 = acc as u128 * 10 + d as u128;
                assert(number_of(upto) == Some(next as nat)) by {
                    if i == from {
                        assert(upto.len() == 1);
                    }
                }
                if next > limit as u128 {
                    proof {
                        if number_of(body) is Some {
                            lemma_number_grows(body, i - from + 1);
                        }
                    }
                    return None;
                }
                acc = next as u64;
            },
            None => {
                assert(number_of(upto) is None) by {
                    if i == from {
                        assert(upto.len() == 1);
                    }
                }
                proof {
                    lemma_number_needs_digits(body, i - from + 1);
                }
                return None;
            },
        }
        i += 1;
    }
    assert(body.take(n - from) =~= body);
    Some(acc)
}

/// Reads a number of 64 bits with sign from its decimal text.
pub fn parse_i64(text: &str) -> (r: Option<i64>)
    ensures
        r == parsed_i64(text@),
{
    let n = text.unicode_len();
    if n == 0 {
        return None;
    }
    let first = text.get_char(0);
    if first == '-' {
        match read_number(text, 1, 0x8000_0000_0000_0000u64) {
            Some(v) => {
                if v == 0x8000_0000_0000_0000u64 {
                    Some(-0x8000_0000_0000_0000i64)
                } else {
                    Some(-(v as i64))
                }
            },
            None => None,
        }
    } else if first == '+' {
        match read_number(text, 1, 0x7fff_ffff_ffff_ffffu64) {
            Some(v) => Some(v as i64),
            None => None,
        }
    } else {
        assert(text@.skip(0) =~= text@);
        match read_number(text, 0, 0x7fff_ffff_ffff_ffffu64) {
            Some(v) => Some(v as i64),
            None => None,
        }
    }
}

/// Reads a number of 64 bits without sign from its decimal text.
pub fn parse_u64(text: &str) -> (r: Option<u64>)
    ensures
        r == parsed_u64(text@),
{
    let n = text.unicode_len();
    if n == 0 {
        return None;
    }
    let first = text.get_char(0);
    if first == '-' {
        None
    } else if first == '+' {
        read_number(text, 1, 0xffff_ffff_ffff_ffffu64)
    } else {
        assert(text@.skip(0) =~= text@);
        read_number(text, 0, 0xffff_ffff_ffff_ffffu64)
    }
}

/// Reads a number of 32 bits without sign from its decimal text.
pub fn parse_u32(text: &str) -> (r: Option<u32>)
    ensures
        r == parsed_u32(text@),
{
    let n = text.unicode_len();
    if n == 0 {
        return None;
    }
    let first = text.get_char(0);
    let read = if first == '-' {
        None
    } else if first == '+' {
        read_number(text, 1, 0xffff_ffffu64)
    } else {
        assert(text@.skip(0) =~= text@);
        read_number(text, 0, 0xffff_ffffu64)
    };
    match read {
        Some(v) => Some(v as u32),
        None => None,
    }
}

} // verus!

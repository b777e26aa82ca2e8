//! Decimal and hexadecimal renderings of numbers as text.
use vstd::prelude::*;
use vstd::string::StringExecFns;

verus! {

/// The character of decimal digit `d`.
pub open spec fn decimal_digit(d: int) -> char {
    if d == 0 {
        '0'
    } else if d == 1 {
        '1'
    } else if d == 2 {
        '2'
    } else if d == 3 {
        '3'
    } else if d == 4 {
        '4'
    } else if d == 5 {
        '5'
    } else if d == 6 {
        '6'
    } else if d == 7 {
        '7'
    } else if d == 8 {
        '8'
    } else {
        '9'
    }
}

/// The character of lower-case hexadecimal digit `d`.
pub open spec fn hex_digit(d: int) -> char {
    if d < 10 {
        decimal_digit(d)
    } else if d == 10 {
        'a'
    } else if d == 11 {
        'b'
    } else if d == 12 {
        'c'
    } else if d == 13 {
        'd'
    } else if d == 14 {
        'e'
    } else {
        'f'
    }
}

/// `n` written in decimal, without leading zeros.
pub open spec fn decimal_of(n: nat) -> Seq<char>
    decreases n,
{
    if n < 10 {
        seq![decimal_digit(n as int)]
    } else {
        decimal_of(n / 10).push(decimal_digit((n % 10) as int))
    }
}

/// Each byte of `bytes` written as two lower-case hexadecimal digits.
pub open spec fn hex_of(bytes: Seq<u8>) -> Seq<char>
    decreases bytes.len(),
{
    if bytes.len() == 0 {
        Seq::empty()
    } else {
        hex_of(bytes.drop_last()) + seq![
            hex_digit(bytes.last() as int / 16),
            hex_digit(bytes.last() as int % 16),
        ]
    }
}

/// An amount of cents written as euros with two decimals.
pub open spec fn cents_of(cents: nat) -> Seq<char> {
    decimal_of(cents / 100) + seq!['.', decimal_digit(((cents % 100) / 10) as int), decimal_digit((cents % 10) as int)]
}

/// The one-character text of digit `d` in base 16.
fn hex_digit_text(d: u8) -> (r: String)
    requires
        d < 16,
    ensures
        r@ == seq![hex_digit(d as int)],
{
    let t: &str = match d {
        0 => "0",
        1 => "1",
        2 => "2",
        3 => "3",
        4 => "4",
        5 => "5",
        6 => "6",
        7 => "7",
        8 => "8",
        9 => "9",
        10 => "a",
        11 => "b",
        12 => "c",
        13 => "d",
        14 => "e",
        _ => "f",
    };
    proof {
        reveal_strlit("0");
        reveal_strlit("1");
        reveal_strlit("2");
        reveal_strlit("3");
        reveal_strlit("4");
        reveal_strlit("5");
        reveal_strlit("6");
        reveal_strlit("7");
        reveal_strlit("8");
        reveal_strlit("9");
        reveal_strlit("a");
        reveal_strlit("b");
        reveal_strlit("c");
        reveal_strlit("d");
        reveal_strlit("e");
        reveal_strlit("f");
    }
    let r = String::from_str(t);
    assert(r@ =~= seq![hex_digit(d as int)]);
    r
}

/// `n` written in decimal.
pub fn decimal(n: u64) -> (r: String)
    ensures
        r@ == decimal_of(n as nat),
{
    let mut m: u64 = n / 10;
    let mut s: String = hex_digit_text((n % 10) as u8);
    while m > 0
        invariant
            decimal_of(n as nat) == (if m == 0 {
                Seq::<char>::empty()
            } else {
                decimal_of(m as nat)
            }) + s@,
        decreases m,
    {
        let d: String = hex_digit_text((m % 10) as u8);
        let ghost old_s = s@;
        let ghost old_m = m;
        s = d.concat(s.as_str());
        m = m / 10;
        assert(decimal_of(old_m as nat) == (if m == 0 {
            Seq::<char>::empty()
        } else {
            decimal_of(m as nat)
        }) + seq![decimal_digit((old_m % 10) as int)]);
        assert((if m == 0 {
            Seq::<char>::empty()
        } else {
            decimal_of(m as nat)
        }) + s@ =~= (if m == 0 {
            Seq::<char>::empty()
        } else {
            decimal_of(m as nat)
        }) + seq![decimal_digit((old_m % 10) as int)] + old_s);
    }
    assert(Seq::<char>::empty() + s@ =~= s@);
    s
}

/// Hexadecimal text has two digits a byte.
pub proof fn lemma_hex_len(bytes: Seq<u8>)
    ensures
        hex_of(bytes).len() == 2 * bytes.len(),
    decreases bytes.len(),
{
    if bytes.len() > 0 {
        lemma_hex_len(bytes.drop_last());
    }
}

/// `bytes` written as lower-case hexadecimal, two digits a byte.
pub fn hex(bytes: &Vec<u8>) -> (r: String)
    ensures
        r@ == hex_of(bytes@),
        r@.len() == 2 * bytes@.len(),
{
    let mut s: String = String::new();
    let mut i: usize = 0;
    while i < bytes.len()
        invariant
            i <= bytes@.len(),
            s@ == hex_of(bytes@.subrange(0, i as int)),
        decreases bytes@.len() - i,
    {
        let b: u8 = bytes[i];
        let high: String = hex_digit_text(b / 16);
        let low: String = hex_digit_text(b % 16);
        s.append(high.as_str());
        s.append(low.as_str());
        let ghost next = bytes@.subrange(0, i + 1);
        assert(next.drop_last() =~= bytes@.subrange(0, i as int));
        i = i + 1;
        assert(s@ =~= hex_of(next));
    }
    assert(bytes@.subrange(0, bytes@.len() as int) =~= bytes@);
    proof {
        lemma_hex_len(bytes@);
    }
    s
}

/// `amount` cents written as euros with two decimals.
pub fn cents_text(amount: u64) -> (r: String)
    ensures
        r@ == cents_of(amount as nat),
{
    let whole: String = decimal(amount / 100);
    let tens: String = hex_digit_text(((amount % 100) / 10) as u8);
    let ones: String = hex_digit_text((amount % 10) as u8);
    proof {
        reveal_strlit(".");
    }
    let r = whole.concat(".").concat(tens.as_str()).concat(ones.as_str());
    assert(r@ =~= cents_of(amount as nat));
    r
}

/// The lower-case form of `s`, as `str::to_lowercase` gives it.
pub uninterp spec fn lower_of(s: Seq<char>) -> Seq<char>;

/// Relies on `str::to_lowercase`: the lower-case form depends on the
/// characters alone, and the empty string stays empty.
#[verifier::external_body]
pub(crate) fn lowercase(s: &str) -> (r: String)
    ensures
        r@ == lower_of(s@),
        s@.len() == 0 ==> r@.len() == 0,
{
    s.to_lowercase()
}

/// `needle` occurs in `haystack` as a run of consecutive characters.
pub open spec fn occurs_in(haystack: Seq<char>, needle: Seq<char>) -> bool {
    exists|i: int| 0 <= i && i + needle.len() <= haystack.len() && #[trigger] haystack.subrange(i, i + needle.len()) == needle
}

/// Relies on `str::contains` with a string pattern: true exactly when the
/// pattern matches a sub-slice of the haystack.
#[verifier::external_body]
pub(crate) fn contains(haystack: &str, needle: &str) -> (r: bool)
    ensures
        r == occurs_in(haystack@, needle@),
{
    haystack.contains(needle)
}

} // verus!

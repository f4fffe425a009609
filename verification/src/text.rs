//! Text primitives shared by the stores: comparison of secrets that does not
//! stop at the first difference, case-insensitive matching of e-mail
//! addresses, and the hexadecimal alphabet in which tokens are written.

use vstd::prelude::*;
use vstd::string::StringExecFns;
use vstd::utf8::encode_utf8;
use vstd::utf8::encode_utf8_decode_utf8;

verus! {

/// Compares two byte strings without returning early: every position is read
/// whatever the earlier ones held, so the running time depends on the length
/// alone.
pub fn same_bytes(a: &[u8], b: &[u8]) -> (same: bool)
    ensures
        same == (a@ == b@),
{
    if a.len() != b.len() {
        return false;
    }
    let mut diff: u8 = 0;
    let mut i: usize = 0;
    while i < a.len()
        invariant
            a@.len() == b@.len(),
            i <= a@.len(),
            (diff == 0) <==> (forall|j: int| 0 <= j < i ==> a@[j] == b@[j]),
        decreases a@.len() - i,
    {
        let x: u8 = a[i];
        let y: u8 = b[i];
        let before: u8 = diff;
        diff = diff | (x ^ y);
        assert((before | (x ^ y)) == 0 <==> (before == 0 && x == y)) by (bit_vector);
        i = i + 1;
    }
    assert((diff == 0) ==> a@ =~= b@);
    diff == 0
}

/// Equality of two strings, decided on their UTF-8 bytes by [`same_bytes`].
pub fn same_text(a: &str, b: &str) -> (same: bool)
    ensures
        same == (a@ == b@),
{
    let same = same_bytes(a.as_bytes(), b.as_bytes());
    proof {
        if same {
            encode_utf8_decode_utf8(a@);
            encode_utf8_decode_utf8(b@);
        }
    }
    same
}

/// An ASCII capital letter becomes its small letter; every other byte stays.
pub open spec fn lower_byte(b: u8) -> u8 {
    if 0x41 <= b <= 0x5a {
        (b + 0x20) as u8
    } else {
        b
    }
}

/// What an e-mail address is compared by: its UTF-8 bytes with the ASCII
/// letters in lower case. Two addresses name the same account exactly when
/// their keys are equal.
pub open spec fn email_key(email: Seq<char>) -> Seq<u8> {
    encode_utf8(email).map_values(|b: u8| lower_byte(b))
}

fn lower(b: u8) -> (l: u8)
    ensures
        l == lower_byte(b),
{
    if 0x41 <= b && b <= 0x5a {
        b + 0x20
    } else {
        b
    }
}

/// Case-insensitive comparison of two e-mail addresses.
pub fn same_email(a: &str, b: &str) -> (same: bool)
    ensures
        same == (email_key(a@) == email_key(b@)),
{
    let x = a.as_bytes();
    let y = b.as_bytes();
    if x.len() != y.len() {
        return false;
    }
    let mut i: usize = 0;
    while i < x.len()
        invariant
            x@ == encode_utf8(a@),
            y@ == encode_utf8(b@),
            x@.len() == y@.len(),
            i <= x@.len(),
            forall|j: int| 0 <= j < i ==> lower_byte(x@[j]) == lower_byte(y@[j]),
        decreases x@.len() - i,
    {
        if lower(x[i]) != lower(y[i]) {
            assert(email_key(a@)[i as int] != email_key(b@)[i as int]);
            return false;
        }
        i = i + 1;
    }
    assert(email_key(a@) =~= email_key(b@));
    true
}

/// The digit that stands for a value below sixteen; below ten it is the
/// decimal digit.
pub open spec fn hex_digit(n: int) -> char {
    if n == 0 {
        '0'
    } else if n == 1 {
        '1'
    } else if n == 2 {
        '2'
    } else if n == 3 {
        '3'
    } else if n == 4 {
        '4'
    } else if n == 5 {
        '5'
    } else if n == 6 {
        '6'
    } else if n == 7 {
        '7'
    } else if n == 8 {
        '8'
    } else if n == 9 {
        '9'
    } else if n == 10 {
        'a'
    } else if n == 11 {
        'b'
    } else if n == 12 {
        'c'
    } else if n == 13 {
        'd'
    } else if n == 14 {
        'e'
    } else {
        'f'
    }
}

/// Lower-case hexadecimal text of a byte string: two digits per byte, the high
/// half first.
pub open spec fn hex(bytes: Seq<u8>) -> Seq<char> {
    Seq::new(
        2 * bytes.len(),
        |i: int|
            if i % 2 == 0 {
                hex_digit(bytes[i / 2] as int / 16)
            } else {
                hex_digit(bytes[i / 2] as int % 16)
            },
    )
}

fn digit_str(n: u8) -> (s: &'static str)
    requires
        n < 16,
    ensures
        s@ == seq![hex_digit(n as int)],
{
    proof {
        reveal_strlit("0");
        reveal_strlit("1");
        reveal_strlit("2");
        reveal_strlit("3");
        reveal_strlit("4");
        reveal_strlit("5");
        reveal_strlit("6");
        reveal_strlit("7");
        reveal_strlit("8");
        reveal_strlit("9");
        reveal_strlit("a");
        reveal_strlit("b");
        reveal_strlit("c");
        reveal_strlit("d");
        reveal_strlit("e");
        reveal_strlit("f");
    }
    let s = match n {
        0 => "0",
        1 => "1",
        2 => "2",
        3 => "3",
        4 => "4",
        5 => "5",
        6 => "6",
        7 => "7",
        8 => "8",
        9 => "9",
        10 => "a",
        11 => "b",
        12 => "c",
        13 => "d",
        14 => "e",
        _ => "f",
    };
    assert(s@ =~= seq![hex_digit(n as int)]);
    s
}

/// Writes a byte string in hexadecimal.
pub fn hex_string(bytes: &[u8]) -> (text: String)
    ensures
        text@ == hex(bytes@),
{
    let mut text = String::new();
    let mut i: usize = 0;
    assert(text@ =~= hex(bytes@.take(0)));
    while i < bytes.len()
        invariant
            i <= bytes@.len(),
            text@ == hex(bytes@.take(i as int)),
        decreases bytes@.len() - i,
    {
        let b: u8 = bytes[i];
        let ghost before = text@;
        text.append(digit_str(b / 16));
        text.append(digit_str(b % 16));
        proof {
            let grown = bytes@.take(i + 1);
            assert(grown =~= bytes@.take(i as int).push(b));
            assert(text@ =~= before + seq![hex_digit(b as int / 16), hex_digit(b as int % 16)]);
            assert(text@ =~= hex(grown));
        }
        i = i + 1;
    }
    assert(bytes@.take(bytes@.len() as int) =~= bytes@);
    text
}

/// Decimal text of a number, without leading zeros.
pub open spec fn decimal(n: nat) -> Seq<char>
    decreases n,
{
    if n < 10 {
        seq![hex_digit(n as int)]
    } else {
        decimal(n / 10).push(hex_digit((n % 10) as int))
    }
}

/// Writes a number in decimal.
pub fn decimal_string(n: u64) -> (text: String)
    ensures
        text@ == decimal(n as nat),
    decreases n,
{
    if n < 10 {
        digit_str(n as u8).to_owned()
    } else {
        let mut text = decimal_string(n / 10);
        text.append(digit_str((n % 10) as u8));
        assert(text@ =~= decimal((n / 10) as nat).push(hex_digit((n % 10) as int)));
        text
    }
}

/// Every character of `text` is a decimal digit or one of the letters `a` to
/// `f`. Such text can stand in a URL, a header or a cookie as it is.
pub open spec fn hex_digits_only(text: Seq<char>) -> bool {
    forall|i: int|
        0 <= i < text.len() ==> {
            let code = (#[trigger] text[i]) as u32;
            0x30 <= code <= 0x39 || 0x61 <= code <= 0x66
        }
}

/// Hexadecimal text is made of hexadecimal digits.
pub proof fn lemma_hex_digits_only(bytes: Seq<u8>)
    ensures
        hex_digits_only(hex(bytes)),
{
}

/// Hexadecimal text distributes over concatenation.
pub proof fn lemma_hex_concat(a: Seq<u8>, b: Seq<u8>)
    ensures
        hex(a + b) == hex(a) + hex(b),
{
    assert(hex(a + b) =~= hex(a) + hex(b));
}

/// Different byte strings have different hexadecimal text.
pub proof fn lemma_hex_injective(a: Seq<u8>, b: Seq<u8>)
    requires
        hex(a) == hex(b),
    ensures
        a == b,
{
    assert(hex(a).len() == 2 * a.len());
    assert(hex(b).len() == 2 * b.len());
    assert forall|j: int| 0 <= j < a.len() implies a[j] == b[j] by {
        let high = 2 * j;
        let low = 2 * j + 1;
        assert(high / 2 == j && high % 2 == 0);
        assert(low / 2 == j && low % 2 == 1);
        assert(hex(a)[high] == hex_digit(a[j] as int / 16));
        assert(hex(b)[high] == hex_digit(b[j] as int / 16));
        assert(hex(a)[low] == hex_digit(a[j] as int % 16));
        assert(hex(b)[low] == hex_digit(b[j] as int % 16));
    }
    assert(a =~= b);
}

} // verus!

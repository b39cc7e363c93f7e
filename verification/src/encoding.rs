//! Text encodings used inside a token: unpadded URL-safe base64 and decimal
//! integers, each with its mathematical definition and a proof that it loses
//! no information.

use vstd::prelude::*;
use vstd::string::*;

verus! {

/// The 64 characters of the URL-safe base64 alphabet, by value.
pub open spec fn alphabet() -> Seq<char> {
    "ABCDEFGHIJKLMNOPQRSTUVWXYZabcdefghijklmnopqrstuvwxyz0123456789-_"@
}

/// The character that stands for the six-bit value `v`.
pub open spec fn sextet_char(v: int) -> char {
    alphabet()[v]
}

/// Unpadded URL-safe base64 of `bytes`: three bytes become four characters,
/// a rest of one byte becomes two and a rest of two bytes becomes three.
pub open spec fn base64url_chars(bytes: Seq<u8>) -> Seq<char>
    decreases bytes.len(),
{
    if bytes.len() == 0 {
        Seq::empty()
    } else if bytes.len() == 1 {
        seq![sextet_char(bytes[0] as int / 4), sextet_char((bytes[0] as int % 4) * 16)]
    } else if bytes.len() == 2 {
        seq![
            sextet_char(bytes[0] as int / 4),
            sextet_char((bytes[0] as int % 4) * 16 + bytes[1] as int / 16),
            sextet_char((bytes[1] as int % 16) * 4),
        ]
    } else {
        seq![
            sextet_char(bytes[0] as int / 4),
            sextet_char((bytes[0] as int % 4) * 16 + bytes[1] as int / 16),
            sextet_char((bytes[1] as int % 16) * 4 + bytes[2] as int / 64),
            sextet_char(bytes[2] as int % 64),
        ] + base64url_chars(bytes.skip(3))
    }
}

/// The alphabet has 64 distinct ASCII characters, and the dot is none of them.
pub proof fn lemma_alphabet()
    ensures
        alphabet().len() == 64,
        forall|i: int| 0 <= i < 64 ==> (#[trigger] alphabet()[i]) as u32 <= 127,
        forall|i: int| 0 <= i < 64 ==> #[trigger] alphabet()[i] != '.',
        forall|i: int, j: int|
            0 <= i < 64 && 0 <= j < 64 && #[trigger] alphabet()[i] == #[trigger] alphabet()[j]
                ==> i == j,
{
    reveal_strlit("ABCDEFGHIJKLMNOPQRSTUVWXYZabcdefghijklmnopqrstuvwxyz0123456789-_");
}

fn push_sextet(out: &mut String, v: u8)
    requires
        v < 64,
    ensures
        final(out)@ == old(out)@.push(sextet_char(v as int)),
{
    let table: &str = "ABCDEFGHIJKLMNOPQRSTUVWXYZabcdefghijklmnopqrstuvwxyz0123456789-_";
    proof {
        reveal_strlit("ABCDEFGHIJKLMNOPQRSTUVWXYZabcdefghijklmnopqrstuvwxyz0123456789-_");
    }
    let i: usize = v as usize;
    out.append(table.substring_ascii(i, i + 1));
}

/// Encodes `bytes` as unpadded URL-safe base64.
pub fn base64url(bytes: &[u8]) -> (out: String)
    ensures
        out@ == base64url_chars(bytes@),
{
    let n: usize = bytes.len();
    let mut out: String = String::new();
    let mut i: usize = 0;
    assert(bytes@.skip(0) =~= bytes@);
    while n - i >= 3
        invariant
            n == bytes.len(),
            i <= n,
            out@ + base64url_chars(bytes@.skip(i as int)) == base64url_chars(bytes@),
        decreases n - i,
    {
        let b0: u8 = bytes[i];
        let b1: u8 = bytes[i + 1];
        let b2: u8 = bytes[i + 2];
        push_sextet(&mut out, b0 / 4);
        push_sextet(&mut out, (b0 % 4) * 16 + b1 / 16);
        push_sextet(&mut out, (b1 % 16) * 4 + b2 / 64);
        push_sextet(&mut out, b2 % 64);
        assert(bytes@.skip(i as int).skip(3) =~= bytes@.skip(i as int + 3));
        i = i + 3;
    }
    if n - i == 1 {
        let b0: u8 = bytes[i];
        push_sextet(&mut out, b0 / 4);
        push_sextet(&mut out, (b0 % 4) * 16);
    } else if n - i == 2 {
        let b0: u8 = bytes[i];
        let b1: u8 = bytes[i + 1];
        push_sextet(&mut out, b0 / 4);
        push_sextet(&mut out, (b0 % 4) * 16 + b1 / 16);
        push_sextet(&mut out, (b1 % 16) * 4);
    }
    out
}

/// How long the base64 text of `n` bytes is.
pub open spec fn base64url_len(n: nat) -> nat {
    if n % 3 == 0 {
        4 * (n / 3)
    } else {
        4 * (n / 3) + n % 3 + 1
    }
}

/// The encoded text has the length that the number of bytes fixes, and holds
/// no dot.
pub proof fn lemma_base64url_shape(bytes: Seq<u8>)
    ensures
        base64url_chars(bytes).len() == base64url_len(bytes.len()),
        forall|i: int| 0 <= i < base64url_chars(bytes).len() ==> base64url_chars(bytes)[i] != '.',
    decreases bytes.len(),
{
    lemma_alphabet();
    if bytes.len() >= 3 {
        lemma_base64url_shape(bytes.skip(3));
    }
}

/// Base64 loses nothing: two byte strings with the same text are the same.
pub proof fn lemma_base64url_injective(a: Seq<u8>, b: Seq<u8>)
    requires
        base64url_chars(a) == base64url_chars(b),
    ensures
        a == b,
    decreases a.len(),
{
    lemma_alphabet();
    lemma_base64url_shape(a);
    lemma_base64url_shape(b);
    assert(a.len() == b.len());
    let ta = base64url_chars(a);
    let tb = base64url_chars(b);
    if a.len() >= 3 {
        assert(ta[0] == tb[0] && ta[1] == tb[1] && ta[2] == tb[2] && ta[3] == tb[3]);
        assert(a[0] == b[0] && a[1] == b[1] && a[2] == b[2]);
        assert(base64url_chars(a.skip(3)) =~= ta.skip(4));
        assert(base64url_chars(b.skip(3)) =~= tb.skip(4));
        lemma_base64url_injective(a.skip(3), b.skip(3));
        assert forall|i: int| 3 <= i < a.len() implies a[i] == b[i] by {
            assert(a.skip(3)[i - 3] == b.skip(3)[i - 3]);
        }
    } else if a.len() == 2 {
        assert(ta[0] == tb[0] && ta[1] == tb[1] && ta[2] == tb[2]);
    } else if a.len() == 1 {
        assert(ta[0] == tb[0] && ta[1] == tb[1]);
    }
    assert(a =~= b);
}

/// The ten decimal digits, by value.
pub open spec fn digits() -> Seq<char> {
    "0123456789"@
}

/// The character of the digit `d`.
pub open spec fn digit_char(d: int) -> char {
    digits()[d]
}

/// The decimal digits of `n`, most significant first, without leading zeros.
pub open spec fn decimal_nat(n: nat) -> Seq<char>
    decreases n,
{
    if n < 10 {
        seq![digit_char(n as int)]
    } else {
        decimal_nat(n / 10).push(digit_char((n % 10) as int))
    }
}

/// The decimal text of `n`, with a minus sign in front where `n` is negative.
pub open spec fn decimal(n: int) -> Seq<char> {
    if n < 0 {
        seq!['-'] + decimal_nat((-n) as nat)
    } else {
        decimal_nat(n as nat)
    }
}

/// Whether `c` can occur in the decimal text of an integer.
pub open spec fn is_decimal_char(c: char) -> bool {
    c == '-' || ('0' <= c && c <= '9')
}

/// There are ten distinct digits, all between `'0'` and `'9'`.
pub proof fn lemma_digits()
    ensures
        digits().len() == 10,
        forall|i: int| 0 <= i < 10 ==> '0' <= #[trigger] digits()[i] && digits()[i] <= '9',
        forall|i: int, j: int|
            0 <= i < 10 && 0 <= j < 10 && #[trigger] digits()[i] == #[trigger] digits()[j] ==> i
                == j,
{
    reveal_strlit("0123456789");
}

/// The digits of a natural number are at least one, and digits only.
pub proof fn lemma_decimal_nat_shape(n: nat)
    ensures
        decimal_nat(n).len() >= 1,
        n >= 10 ==> decimal_nat(n).len() >= 2,
        forall|i: int|
            0 <= i < decimal_nat(n).len() ==> '0' <= #[trigger] decimal_nat(n)[i] && decimal_nat(
                n,
            )[i] <= '9',
    decreases n,
{
    lemma_digits();
    if n >= 10 {
        lemma_decimal_nat_shape(n / 10);
    }
}

/// Two natural numbers with the same digits are the same.
pub proof fn lemma_decimal_nat_injective(a: nat, b: nat)
    requires
        decimal_nat(a) == decimal_nat(b),
    ensures
        a == b,
    decreases a,
{
    lemma_digits();
    lemma_decimal_nat_shape(a);
    lemma_decimal_nat_shape(b);
    if a < 10 {
        assert(decimal_nat(a).len() == 1);
        assert(b < 10);
        assert(decimal_nat(a)[0] == digits()[a as int]);
        assert(decimal_nat(b)[0] == digits()[b as int]);
    } else {
        assert(b >= 10) by {
            if b < 10 {
                assert(decimal_nat(b).len() == 1);
            }
        }
        let da = decimal_nat(a / 10);
        let db = decimal_nat(b / 10);
        assert(decimal_nat(a).last() == digits()[(a % 10) as int]);
        assert(decimal_nat(b).last() == digits()[(b % 10) as int]);
        assert(da =~= decimal_nat(a).drop_last());
        assert(db =~= decimal_nat(b).drop_last());
        lemma_decimal_nat_injective(a / 10, b / 10);
        assert(a % 10 == b % 10);
    }
}

/// The decimal text of an integer is not empty and holds a sign and digits
/// only.
pub proof fn lemma_decimal_shape(n: int)
    ensures
        decimal(n).len() >= 1,
        forall|i: int| 0 <= i < decimal(n).len() ==> is_decimal_char(#[trigger] decimal(n)[i]),
{
    if n < 0 {
        lemma_decimal_nat_shape((-n) as nat);
    } else {
        lemma_decimal_nat_shape(n as nat);
    }
}

/// Two integers with the same decimal text are the same.
pub proof fn lemma_decimal_injective(a: int, b: int)
    requires
        decimal(a) == decimal(b),
    ensures
        a == b,
{
    let na = if a < 0 { (-a) as nat } else { a as nat };
    let nb = if b < 0 { (-b) as nat } else { b as nat };
    lemma_decimal_nat_shape(na);
    lemma_decimal_nat_shape(nb);
    assert(decimal(a)[0] == decimal(b)[0]);
    if a < 0 {
        assert(decimal(a)[0] == '-');
        assert(b < 0) by {
            if b >= 0 {
                assert(decimal(b)[0] == decimal_nat(nb)[0]);
            }
        }
        assert(decimal_nat(na) =~= decimal(a).skip(1));
        assert(decimal_nat(nb) =~= decimal(b).skip(1));
        lemma_decimal_nat_injective(na, nb);
    } else {
        assert(b >= 0) by {
            if b < 0 {
                assert(decimal(b)[0] == '-');
                assert(decimal(a)[0] == decimal_nat(na)[0]);
            }
        }
        lemma_decimal_nat_injective(na, nb);
    }
}

/// A text is cut in one way only at the first occurrence of a separator:
/// where neither head holds the separator, equal wholes have equal heads and
/// equal tails.
pub proof fn lemma_cut_at_separator(
    head1: Seq<char>,
    tail1: Seq<char>,
    head2: Seq<char>,
    tail2: Seq<char>,
    separator: char,
)
    requires
        head1.push(separator) + tail1 == head2.push(separator) + tail2,
        forall|i: int| 0 <= i < head1.len() ==> head1[i] != separator,
        forall|i: int| 0 <= i < head2.len() ==> head2[i] != separator,
    ensures
        head1 == head2,
        tail1 == tail2,
{
    let whole1 = head1.push(separator) + tail1;
    let whole2 = head2.push(separator) + tail2;
    if head1.len() < head2.len() {
        assert(whole1[head1.len() as int] == separator);
        assert(whole2[head1.len() as int] == head2[head1.len() as int]);
    } else if head2.len() < head1.len() {
        assert(whole2[head2.len() as int] == separator);
        assert(whole1[head2.len() as int] == head1[head2.len() as int]);
    }
    assert(head1.len() == head2.len());
    assert forall|i: int| 0 <= i < head1.len() implies head1[i] == head2[i] by {
        assert(whole1[i] == head1[i]);
        assert(whole2[i] == head2[i]);
    }
    assert(head1 =~= head2);
    assert(tail1 =~= whole1.skip(head1.len() as int + 1));
    assert(tail2 =~= whole2.skip(head2.len() as int + 1));
}

fn push_digit(out: &mut String, d: u8)
    requires
        d < 10,
    ensures
        final(out)@ == old(out)@.push(digit_char(d as int)),
{
    let table: &str = "0123456789";
    proof {
        reveal_strlit("0123456789");
    }
    let i: usize = d as usize;
    out.append(table.substring_ascii(i, i + 1));
}

fn push_decimal_nat(out: &mut String, n: u128)
    ensures
        final(out)@ == old(out)@ + decimal_nat(n as nat),
    decreases n,
{
    if n < 10 {
        push_digit(out, n as u8);
    } else {
        push_decimal_nat(out, n / 10);
        push_digit(out, (n % 10) as u8);
    }
}

/// Appends the decimal text of `n` to `out`.
pub fn push_decimal(out: &mut String, n: i128)
    ensures
        final(out)@ == old(out)@ + decimal(n as int),
{
    if n < 0 {
        out.append("-");
        proof {
            reveal_strlit("-");
        }
        let magnitude: u128 = ((-(n + 1)) as u128) + 1;
        push_decimal_nat(out, magnitude);
    } else {
        push_decimal_nat(out, n as u128);
    }
}

} // verus!

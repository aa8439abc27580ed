use crate::error::MeasurementsError;
use vstd::prelude::*;
use vstd::string::*;
use core::cmp::Ordering;

verus! {

/// Value of a hex digit of either case, or -1 for any other character.
pub open spec fn hex_digit_value(c: char) -> int {
    if '0' <= c && c <= '9' {
        c as int - '0' as int
    } else if 'a' <= c && c <= 'f' {
        c as int - 'a' as int + 10
    } else if 'A' <= c && c <= 'F' {
        c as int - 'A' as int + 10
    } else {
        -1
    }
}

pub open spec fn is_hex_digit(c: char) -> bool {
    hex_digit_value(c) >= 0
}

pub open spec fn is_lower_hex_digit(c: char) -> bool {
    ('0' <= c && c <= '9') || ('a' <= c && c <= 'f')
}

/// Every character of `s` is a hex digit.
pub open spec fn all_hex_digits(s: Seq<char>) -> bool {
    forall|i: int| 0 <= i < s.len() ==> is_hex_digit(#[trigger] s[i])
}

/// The bytes that a string of hex digit pairs stands for, high nibble first.
pub open spec fn hex_decode(s: Seq<char>) -> Seq<u8> {
    Seq::new(
        s.len() / 2,
        |i: int| (16 * hex_digit_value(s[2 * i]) + hex_digit_value(s[2 * i + 1])) as u8,
    )
}

/// `s` is an acceptable hex form of an `n`-byte value: `2 * n` hex digits of
/// either case.
pub open spec fn is_hex_field(s: Seq<char>, n: nat) -> bool {
    s.len() == 2 * n && all_hex_digits(s)
}

/// `e` is the error for decoding `s` as the `n`-byte field named `field`:
/// `InvalidLength` with the character count when the length is wrong, else
/// `InvalidHexValue` with the raw string.
pub open spec fn is_hex_field_error(e: MeasurementsError, field: Seq<char>, s: Seq<char>, n: nat) -> bool {
    if s.len() != 2 * n {
        e.is_invalid_length(field, s.len())
    } else {
        e.is_invalid_hex_value(field, s)
    }
}

/// `s` is the canonical (lowercase) hex form of `b`: two digits per byte,
/// high nibble first.
pub open spec fn is_lower_hex_of(s: Seq<char>, b: Seq<u8>) -> bool {
    &&& s.len() == 2 * b.len()
    &&& forall|i: int| 0 <= i < s.len() ==> is_lower_hex_digit(#[trigger] s[i])
    &&& forall|i: int|
        0 <= i < b.len() ==> hex_digit_value(#[trigger] s[2 * i]) == b[i] / 16
            && hex_digit_value(s[2 * i + 1]) == b[i] % 16
}

/// Lexicographic comparison of `a` and `b` from index `i` on, for sequences of
/// equal length.
pub open spec fn lex_cmp_from(a: Seq<u8>, b: Seq<u8>, i: int) -> Ordering
    decreases a.len() - i,
{
    if i < 0 || i >= a.len() {
        Ordering::Equal
    } else if a[i] < b[i] {
        Ordering::Less
    } else if a[i] > b[i] {
        Ordering::Greater
    } else {
        lex_cmp_from(a, b, i + 1)
    }
}

/// Lexicographic comparison of two byte sequences of equal length.
pub open spec fn lex_cmp(a: Seq<u8>, b: Seq<u8>) -> Ordering {
    lex_cmp_from(a, b, 0)
}

/// `a` and `b` are the same character up to ASCII case.
pub open spec fn same_ignoring_case(a: char, b: char) -> bool {
    ||| a == b
    ||| 'A' <= a && a <= 'Z' && b as int == a as int + 32
    ||| 'A' <= b && b <= 'Z' && a as int == b as int + 32
}

/// Lexicographic comparison of equal-length sequences from index `i` on is
/// antisymmetric, and `Equal` exactly when the suffixes agree.
pub proof fn lemma_lex_cmp_from(a: Seq<u8>, b: Seq<u8>, i: int)
    requires
        a.len() == b.len(),
        0 <= i <= a.len(),
    ensures
        lex_cmp_from(a, b, i) == Ordering::Equal <==> a.subrange(i, a.len() as int)
            == b.subrange(i, b.len() as int),
        lex_cmp_from(a, b, i) == Ordering::Less <==> lex_cmp_from(b, a, i) == Ordering::Greater,
    decreases a.len() - i,
{
    if i < a.len() {
        lemma_lex_cmp_from(a, b, i + 1);
        if a[i] == b[i] && a.subrange(i + 1, a.len() as int) == b.subrange(i + 1, b.len() as int) {
            assert forall|k: int| 0 <= k < a.len() - i implies a.subrange(i, a.len() as int)[k]
                == b.subrange(i, b.len() as int)[k] by {
                if k > 0 {
                    assert(a.subrange(i + 1, a.len() as int)[k - 1] == b.subrange(
                        i + 1,
                        b.len() as int,
                    )[k - 1]);
                }
            }
            assert(a.subrange(i, a.len() as int) =~= b.subrange(i, b.len() as int));
        }
        if a.subrange(i, a.len() as int) == b.subrange(i, b.len() as int) {
            assert(a[i] == a.subrange(i, a.len() as int)[0]);
            assert(b[i] == b.subrange(i, b.len() as int)[0]);
            assert(a.subrange(i + 1, a.len() as int) =~= a.subrange(i, a.len() as int).subrange(
                1,
                a.len() - i,
            ));
            assert(b.subrange(i + 1, b.len() as int) =~= b.subrange(i, b.len() as int).subrange(
                1,
                b.len() - i,
            ));
        }
    } else {
        assert(a.subrange(i, a.len() as int) =~= b.subrange(i, b.len() as int));
    }
}

/// Byte-sequence order is total: for sequences of one length, exactly one of
/// less, equal and greater holds, and swapping the operands swaps less and
/// greater.
pub proof fn lemma_lex_cmp_total(a: Seq<u8>, b: Seq<u8>)
    requires
        a.len() == b.len(),
    ensures
        lex_cmp(a, b) == Ordering::Equal <==> a == b,
        lex_cmp(a, b) == Ordering::Less <==> lex_cmp(b, a) == Ordering::Greater,
        lex_cmp(a, b) == Ordering::Greater <==> lex_cmp(b, a) == Ordering::Less,
{
    lemma_lex_cmp_from(a, b, 0);
    lemma_lex_cmp_from(b, a, 0);
    assert(a.subrange(0, a.len() as int) =~= a);
    assert(b.subrange(0, b.len() as int) =~= b);
}

/// Decoding the canonical hex form of `b` gives `b` back: the form is accepted
/// (every character is a digit) and stands for exactly the bytes of `b`.
pub proof fn lemma_decode_encode(s: Seq<char>, b: Seq<u8>)
    requires
        is_lower_hex_of(s, b),
    ensures
        s.len() == 2 * b.len(),
        all_hex_digits(s),
        hex_decode(s) == b,
{
    assert forall|i: int| 0 <= i < s.len() implies is_hex_digit(#[trigger] s[i]) by {
        assert(is_lower_hex_digit(s[i]));
    }
    assert forall|i: int| 0 <= i < b.len() implies #[trigger] hex_decode(s)[i] == b[i] by {
        assert(hex_digit_value(s[2 * i]) == b[i] / 16);
    }
    assert(hex_decode(s) =~= b);
}

/// Encoding what a valid hex string decodes to gives that string in lowercase:
/// each digit keeps its value and becomes a lowercase digit.
pub proof fn lemma_encode_decode(s: Seq<char>, t: Seq<char>)
    requires
        s.len() % 2 == 0,
        all_hex_digits(s),
        is_lower_hex_of(t, hex_decode(s)),
    ensures
        t.len() == s.len(),
        forall|i: int|
            0 <= i < s.len() ==> is_lower_hex_digit(#[trigger] t[i]) && hex_digit_value(t[i])
                == hex_digit_value(s[i]),
{
    let b = hex_decode(s);
    assert forall|i: int| 0 <= i < s.len() implies is_lower_hex_digit(#[trigger] t[i])
        && hex_digit_value(t[i]) == hex_digit_value(s[i]) by {
        let k = i / 2;
        assert(0 <= k < b.len());
        assert(is_hex_digit(s[2 * k]) && is_hex_digit(s[2 * k + 1]));
        assert(b[k] == 16 * hex_digit_value(s[2 * k]) + hex_digit_value(s[2 * k + 1]));
        assert(hex_digit_value(t[2 * k]) == b[k] / 16);
        assert(i == 2 * k || i == 2 * k + 1);
    }
}

/// Decoding ignores case: two strings that differ only in the case of their
/// letters are accepted alike and stand for the same bytes.
pub proof fn lemma_decode_ignores_case(s: Seq<char>, t: Seq<char>)
    requires
        s.len() == t.len(),
        forall|i: int| 0 <= i < s.len() ==> same_ignoring_case(#[trigger] s[i], t[i]),
    ensures
        all_hex_digits(s) == all_hex_digits(t),
        hex_decode(s) == hex_decode(t),
{
    assert forall|i: int| 0 <= i < s.len() implies hex_digit_value(#[trigger] s[i])
        == hex_digit_value(t[i]) by {
        assert(same_ignoring_case(s[i], t[i]));
    }
    if all_hex_digits(s) {
        assert forall|i: int| 0 <= i < t.len() implies is_hex_digit(#[trigger] t[i]) by {
            assert(hex_digit_value(s[i]) == hex_digit_value(t[i]));
        }
    }
    if all_hex_digits(t) {
        assert forall|i: int| 0 <= i < s.len() implies is_hex_digit(#[trigger] s[i]) by {
            assert(hex_digit_value(s[i]) == hex_digit_value(t[i]));
        }
    }
    assert forall|i: int| 0 <= i < hex_decode(s).len() implies #[trigger] hex_decode(s)[i]
        == hex_decode(t)[i] by {
        assert(hex_digit_value(s[2 * i]) == hex_digit_value(t[2 * i]));
        assert(hex_digit_value(s[2 * i + 1]) == hex_digit_value(t[2 * i + 1]));
    }
    assert(hex_decode(s) =~= hex_decode(t));
}

/// Lexicographic comparison of two strings from index `i` on, character by
/// character (by code point), for strings of equal length.
pub open spec fn text_cmp_from(s: Seq<char>, t: Seq<char>, i: int) -> Ordering
    decreases s.len() - i,
{
    if i < 0 || i >= s.len() {
        Ordering::Equal
    } else if (s[i] as int) < (t[i] as int) {
        Ordering::Less
    } else if (s[i] as int) > (t[i] as int) {
        Ordering::Greater
    } else {
        text_cmp_from(s, t, i + 1)
    }
}

/// Lowercase hex digits order as their values do.
proof fn lemma_lower_digit_order(c: char, d: char)
    requires
        is_lower_hex_digit(c),
        is_lower_hex_digit(d),
    ensures
        (c as int) < (d as int) <==> hex_digit_value(c) < hex_digit_value(d),
        c == d <==> hex_digit_value(c) == hex_digit_value(d),
{
}

proof fn lemma_text_cmp_matches_bytes_from(s: Seq<char>, t: Seq<char>, a: Seq<u8>, b: Seq<u8>, i: int)
    requires
        is_lower_hex_of(s, a),
        is_lower_hex_of(t, b),
        a.len() == b.len(),
        0 <= i <= a.len(),
    ensures
        text_cmp_from(s, t, 2 * i) == lex_cmp_from(a, b, i),
    decreases a.len() - i,
{
    if i < a.len() {
        lemma_text_cmp_matches_bytes_from(s, t, a, b, i + 1);
        assert(hex_digit_value(s[2 * i]) == a[i] / 16 && hex_digit_value(s[2 * i + 1]) == a[i] % 16);
        assert(hex_digit_value(t[2 * i]) == b[i] / 16 && hex_digit_value(t[2 * i + 1]) == b[i] % 16);
        assert(is_lower_hex_digit(s[2 * i]) && is_lower_hex_digit(s[2 * i + 1]));
        assert(is_lower_hex_digit(t[2 * i]) && is_lower_hex_digit(t[2 * i + 1]));
        lemma_lower_digit_order(s[2 * i], t[2 * i]);
        lemma_lower_digit_order(t[2 * i], s[2 * i]);
        lemma_lower_digit_order(s[2 * i + 1], t[2 * i + 1]);
        lemma_lower_digit_order(t[2 * i + 1], s[2 * i + 1]);
        assert(text_cmp_from(s, t, 2 * i + 2) == text_cmp_from(s, t, 2 * (i + 1)));
        let x = a[i];
        let y = b[i];
        assert(x == 16 * (x / 16) + x % 16) by (nonlinear_arith);
        assert(y == 16 * (y / 16) + y % 16) by (nonlinear_arith);
        if x / 16 != y / 16 {
            assert(x != y);
        } else {
            assert(s[2 * i] == t[2 * i]);
            assert(text_cmp_from(s, t, 2 * i) == text_cmp_from(s, t, 2 * i + 1));
            if x % 16 == y % 16 {
                assert(x == y);
                assert(s[2 * i + 1] == t[2 * i + 1]);
                assert(text_cmp_from(s, t, 2 * i + 1) == text_cmp_from(s, t, 2 * i + 2));
            } else {
                assert(x != y);
            }
        }
    }
}

/// The canonical hex text of byte values orders exactly as the bytes do: for
/// values of one length, comparing their lowercase hex strings character by
/// character gives the byte-wise lexicographic comparison.
pub proof fn lemma_hex_text_order_matches_bytes(s: Seq<char>, t: Seq<char>, a: Seq<u8>, b: Seq<u8>)
    requires
        is_lower_hex_of(s, a),
        is_lower_hex_of(t, b),
        a.len() == b.len(),
    ensures
        text_cmp_from(s, t, 0) == lex_cmp(a, b),
{
    lemma_text_cmp_matches_bytes_from(s, t, a, b, 0);
}

/// A fixed-length byte value that is written as a hex string of exactly `2 * N`
/// characters.
#[derive(Debug, Clone, Copy, Eq, Ord, Hash)]
pub struct HexBytes<const N: usize> {
    pub bytes: [u8; N],
}

impl<const N: usize> View for HexBytes<N> {
    type V = Seq<u8>;

    open spec fn view(&self) -> Seq<u8> {
        self.bytes@
    }
}

/// Byte-wise equality of two arrays of one length.
pub fn bytes_eq<const N: usize>(a: &[u8; N], b: &[u8; N]) -> (r: bool)
    ensures
        r == (a@ == b@),
{
    let mut i: usize = 0;
    while i < N
        invariant
            i <= N,
            forall|j: int| 0 <= j < i ==> a@[j] == b@[j],
        decreases N - i,
    {
        if a[i] != b[i] {
            return false;
        }
        i += 1;
    }
    assert(a@ =~= b@);
    true
}

impl<const N: usize> PartialEq for HexBytes<N> {
    fn eq(&self, other: &HexBytes<N>) -> (r: bool) {
        bytes_eq(&self.bytes, &other.bytes)
    }
}

impl<const N: usize> vstd::std_specs::cmp::PartialEqSpecImpl for HexBytes<N> {
    open spec fn obeys_eq_spec() -> bool {
        true
    }

    open spec fn eq_spec(&self, other: &HexBytes<N>) -> bool {
        self@ == other@
    }
}

impl<const N: usize> PartialOrd for HexBytes<N> {
    fn partial_cmp(&self, other: &HexBytes<N>) -> (r: Option<Ordering>) {
        let mut i: usize = 0;
        while i < N
            invariant
                i <= N,
                lex_cmp(self@, other@) == lex_cmp_from(self@, other@, i as int),
            decreases N - i,
        {
            if self.bytes[i] < other.bytes[i] {
                return Some(Ordering::Less);
            }
            if self.bytes[i] > other.bytes[i] {
                return Some(Ordering::Greater);
            }
            i += 1;
        }
        Some(Ordering::Equal)
    }
}

impl<const N: usize> vstd::std_specs::cmp::PartialOrdSpecImpl for HexBytes<N> {
    open spec fn obeys_partial_cmp_spec() -> bool {
        true
    }

    open spec fn partial_cmp_spec(&self, other: &HexBytes<N>) -> Option<Ordering> {
        Some(lex_cmp(self@, other@))
    }
}

impl<const N: usize> From<[u8; N]> for HexBytes<N> {
    fn from(bytes: [u8; N]) -> (r: HexBytes<N>) {
        HexBytes { bytes }
    }
}

impl<const N: usize> vstd::std_specs::convert::FromSpecImpl<[u8; N]> for HexBytes<N> {
    open spec fn obeys_from_spec() -> bool {
        true
    }

    open spec fn from_spec(bytes: [u8; N]) -> HexBytes<N> {
        HexBytes { bytes }
    }
}

/// Value of the hex digit `c`, if it is one.
fn digit_value(c: char) -> (r: Option<u8>)
    ensures
        r matches Some(v) <==> is_hex_digit(c),
        r matches Some(v) ==> v as int == hex_digit_value(c) && v < 16,
{
    if '0' <= c && c <= '9' {
        Some((c as u32 - '0' as u32) as u8)
    } else if 'a' <= c && c <= 'f' {
        Some((c as u32 - 'a' as u32 + 10) as u8)
    } else if 'A' <= c && c <= 'F' {
        Some((c as u32 - 'A' as u32 + 10) as u8)
    } else {
        None
    }
}

/// The one-character string of the lowercase hex digit for `v`.
fn lower_digit(v: u8) -> (r: &'static str)
    requires
        v < 16,
    ensures
        r@.len() == 1,
        is_lower_hex_digit(r@[0]),
        hex_digit_value(r@[0]) == v,
{
    let digits = "0123456789abcdef";
    proof {
        reveal_strlit("0123456789abcdef");
    }
    let r = digits.substring_char(v as usize, v as usize + 1);
    assert(r@[0] == digits@[v as int]);
    r
}

impl<const N: usize> HexBytes<N> {
    /// Decodes `s`, the hex form of the field named `field`. Digits of either
    /// case are accepted.
    pub fn decode(field: &str, s: &str) -> (r: Result<HexBytes<N>, MeasurementsError>)
        ensures
            is_hex_field(s@, N as nat) ==> (r matches Ok(h) && h@ == hex_decode(s@)),
            !is_hex_field(s@, N as nat) ==> (r matches Err(e) && is_hex_field_error(
                e,
                field@,
                s@,
                N as nat,
            )),
    {
        let len = s.unicode_len();
        if len % 2 != 0 || len / 2 != N {
            return Err(MeasurementsError::InvalidLength(field.to_owned(), len));
        }
        let mut bytes = [0u8; N];
        let mut i: usize = 0;
        while i < N
            invariant
                len == s@.len(),
                len == 2 * N,
                i <= N,
                forall|j: int| 0 <= j < 2 * i ==> is_hex_digit(#[trigger] s@[j]),
                forall|j: int| 0 <= j < i ==> bytes@[j] == #[trigger] hex_decode(s@)[j],
            decreases N - i,
        {
            let hi = digit_value(s.get_char(2 * i));
            let lo = digit_value(s.get_char(2 * i + 1));
            match (hi, lo) {
                (Some(h), Some(l)) => {
                    bytes[i] = h * 16 + l;
                },
                _ => {
                    assert(!all_hex_digits(s@));
                    return Err(MeasurementsError::InvalidHexValue(field.to_owned(), s.to_owned()));
                },
            }
            i += 1;
        }
        assert(bytes@ =~= hex_decode(s@));
        Ok(HexBytes { bytes })
    }

    /// The canonical hex form: `2 * N` lowercase digits, two per byte, high
    /// nibble first.
    pub fn encode(&self) -> (r: String)
        ensures
            is_lower_hex_of(r@, self@),
    {
        let mut out = String::new();
        let mut i: usize = 0;
        while i < N
            invariant
                i <= N,
                out@.len() == 2 * i,
                forall|j: int| 0 <= j < out@.len() ==> is_lower_hex_digit(#[trigger] out@[j]),
                forall|j: int|
                    0 <= j < i ==> hex_digit_value(#[trigger] out@[2 * j]) == self@[j] / 16
                        && hex_digit_value(out@[2 * j + 1]) == self@[j] % 16,
            decreases N - i,
        {
            let b = self.bytes[i];
            let ghost prev = out@;
            let hi = lower_digit(b / 16);
            let lo = lower_digit(b % 16);
            out.append(hi);
            out.append(lo);
            assert(out@ =~= prev + hi@ + lo@);
            assert(out@[2 * i as int] == hi@[0] && out@[2 * i + 1] == lo@[0]);
            assert forall|j: int| 0 <= j < i implies out@[2 * j] == #[trigger] prev[2 * j] && out@[2 * j + 1]
                == prev[2 * j + 1] by {}
            i += 1;
        }
        out
    }
}

} // verus!

//! Text helpers shared by the bots: decimal and hexadecimal rendering of
//! integers, string building, and the link between the characters of a
//! string and its UTF-8 bytes.

use vstd::prelude::*;
use vstd::utf8::*;

verus! {

/// The ASCII character of a decimal digit.
pub open spec fn decimal_char(d: nat) -> char {
    if d < 10 { ((d + 48) as u32) as char } else { '?' }
}

/// The decimal digits of `n`, most significant first, without leading zeros
/// (`0` renders as `"0"`).
pub open spec fn nat_decimal(n: nat) -> Seq<char>
    decreases n,
{
    if n < 10 {
        seq![decimal_char(n)]
    } else {
        nat_decimal(n / 10).push(decimal_char(n % 10))
    }
}

/// How Rust's `Display` renders an integer: an optional `-` followed by the
/// decimal digits of the magnitude.
pub open spec fn int_decimal(i: int) -> Seq<char> {
    if i < 0 {
        seq!['-'] + nat_decimal((-i) as nat)
    } else {
        nat_decimal(i as nat)
    }
}

/// The lowercase ASCII character of a hexadecimal digit.
pub open spec fn hex_char(d: nat) -> char {
    if d < 10 {
        ((d + 48) as u32) as char
    } else if d < 16 {
        ((d + 87) as u32) as char
    } else {
        '?'
    }
}

/// The last `width` lowercase hexadecimal digits of `n`, most significant
/// first (zero-padded on the left).
pub open spec fn hex_fixed(n: nat, width: nat) -> Seq<char>
    decreases width,
{
    if width == 0 {
        Seq::empty()
    } else {
        hex_fixed(n / 16, (width - 1) as nat).push(hex_char(n % 16))
    }
}

/// The characters of an optional string.
pub open spec fn opt_string_view(o: Option<String>) -> Option<Seq<char>> {
    match o {
        Some(s) => Some(s@),
        None => None,
    }
}

/// The characters of an optional string slice.
pub open spec fn opt_str_view(o: Option<&str>) -> Option<Seq<char>> {
    match o {
        Some(s) => Some(s@),
        None => None,
    }
}

/// Appends the UTF-8 bytes of `s` to `v`.
pub fn extend_with_str(v: &mut Vec<u8>, s: &str)
    ensures
        final(v)@ == old(v)@ + encode_utf8(s@),
{
    v.extend_from_slice(s.as_bytes());
    assert(v@ =~= old(v)@ + encode_utf8(s@));
}

/// Appends the bytes of `b` to `v`.
pub fn extend_with_bytes(v: &mut Vec<u8>, b: &[u8])
    ensures
        final(v)@ == old(v)@ + b@,
{
    v.extend_from_slice(b);
    assert(v@ =~= old(v)@ + b@);
}

/// Compares two strings character by character (through their UTF-8 bytes).
pub fn str_eq(a: &str, b: &str) -> (eq: bool)
    ensures
        eq == (a@ == b@),
{
    let ab = a.as_bytes();
    let bb = b.as_bytes();
    proof {
        encode_utf8_decode_utf8(a@);
        encode_utf8_decode_utf8(b@);
    }
    if ab.len() != bb.len() {
        return false;
    }
    let n = ab.len();
    let mut i: usize = 0;
    while i < n
        invariant
            n == ab@.len(),
            n == bb@.len(),
            i <= n,
            ab@ == encode_utf8(a@),
            bb@ == encode_utf8(b@),
            decode_utf8(encode_utf8(a@)) == a@,
            decode_utf8(encode_utf8(b@)) == b@,
            forall|k: int| 0 <= k < i ==> ab@[k] == bb@[k],
        decreases n - i,
    {
        if ab[i] != bb[i] {
            return false;
        }
        i = i + 1;
    }
    assert(ab@ =~= bb@);
    true
}

/// The characters of a decimal rendering are ASCII digits, and there is at
/// least one.
pub(crate) proof fn lemma_nat_decimal_digits(n: nat)
    ensures
        nat_decimal(n).len() >= 1,
        n >= 10 ==> nat_decimal(n).len() >= 2,
        forall|k: int|
            0 <= k < nat_decimal(n).len() ==> 48 <= (#[trigger] nat_decimal(n)[k]) as u32 <= 57,
    decreases n,
{
    if n >= 10 {
        lemma_nat_decimal_digits(n / 10);
    }
}

/// Distinct numbers have distinct decimal renderings.
pub proof fn lemma_nat_decimal_injective(a: nat, b: nat)
    ensures
        nat_decimal(a) == nat_decimal(b) ==> a == b,
    decreases a,
{
    lemma_nat_decimal_digits(a);
    lemma_nat_decimal_digits(b);
    if nat_decimal(a) == nat_decimal(b) {
        if a < 10 && b < 10 {
            assert(nat_decimal(a)[0] == decimal_char(a));
            assert(decimal_char(a) as u32 == a + 48);
            assert(decimal_char(b) as u32 == b + 48);
        } else if a >= 10 && b >= 10 {
            let da = nat_decimal(a);
            assert(da.last() == decimal_char(a % 10));
            assert(nat_decimal(b).last() == decimal_char(b % 10));
            assert(decimal_char(a % 10) as u32 == a % 10 + 48);
            assert(decimal_char(b % 10) as u32 == b % 10 + 48);
            assert(da.drop_last() =~= nat_decimal(a / 10));
            assert(nat_decimal(b).drop_last() =~= nat_decimal(b / 10));
            lemma_nat_decimal_injective(a / 10, b / 10);
        }
    }
}

/// Distinct integers have distinct `Display` renderings.
pub proof fn lemma_int_decimal_injective(a: int, b: int)
    ensures
        int_decimal(a) == int_decimal(b) ==> a == b,
{
    if int_decimal(a) == int_decimal(b) {
        lemma_nat_decimal_digits((-a) as nat);
        lemma_nat_decimal_digits((-b) as nat);
        lemma_nat_decimal_digits(a as nat);
        lemma_nat_decimal_digits(b as nat);
        if a < 0 && b < 0 {
            assert(int_decimal(a).drop_first() =~= nat_decimal((-a) as nat));
            assert(int_decimal(b).drop_first() =~= nat_decimal((-b) as nat));
            lemma_nat_decimal_injective((-a) as nat, (-b) as nat);
        } else if a >= 0 && b >= 0 {
            lemma_nat_decimal_injective(a as nat, b as nat);
        } else if a < 0 {
            assert(int_decimal(a)[0] == '-');
            assert(int_decimal(b)[0] == nat_decimal(b as nat)[0]);
        } else {
            assert(int_decimal(b)[0] == '-');
            assert(int_decimal(a)[0] == nat_decimal(a as nat)[0]);
        }
    }
}

/// A `Display` rendering holds no `:`.
pub(crate) proof fn lemma_int_decimal_no_colon(i: int)
    ensures
        forall|k: int| 0 <= k < int_decimal(i).len() ==> #[trigger] int_decimal(i)[k] != ':',
{
    if i < 0 {
        lemma_nat_decimal_digits((-i) as nat);
        assert forall|k: int| 0 <= k < int_decimal(i).len() implies #[trigger] int_decimal(i)[k]
            != ':' by {
            if k > 0 {
                assert(int_decimal(i)[k] == nat_decimal((-i) as nat)[k - 1]);
            }
        }
    } else {
        lemma_nat_decimal_digits(i as nat);
    }
}

/// `16` to the power `w`.
pub open spec fn pow16(w: nat) -> nat
    decreases w,
{
    if w == 0 {
        1
    } else {
        16 * pow16((w - 1) as nat)
    }
}

/// Numbers below `16^w` have distinct `w`-digit hexadecimal renderings.
pub proof fn lemma_hex_fixed_injective(a: nat, b: nat, w: nat)
    requires
        a < pow16(w),
        b < pow16(w),
    ensures
        hex_fixed(a, w) == hex_fixed(b, w) ==> a == b,
    decreases w,
{
    if w > 0 && hex_fixed(a, w) == hex_fixed(b, w) {
        let p = pow16((w - 1) as nat);
        assert(a / 16 < p) by (nonlinear_arith)
            requires
                a < 16 * p,
        ;
        assert(b / 16 < p) by (nonlinear_arith)
            requires
                b < 16 * p,
        ;
        assert(hex_fixed(a, w).last() == hex_char(a % 16));
        assert(hex_fixed(b, w).last() == hex_char(b % 16));
        if a % 16 < 10 {
            assert(hex_char(a % 16) as u32 == a % 16 + 48);
        } else {
            assert(hex_char(a % 16) as u32 == a % 16 + 87);
        }
        if b % 16 < 10 {
            assert(hex_char(b % 16) as u32 == b % 16 + 48);
        } else {
            assert(hex_char(b % 16) as u32 == b % 16 + 87);
        }
        assert(hex_fixed(a, w).drop_last() =~= hex_fixed(a / 16, (w - 1) as nat));
        assert(hex_fixed(b, w).drop_last() =~= hex_fixed(b / 16, (w - 1) as nat));
        lemma_hex_fixed_injective(a / 16, b / 16, (w - 1) as nat);
    }
}

/// A `w`-digit hexadecimal rendering has `w` characters.
pub(crate) proof fn lemma_hex_fixed_len(n: nat, w: nat)
    ensures
        hex_fixed(n, w).len() == w,
    decreases w,
{
    if w > 0 {
        lemma_hex_fixed_len(n / 16, (w - 1) as nat);
    }
}

/// Every `u64` is below `16^16`.
pub(crate) proof fn lemma_u64_below_pow16(n: u64)
    ensures
        (n as nat) < pow16(16),
{
    reveal_with_fuel(pow16, 17);
    assert(pow16(16) == 0x1_0000_0000_0000_0000);
}

/// Appends one character to a string: a wrapper of std's `String::push`,
/// trusted to leave the old characters in place and add `c` after them.
#[verifier::external_body]
pub fn push_char(s: &mut String, c: char)
    ensures
        final(s)@ == old(s)@.push(c),
{
    s.push(c);
}

/// Appends the decimal digits of `n`.
pub fn push_decimal(s: &mut String, n: u64)
    ensures
        final(s)@ == old(s)@ + nat_decimal(n as nat),
    decreases n,
{
    if n >= 10 {
        push_decimal(s, n / 10);
    }
    let d = (n % 10) as u8;
    let c = (d + 48) as char;
    proof {
        assert(c == decimal_char((n % 10) as nat));
    }
    push_char(s, c);
}

/// Appends Rust's `Display` rendering of `v`.
pub fn push_int(s: &mut String, v: i64)
    ensures
        final(s)@ == old(s)@ + int_decimal(v as int),
{
    if v < 0 {
        push_char(s, '-');
        let magnitude: u64 = if v == i64::MIN {
            9223372036854775808u64
        } else {
            (-v) as u64
        };
        push_decimal(s, magnitude);
        assert(final(s)@ =~= old(s)@ + int_decimal(v as int));
    } else {
        push_decimal(s, v as u64);
    }
}

/// Appends the last `width` lowercase hexadecimal digits of `n`,
/// zero-padded on the left.
pub fn push_hex_fixed(s: &mut String, n: u64, width: u32)
    ensures
        final(s)@ == old(s)@ + hex_fixed(n as nat, width as nat),
    decreases width,
{
    if width > 0 {
        push_hex_fixed(s, n / 16, width - 1);
        let d = (n % 16) as u8;
        let c = if d < 10 { (d + 48) as char } else { (d + 87) as char };
        assert(c == hex_char((n % 16) as nat));
        push_char(s, c);
    }
}

/// Rust's `Display` rendering of `v` as a new string.
pub fn int_to_string(v: i64) -> (res: String)
    ensures
        res@ == int_decimal(v as int),
{
    let mut s = String::new();
    push_int(&mut s, v);
    assert(s@ =~= int_decimal(v as int));
    s
}

} // verus!

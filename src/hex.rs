use vstd::prelude::*;

use crate::error::ErrorKind;

verus! {

/// Lower-case hexadecimal digits, indexed by their value.
pub open spec fn hex_alphabet() -> Seq<char> {
    seq!['0', '1', '2', '3', '4', '5', '6', '7', '8', '9', 'a', 'b', 'c', 'd', 'e', 'f']
}

pub open spec fn is_hex_digit(c: char) -> bool {
    ('0' <= c && c <= '9') || ('a' <= c && c <= 'f') || ('A' <= c && c <= 'F')
}

pub open spec fn is_lower_hex_digit(c: char) -> bool {
    ('0' <= c && c <= '9') || ('a' <= c && c <= 'f')
}

pub open spec fn is_decimal_digit(c: char) -> bool {
    '0' <= c && c <= '9'
}

pub open spec fn digit_value(c: char) -> int {
    if '0' <= c && c <= '9' {
        c as int - '0' as int
    } else if 'a' <= c && c <= 'f' {
        c as int - 'a' as int + 10
    } else {
        c as int - 'A' as int + 10
    }
}

pub open spec fn all_hex(s: Seq<char>) -> bool {
    forall|i: int| 0 <= i < s.len() ==> is_hex_digit(#[trigger] s[i])
}

/// The number that a string of hexadecimal digits denotes, most significant first.
pub open spec fn hex_value(s: Seq<char>) -> nat
    decreases s.len(),
{
    if s.len() == 0 {
        0
    } else {
        (hex_value(s.drop_last()) * 16 + digit_value(s.last())) as nat
    }
}

/// `s` without a leading `0x`, where it has one.
pub open spec fn strip_0x(s: Seq<char>) -> Seq<char> {
    if s.len() >= 2 && s[0] == '0' && s[1] == 'x' {
        s.subrange(2, s.len() as int)
    } else {
        s
    }
}

/// `s` begins with `0x`.
pub open spec fn has_0x(s: Seq<char>) -> bool {
    s.len() >= 2 && s[0] == '0' && s[1] == 'x'
}

/// `s` is `0x` followed by one or more hexadecimal digits whose value fits in
/// 128 bits.
pub open spec fn is_hex_quantity(s: Seq<char>) -> bool {
    let d = strip_0x(s);
    &&& has_0x(s)
    &&& d.len() > 0
    &&& all_hex(d)
    &&& hex_value(d) <= u128::MAX
}

pub open spec fn quantity_value(s: Seq<char>) -> nat {
    hex_value(strip_0x(s))
}

/// A quantity that fits in 64 bits, as block numbers do.
pub open spec fn is_u64_quantity(s: Seq<char>) -> bool {
    is_hex_quantity(s) && quantity_value(s) <= u64::MAX
}

/// Shortest lower-case hexadecimal form of `n`, without prefix.
pub open spec fn hex_repr(n: nat) -> Seq<char>
    decreases n,
{
    if n < 16 {
        seq![hex_alphabet()[n as int]]
    } else {
        hex_repr(n / 16).push(hex_alphabet()[(n % 16) as int])
    }
}

/// Shortest decimal form of `n`.
pub open spec fn dec_repr(n: nat) -> Seq<char>
    decreases n,
{
    if n < 10 {
        seq![hex_alphabet()[n as int]]
    } else {
        dec_repr(n / 10).push(hex_alphabet()[(n % 10) as int])
    }
}

/// The `0x`-prefixed form in which JSON-RPC writes quantities.
pub open spec fn quantity_repr(n: nat) -> Seq<char> {
    seq!['0', 'x'] + hex_repr(n)
}

pub proof fn lemma_hex_value_prefix_le(s: Seq<char>, j: int)
    requires
        0 <= j <= s.len(),
        all_hex(s),
    ensures
        hex_value(s.subrange(0, j)) <= hex_value(s),
    decreases s.len(),
{
    if j < s.len() {
        assert(all_hex(s.drop_last())) by {
            assert forall|k: int| 0 <= k < s.drop_last().len() implies is_hex_digit(
                #[trigger] s.drop_last()[k],
            ) by {
                assert(s.drop_last()[k] == s[k]);
            }
        }
        lemma_hex_value_prefix_le(s.drop_last(), j);
        assert(s.drop_last().subrange(0, j) =~= s.subrange(0, j));
        assert(is_hex_digit(s[s.len() - 1]));
        let h = hex_value(s.drop_last());
        assert(h <= h * 16 + digit_value(s.last())) by (nonlinear_arith)
            requires
                h >= 0,
                digit_value(s.last()) >= 0,
        ;
    } else {
        assert(s.subrange(0, j) =~= s);
    }
}

fn hex_digit_of(c: char) -> (r: Option<u128>)
    ensures
        is_hex_digit(c) <==> r.is_some(),
        r.is_some() ==> r.unwrap() == digit_value(c) && r.unwrap() < 16,
{
    if '0' <= c && c <= '9' {
        Some((c as u32 - '0' as u32) as u128)
    } else if 'a' <= c && c <= 'f' {
        Some((c as u32 - 'a' as u32 + 10) as u128)
    } else if 'A' <= c && c <= 'F' {
        Some((c as u32 - 'A' as u32 + 10) as u128)
    } else {
        None
    }
}

/// Whether every character of `s` is a hexadecimal digit.
pub fn is_hex_text(s: &str) -> (r: bool)
    ensures
        r == all_hex(s@),
{
    let n = s.unicode_len();
    let mut i: usize = 0;
    while i < n
        invariant
            0 <= i <= n,
            n == s@.len(),
            forall|k: int| 0 <= k < i ==> is_hex_digit(#[trigger] s@[k]),
        decreases n - i,
    {
        if hex_digit_of(s.get_char(i)).is_none() {
            return false;
        }
        i = i + 1;
    }
    true
}

/// `s` without a leading `0x`, where it has one.
pub fn strip_hex_prefix(s: &str) -> (r: &str)
    ensures
        r@ == strip_0x(s@),
{
    let n = s.unicode_len();
    if n >= 2 && s.get_char(0) == '0' && s.get_char(1) == 'x' {
        s.substring_char(2, n)
    } else {
        s
    }
}

/// Parses a `0x`-prefixed hexadecimal quantity into 128 bits; text without the
/// prefix is refused.
pub fn parse_hex(s: &str) -> (r: Result<u128, ErrorKind>)
    ensures
        r.is_ok() <==> is_hex_quantity(s@),
        r.is_ok() ==> r.unwrap() == quantity_value(s@),
        r.is_err() ==> r == Err::<u128, ErrorKind>(ErrorKind::Hex),
{
    let len = s.unicode_len();
    if len < 2 || s.get_char(0) != '0' || s.get_char(1) != 'x' {
        return Err(ErrorKind::Hex);
    }
    let d = s.substring_char(2, len);
    let n = d.unicode_len();
    if n == 0 {
        return Err(ErrorKind::Hex);
    }
    let mut acc: u128 = 0;
    let mut i: usize = 0;
    while i < n
        invariant
            0 <= i <= n,
            n == d@.len(),
            d@ == strip_0x(s@),
            all_hex(d@.subrange(0, i as int)),
            acc == hex_value(d@.subrange(0, i as int)),
        decreases n - i,
    {
        let c = d.get_char(i);
        let v = match hex_digit_of(c) {
            Some(v) => v,
            None => {
                assert(!all_hex(d@));
                return Err(ErrorKind::Hex);
            },
        };
        let ghost pre = d@.subrange(0, i as int);
        let ghost next = d@.subrange(0, i as int + 1);
        assert(next.drop_last() =~= pre);
        assert(next.last() == c);
        if acc > (u128::MAX - v) / 16 {
            assert(acc * 16 + v > u128::MAX) by (nonlinear_arith)
                requires
                    acc > (u128::MAX - v) / 16,
                    v < 16,
            ;
            proof {
                if all_hex(d@) {
                    lemma_hex_value_prefix_le(d@, i as int + 1);
                }
            }
            return Err(ErrorKind::Hex);
        }
        assert(acc * 16 + v <= u128::MAX) by (nonlinear_arith)
            requires
                acc <= (u128::MAX - v) / 16,
                v < 16,
        ;
        acc = acc * 16 + v;
        assert(all_hex(next)) by {
            assert forall|k: int| 0 <= k < next.len() implies is_hex_digit(#[trigger] next[k]) by {
                if k < i {
                    assert(next[k] == pre[k]);
                }
            }
        }
        i = i + 1;
    }
    assert(d@.subrange(0, n as int) =~= d@);
    Ok(acc)
}

/// Parses a hexadecimal quantity that must fit in 64 bits, such as a block number.
pub fn parse_hex_u64(s: &str) -> (r: Result<u64, ErrorKind>)
    ensures
        r.is_ok() <==> is_u64_quantity(s@),
        r.is_ok() ==> r.unwrap() == quantity_value(s@),
        r.is_err() ==> r == Err::<u64, ErrorKind>(ErrorKind::Hex),
{
    let v = parse_hex(s)?;
    if v > u64::MAX as u128 {
        Err(ErrorKind::Hex)
    } else {
        Ok(v as u64)
    }
}

fn digit_str(d: u128) -> (r: &'static str)
    requires
        d < 16,
    ensures
        r@ == seq![hex_alphabet()[d as int]],
{
    let table = "0123456789abcdef";
    proof {
        reveal_strlit("0123456789abcdef");
    }
    assert(table@ =~= hex_alphabet());
    let r = table.substring_ascii(d as usize, d as usize + 1);
    assert(r@ =~= seq![hex_alphabet()[d as int]]);
    r
}

/// `c` with an upper-case hexadecimal digit turned to lower case.
pub open spec fn lower_hex_char(c: char) -> char {
    if 'A' <= c && c <= 'F' {
        hex_alphabet()[digit_value(c)]
    } else {
        c
    }
}

/// `s` with its upper-case hexadecimal digits turned to lower case.
pub open spec fn fold_lower_hex(s: Seq<char>) -> Seq<char> {
    s.map_values(|c: char| lower_hex_char(c))
}

/// Writes the hexadecimal digits of `s` in lower case, the canonical form of
/// an address; other characters are kept.
pub fn to_lower_hex(s: &str) -> (r: String)
    ensures
        r@ == fold_lower_hex(s@),
{
    let n = s.unicode_len();
    let mut r = String::new();
    let mut i: usize = 0;
    while i < n
        invariant
            0 <= i <= n,
            n == s@.len(),
            r@ == fold_lower_hex(s@.subrange(0, i as int)),
        decreases n - i,
    {
        let c = s.get_char(i);
        let ghost before = r@;
        if 'A' <= c && c <= 'F' {
            r.append(digit_str((c as u32 - 'A' as u32 + 10) as u128));
        } else {
            r.append(s.substring_char(i, i + 1));
        }
        assert(r@ =~= fold_lower_hex(s@.subrange(0, i as int + 1)));
        i = i + 1;
    }
    assert(s@.subrange(0, n as int) =~= s@);
    r
}

/// Shortest lower-case hexadecimal form of `n`, without prefix.
pub fn format_hex(n: u128) -> (r: String)
    ensures
        r@ == hex_repr(n as nat),
    decreases n,
{
    if n < 16 {
        String::from_str(digit_str(n))
    } else {
        let mut s = format_hex(n / 16);
        s.append(digit_str(n % 16));
        assert(s@ =~= hex_repr(n as nat));
        s
    }
}

/// Shortest decimal form of `n`.
pub fn format_decimal(n: u128) -> (r: String)
    ensures
        r@ == dec_repr(n as nat),
    decreases n,
{
    if n < 10 {
        String::from_str(digit_str(n))
    } else {
        let mut s = format_decimal(n / 10);
        s.append(digit_str(n % 10));
        assert(s@ =~= dec_repr(n as nat));
        s
    }
}

/// `n` as a JSON-RPC quantity: `0x` followed by its shortest hexadecimal form.
pub fn format_quantity(n: u128) -> (r: String)
    ensures
        r@ == quantity_repr(n as nat),
{
    let prefix = "0x";
    proof {
        reveal_strlit("0x");
    }
    let s = String::from_str(prefix);
    let r = s.concat(format_hex(n).as_str());
    assert(r@ =~= quantity_repr(n as nat));
    r
}

pub proof fn lemma_hex_repr(n: nat)
    ensures
        hex_repr(n).len() > 0,
        forall|i: int| 0 <= i < hex_repr(n).len() ==> is_lower_hex_digit(#[trigger] hex_repr(n)[i]),
        hex_value(hex_repr(n)) == n,
    decreases n,
{
    let r = hex_repr(n);
    if n >= 16 {
        lemma_hex_repr(n / 16);
        assert(r.drop_last() =~= hex_repr(n / 16));
        assert(digit_value(hex_alphabet()[(n % 16) as int]) == n % 16);
        assert(r.last() == hex_alphabet()[(n % 16) as int]);
        assert(hex_value(r) == hex_value(hex_repr(n / 16)) * 16 + n % 16);
        assert((n / 16) * 16 + n % 16 == n);
    } else {
        assert(r.drop_last() =~= Seq::<char>::empty());
        assert(digit_value(hex_alphabet()[n as int]) == n);
        assert(r.last() == hex_alphabet()[n as int]);
        assert(hex_value(r) == hex_value(r.drop_last()) * 16 + n);
    }
}

pub proof fn lemma_dec_repr(n: nat)
    ensures
        dec_repr(n).len() > 0,
        forall|i: int| 0 <= i < dec_repr(n).len() ==> is_decimal_digit(#[trigger] dec_repr(n)[i]),
    decreases n,
{
    if n >= 10 {
        lemma_dec_repr(n / 10);
    }
}

/// Distinct numbers have distinct decimal forms.
pub proof fn lemma_dec_repr_injective(a: nat, b: nat)
    requires
        dec_repr(a) == dec_repr(b),
    ensures
        a == b,
    decreases a,
{
    lemma_dec_repr(a);
    lemma_dec_repr(b);
    if a < 10 && b < 10 {
        assert(dec_repr(a)[0] == hex_alphabet()[a as int]);
        assert(digit_value(hex_alphabet()[a as int]) == a);
        assert(digit_value(hex_alphabet()[b as int]) == b);
    } else if a < 10 {
        lemma_dec_repr(b / 10);
        assert(dec_repr(b).len() == dec_repr(b / 10).len() + 1);
    } else if b < 10 {
        lemma_dec_repr(a / 10);
        assert(dec_repr(a).len() == dec_repr(a / 10).len() + 1);
    } else {
        assert(dec_repr(a).drop_last() =~= dec_repr(a / 10));
        assert(dec_repr(b).drop_last() =~= dec_repr(b / 10));
        lemma_dec_repr_injective(a / 10, b / 10);
        let ca = hex_alphabet()[(a % 10) as int];
        let cb = hex_alphabet()[(b % 10) as int];
        assert(dec_repr(a).last() == ca);
        assert(dec_repr(b).last() == cb);
        assert(digit_value(ca) == a % 10);
        assert(digit_value(cb) == b % 10);
    }
}

/// Formatting a 128-bit number as a `0x` quantity and parsing it back gives the
/// number again: what `parse_hex` accepts and returns on `format_quantity(n)`.
pub proof fn lemma_parse_format_round_trip(n: u128)
    ensures
        is_hex_quantity(quantity_repr(n as nat)),
        quantity_value(quantity_repr(n as nat)) == n,
{
    lemma_hex_repr(n as nat);
    let q = quantity_repr(n as nat);
    assert(strip_0x(q) =~= hex_repr(n as nat));
}

} // verus!

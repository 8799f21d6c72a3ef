use vstd::prelude::*;
use vstd::arithmetic::div_mod::lemma_mod_breakdown;

verus! {

/// Number of bytes in the hardware identity.
pub const ID_BYTES: usize = 8;

/// Width of the rendered identity, in hexadecimal characters.
pub const SERIAL_LEN: usize = 16;

/// ASCII character of a nibble: `0..=9` as `'0'..='9'`, `10..=15` as `'A'..='F'`.
pub open spec fn hex_digit(n: nat) -> u8 {
    if n < 10 {
        (48 + n) as u8
    } else {
        (65 + n - 10) as u8
    }
}

/// Value of an uppercase hexadecimal character, if it is one.
pub open spec fn digit_value(c: u8) -> Option<nat> {
    if 48 <= c && c <= 57 {
        Some((c - 48) as nat)
    } else if 65 <= c && c <= 70 {
        Some((c - 55) as nat)
    } else {
        None
    }
}

pub open spec fn is_hex_char(c: u8) -> bool {
    digit_value(c).is_some()
}

pub open spec fn pow16(n: nat) -> nat
    decreases n,
{
    if n == 0 {
        1
    } else {
        16 * pow16((n - 1) as nat)
    }
}

/// The last `width` hexadecimal digits of `v`, most significant first, with leading zeros.
pub open spec fn hex_of(v: nat, width: nat) -> Seq<u8>
    decreases width,
{
    if width == 0 {
        seq![]
    } else {
        hex_of(v / 16, (width - 1) as nat).push(hex_digit(v % 16))
    }
}

/// The number that a string of hexadecimal characters writes, most significant first.
pub open spec fn hex_value(s: Seq<u8>) -> nat
    decreases s.len(),
{
    if s.len() == 0 {
        0
    } else {
        hex_value(s.drop_last()) * 16 + digit_value(s.last()).unwrap_or(0)
    }
}

/// The number that bytes write in big-endian order.
pub open spec fn be_value(b: Seq<u8>) -> nat
    decreases b.len(),
{
    if b.len() == 0 {
        0
    } else {
        be_value(b.drop_last()) * 256 + b.last() as nat
    }
}

/// The serial number shown to the host for an identity: 16 uppercase hexadecimal digits.
pub open spec fn serial_of(id: u64) -> Seq<u8> {
    hex_of(id as nat, SERIAL_LEN as nat)
}

proof fn lemma_pow16_16()
    ensures
        pow16(16) == 0x1_0000_0000_0000_0000,
{
    reveal_with_fuel(pow16, 17);
}

proof fn lemma_pow16_pos(n: nat)
    ensures
        pow16(n) > 0,
    decreases n,
{
    if n > 0 {
        lemma_pow16_pos((n - 1) as nat);
    }
}

/// The digits of `hex_of` are hexadecimal characters, and there are `width` of them.
pub proof fn lemma_hex_of_chars(v: nat, width: nat)
    ensures
        hex_of(v, width).len() == width,
        forall|i: int| 0 <= i < width ==> #[trigger] is_hex_char(hex_of(v, width)[i]),
    decreases width,
{
    if width > 0 {
        lemma_hex_of_chars(v / 16, (width - 1) as nat);
        let s = hex_of(v, width);
        assert forall|i: int| 0 <= i < width implies #[trigger] is_hex_char(s[i]) by {
            if i < width - 1 {
                assert(s[i] == hex_of(v / 16, (width - 1) as nat)[i]);
            }
        }
    }
}

/// Reading back the digits of `hex_of` gives the number modulo `16^width`.
pub proof fn lemma_hex_value_of(v: nat, width: nat)
    ensures
        hex_value(hex_of(v, width)) == v % pow16(width),
    decreases width,
{
    if width == 0 {
        assert(v % 1 == 0);
    } else {
        let w1 = (width - 1) as nat;
        lemma_hex_value_of(v / 16, w1);
        let s = hex_of(v, width);
        assert(s.drop_last() == hex_of(v / 16, w1));
        assert(digit_value(hex_digit(v % 16)) == Some(v % 16));
        lemma_pow16_pos(w1);
        lemma_mod_breakdown(v as int, 16, pow16(w1) as int);
    }
}

/// The rendered identity decodes back to the identity itself.
pub proof fn lemma_serial_round_trip(id: u64)
    ensures
        serial_of(id).len() == SERIAL_LEN,
        forall|i: int| 0 <= i < SERIAL_LEN ==> #[trigger] is_hex_char(serial_of(id)[i]),
        hex_value(serial_of(id)) == id,
{
    lemma_hex_of_chars(id as nat, 16);
    lemma_hex_value_of(id as nat, 16);
    lemma_pow16_16();
}

/// ASCII character of a nibble.
pub fn nibble_to_ascii(n: u8) -> (c: u8)
    requires
        n < 16,
    ensures
        c == hex_digit(n as nat),
{
    if n < 10 {
        48u8 + n
    } else {
        65u8 + (n - 10)
    }
}

/// Renders an identity as its fixed-width uppercase hexadecimal serial number.
pub fn serial_number(id: u64) -> (s: Vec<u8>)
    ensures
        s@ == serial_of(id),
{
    let mut out: Vec<u8> = Vec::new();
    let mut v: u64 = id;
    let mut k: usize = 0;
    while k < SERIAL_LEN
        invariant
            k <= SERIAL_LEN,
            serial_of(id) == hex_of(v as nat, (SERIAL_LEN - k) as nat) + out@,
        decreases SERIAL_LEN - k,
    {
        let ghost m: nat = (SERIAL_LEN - k) as nat;
        let d = nibble_to_ascii((v % 16) as u8);
        let ghost rest = hex_of((v / 16) as nat, (m - 1) as nat);
        assert(hex_of(v as nat, m) == rest.push(d));
        let ghost prev = out@;
        out.insert(0, d);
        assert(rest.push(d) + prev =~= rest + out@);
        v = v / 16;
        k = k + 1;
    }
    assert(hex_of(v as nat, 0) + out@ =~= out@);
    out
}

/// Decodes a serial number: exactly 16 uppercase hexadecimal characters.
pub fn parse_serial(s: &[u8]) -> (r: Option<u64>)
    ensures
        r.is_some() <==> (s@.len() == SERIAL_LEN && forall|i: int|
            0 <= i < s@.len() ==> #[trigger] is_hex_char(s@[i])),
        r.is_some() ==> r.unwrap() == hex_value(s@),
{
    if s.len() != SERIAL_LEN {
        return None;
    }
    let mut acc: u64 = 0;
    let mut i: usize = 0;
    while i < s.len()
        invariant
            s@.len() == SERIAL_LEN,
            i <= s@.len(),
            acc == hex_value(s@.take(i as int)),
            acc < pow16(i as nat),
            forall|j: int| 0 <= j < i ==> #[trigger] is_hex_char(s@[j]),
        decreases s@.len() - i,
    {
        let c = s[i];
        let d: u64 = if 48u8 <= c && c <= 57u8 {
            (c - 48u8) as u64
        } else if 65u8 <= c && c <= 70u8 {
            (c - 55) as u64
        } else {
            assert(!is_hex_char(s@[i as int]));
            return None;
        };
        assert(s@.take(i + 1).drop_last() =~= s@.take(i as int));
        proof {
            lemma_pow16_16();
            lemma_pow16_le(i as nat + 1, 16);
        }
        assert(acc * 16 + d < pow16(i as nat + 1)) by (nonlinear_arith)
            requires
                acc < pow16(i as nat),
                d < 16,
                pow16(i as nat + 1) == 16 * pow16(i as nat),
        ;
        acc = acc * 16 + d;
        i = i + 1;
    }
    assert(s@.take(16) =~= s@);
    Some(acc)
}

proof fn lemma_pow16_le(a: nat, b: nat)
    requires
        a <= b,
    ensures
        pow16(a) <= pow16(b),
    decreases b,
{
    if a < b {
        lemma_pow16_le(a, (b - 1) as nat);
    }
}

/// The identity that the flash read gave, as a big-endian integer; `None` where the read failed.
pub fn get_unique_id(read: Option<[u8; 8]>) -> (r: Option<u64>)
    ensures
        r.is_some() <==> read.is_some(),
        r.is_some() ==> r.unwrap() == be_value(read.unwrap()@),
{
    match read {
        None => None,
        Some(bytes) => {
            let mut acc: u64 = 0;
            let mut i: usize = 0;
            while i < ID_BYTES
                invariant
                    bytes@.len() == ID_BYTES,
                    i <= ID_BYTES,
                    acc == be_value(bytes@.take(i as int)),
                    acc < pow256(i as nat),
                decreases ID_BYTES - i,
            {
                let b = bytes[i];
                assert(bytes@.take(i + 1).drop_last() =~= bytes@.take(i as int));
                proof {
                    lemma_pow256_8();
                    lemma_pow256_le(i as nat + 1, 8);
                }
                assert(acc * 256 + b < pow256(i as nat + 1)) by (nonlinear_arith)
                    requires
                        acc < pow256(i as nat),
                        b < 256,
                        pow256(i as nat + 1) == 256 * pow256(i as nat),
                ;
                acc = acc * 256 + b as u64;
                i = i + 1;
            }
            assert(bytes@.take(8) =~= bytes@);
            Some(acc)
        },
    }
}

pub open spec fn pow256(n: nat) -> nat
    decreases n,
{
    if n == 0 {
        1
    } else {
        256 * pow256((n - 1) as nat)
    }
}

proof fn lemma_pow256_8()
    ensures
        pow256(8) == 0x1_0000_0000_0000_0000,
{
    reveal_with_fuel(pow256, 9);
}

proof fn lemma_pow256_le(a: nat, b: nat)
    requires
        a <= b,
    ensures
        pow256(a) <= pow256(b),
    decreases b,
{
    if a < b {
        lemma_pow256_le(a, (b - 1) as nat);
    }
}

} // verus!

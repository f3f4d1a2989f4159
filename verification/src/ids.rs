//! 128-bit identifiers: parsing the hyphenated textual form, and reading an
//! identifier out of 16 raw bytes.

use vstd::prelude::*;

verus! {

/// The value of a hexadecimal digit, upper or lower case.
pub open spec fn hex_val(c: char) -> Option<u8> {
    let u = c as u32;
    if 48 <= u <= 57 {
        Some((u - 48) as u8)
    } else if 97 <= u <= 102 {
        Some((u - 87) as u8)
    } else if 65 <= u <= 70 {
        Some((u - 55) as u8)
    } else {
        None
    }
}

pub open spec fn all_hex(s: Seq<char>) -> bool {
    forall|i: int| 0 <= i < s.len() ==> hex_val(s[i]) is Some
}

pub open spec fn pow16(n: nat) -> int
    decreases n,
{
    if n == 0 {
        1
    } else {
        16 * pow16((n - 1) as nat)
    }
}

/// The number spelled by a sequence of hexadecimal digits, most significant
/// first.
pub open spec fn hex_num(s: Seq<char>) -> int
    recommends
        all_hex(s),
    decreases s.len(),
{
    if s.len() == 0 {
        0
    } else {
        hex_num(s.drop_last()) * 16 + (match hex_val(s.last()) {
            Some(v) => v as int,
            None => 0,
        })
    }
}

pub proof fn lemma_hex_num_bound(s: Seq<char>)
    ensures
        0 <= hex_num(s) < pow16(s.len()),
    decreases s.len(),
{
    if s.len() > 0 {
        lemma_hex_num_bound(s.drop_last());
    }
}

pub proof fn lemma_pow16_pos(n: nat)
    ensures
        pow16(n) >= 1,
    decreases n,
{
    if n > 0 {
        lemma_pow16_pos((n - 1) as nat);
    }
}

pub proof fn lemma_pow16_mono(a: nat, b: nat)
    requires
        a <= b,
    ensures
        pow16(a) <= pow16(b),
    decreases b,
{
    if a < b && b > 0 {
        lemma_pow16_mono(a, (b - 1) as nat);
        lemma_pow16_pos((b - 1) as nat);
    }
}

/// Where the k-th hexadecimal digit of a hyphenated identifier stands in
/// the 36-character text.
pub open spec fn uuid_digit_pos(k: int) -> int {
    if k < 8 {
        k
    } else if k < 12 {
        k + 1
    } else if k < 16 {
        k + 2
    } else if k < 20 {
        k + 3
    } else {
        k + 4
    }
}

/// The 32 hexadecimal digits of a hyphenated identifier text.
pub open spec fn uuid_digits(s: Seq<char>) -> Seq<char> {
    Seq::new(32, |k: int| s[uuid_digit_pos(k)])
}

/// The identifier spelled by a 36-character hyphenated form
/// (8-4-4-4-12 hexadecimal digits), or `None` where the text is not of
/// that shape.
pub open spec fn uuid_of(s: Seq<char>) -> Option<u128> {
    if s.len() == 36 && s[8] == '-' && s[13] == '-' && s[18] == '-' && s[23] == '-' && all_hex(
        uuid_digits(s),
    ) {
        Some(hex_num(uuid_digits(s)) as u128)
    } else {
        None
    }
}

/// Parses the hyphenated textual form of a 128-bit identifier.
pub fn parse_uuid(s: &Vec<char>) -> (r: Option<u128>)
    ensures
        r == uuid_of(s@),
{
    if s.len() != 36 {
        return None;
    }
    if s[8] != '-' || s[13] != '-' || s[18] != '-' || s[23] != '-' {
        return None;
    }
    let ghost digits = uuid_digits(s@);
    proof {
        assert(digits.len() == 32);
    }
    let mut acc: u128 = 0;
    let mut k: usize = 0;
    while k < 32
        invariant
            k <= 32,
            s@.len() == 36,
            digits == uuid_digits(s@),
            all_hex(digits.take(k as int)),
            acc == hex_num(digits.take(k as int)),
            acc < pow16(k as nat),
        decreases 32 - k,
    {
        let p: usize = if k < 8 {
            k
        } else if k < 12 {
            k + 1
        } else if k < 16 {
            k + 2
        } else if k < 20 {
            k + 3
        } else {
            k + 4
        };
        proof {
            assert(p == uuid_digit_pos(k as int));
            assert(digits[k as int] == s@[p as int]);
        }
        let c = s[p];
        let u = c as u32;
        let v: u8 = if 48 <= u && u <= 57 {
            (u - 48) as u8
        } else if 97 <= u && u <= 102 {
            (u - 87) as u8
        } else if 65 <= u && u <= 70 {
            (u - 55) as u8
        } else {
            proof {
                assert(hex_val(digits[k as int]) is None);
                assert(!all_hex(uuid_digits(s@)));
            }
            return None;
        };
        proof {
            assert(hex_val(digits[k as int]) == Some(v));
            assert(digits.take(k as int + 1).drop_last() =~= digits.take(k as int));
            assert(digits.take(k as int + 1).last() == digits[k as int]);
            lemma_pow16_mono((k + 1) as nat, 32);
            assert(pow16(32) == 0x100000000000000000000000000000000) by {
                reveal_with_fuel(pow16, 33);
            }
        }
        acc = acc * 16 + (v as u128);
        k += 1;
    }
    proof {
        assert(digits.take(32) =~= digits);
        assert(uuid_of(s@) == Some(hex_num(digits) as u128));
        lemma_hex_num_bound(digits);
        assert(acc == hex_num(digits) as u128);
    }
    Some(acc)
}

pub open spec fn pow256(n: nat) -> int
    decreases n,
{
    if n == 0 {
        1
    } else {
        256 * pow256((n - 1) as nat)
    }
}

/// The number spelled by a byte sequence, most significant byte first.
pub open spec fn be_val(bytes: Seq<u8>) -> int
    decreases bytes.len(),
{
    if bytes.len() == 0 {
        0
    } else {
        be_val(bytes.drop_last()) * 256 + bytes.last()
    }
}

pub proof fn lemma_be_val_bound(bytes: Seq<u8>)
    ensures
        0 <= be_val(bytes) < pow256(bytes.len()),
    decreases bytes.len(),
{
    if bytes.len() > 0 {
        lemma_be_val_bound(bytes.drop_last());
    }
}

pub proof fn lemma_pow256_pos(n: nat)
    ensures
        pow256(n) >= 1,
    decreases n,
{
    if n > 0 {
        lemma_pow256_pos((n - 1) as nat);
    }
}

pub proof fn lemma_pow256_mono(a: nat, b: nat)
    requires
        a <= b,
    ensures
        pow256(a) <= pow256(b),
    decreases b,
{
    if a < b && b > 0 {
        lemma_pow256_mono(a, (b - 1) as nat);
        lemma_pow256_pos((b - 1) as nat);
    }
}

/// Reads a 128-bit identifier out of its 16 raw bytes, most significant
/// first.
pub fn u128_from_be(bytes: &Vec<u8>) -> (r: u128)
    requires
        bytes@.len() == 16,
    ensures
        r == be_val(bytes@),
{
    let mut acc: u128 = 0;
    let mut i: usize = 0;
    while i < 16
        invariant
            i <= 16,
            bytes@.len() == 16,
            acc == be_val(bytes@.take(i as int)),
            acc < pow256(i as nat),
        decreases 16 - i,
    {
        proof {
            assert(bytes@.take(i as int + 1).drop_last() =~= bytes@.take(i as int));
            assert(bytes@.take(i as int + 1).last() == bytes@[i as int]);
            lemma_pow256_mono((i + 1) as nat, 16);
            assert(pow256(16) == 0x100000000000000000000000000000000) by {
                reveal_with_fuel(pow256, 17);
            }
        }
        let b = bytes[i];
        acc = acc * 256 + (b as u128);
        i += 1;
    }
    proof {
        assert(bytes@.take(16) =~= bytes@);
    }
    acc
}

} // verus!

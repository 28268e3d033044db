use vstd::prelude::*;

verus! {

/// The number that the bytes `s` encode in little-endian order.
pub open spec fn le_value(s: Seq<u8>) -> nat
    decreases s.len(),
{
    if s.len() == 0 {
        0
    } else {
        s[0] as nat + 256 * le_value(s.drop_first())
    }
}

/// The signed 64-bit number that eight bytes encode in little-endian
/// two's complement.
pub open spec fn le_i64(s: Seq<u8>) -> int {
    if le_value(s) < 0x8000_0000_0000_0000 {
        le_value(s) as int
    } else {
        le_value(s) - 0x1_0000_0000_0000_0000
    }
}

/// Reads eight bytes as an unsigned little-endian number.
pub fn u64_from_le_bytes(b: &[u8]) -> (r: u64)
    requires
        b@.len() == 8,
    ensures
        r as nat == le_value(b@),
{
    proof {
        reveal_with_fuel(le_value, 9);
    }
    let b0: u64 = b[0] as u64;
    let b1: u64 = b[1] as u64;
    let b2: u64 = b[2] as u64;
    let b3: u64 = b[3] as u64;
    let b4: u64 = b[4] as u64;
    let b5: u64 = b[5] as u64;
    let b6: u64 = b[6] as u64;
    let b7: u64 = b[7] as u64;
    let v6: u64 = b6 + 256 * b7;
    let v5: u64 = b5 + 256 * v6;
    let v4: u64 = b4 + 256 * v5;
    let v3: u64 = b3 + 256 * v4;
    let v2: u64 = b2 + 256 * v3;
    let v1: u64 = b1 + 256 * v2;
    let v0: u64 = b0 + 256 * v1;
    assert(b@.drop_first().drop_first().drop_first().drop_first().drop_first().drop_first().drop_first().drop_first().len() == 0);
    v0
}

/// Reads eight bytes as a signed little-endian two's complement number.
pub fn i64_from_le_bytes(b: &[u8]) -> (r: i64)
    requires
        b@.len() == 8,
    ensures
        r as int == le_i64(b@),
{
    let u: u64 = u64_from_le_bytes(b);
    if u < 0x8000_0000_0000_0000 {
        u as i64
    } else {
        let high: i64 = (u - 0x8000_0000_0000_0000) as i64;
        high - 0x7fff_ffff_ffff_ffff - 1
    }
}

} // verus!

use vstd::prelude::*;

verus! {

/// The unsigned 64-bit value stored little-endian at `off..off + 8`.
pub open spec fn le_u64_at(data: Seq<u8>, off: int) -> int {
    data[off] + 256 * (data[off + 1] + 256 * (data[off + 2] + 256 * (data[off + 3] + 256 * (
    data[off + 4] + 256 * (data[off + 5] + 256 * (data[off + 6] + 256 * data[off + 7]))))))
}

/// The token balance held in a raw ledger token-account image: the
/// little-endian 64-bit value at bytes 64..72. An image too short to hold
/// that field reads as zero.
pub open spec fn balance_in_account_data(data: Seq<u8>) -> int {
    if data.len() < 72 {
        0
    } else {
        le_u64_at(data, 64)
    }
}

/// Reads the token balance out of a raw token-account image, as the
/// external ledger lays it out.
pub fn token_account_balance(data: &Vec<u8>) -> (balance: u64)
    ensures
        balance == balance_in_account_data(data@),
{
    if data.len() < 72 {
        return 0;
    }
    let b0 = data[64] as u64;
    let b1 = data[65] as u64;
    let b2 = data[66] as u64;
    let b3 = data[67] as u64;
    let b4 = data[68] as u64;
    let b5 = data[69] as u64;
    let b6 = data[70] as u64;
    let b7 = data[71] as u64;
    b0 + 256 * (b1 + 256 * (b2 + 256 * (b3 + 256 * (b4 + 256 * (b5 + 256 * (b6 + 256 * b7))))))
}

} // verus!

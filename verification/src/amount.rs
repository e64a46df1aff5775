//! The payload of a deposit: an amount as eight little-endian bytes.

use vstd::prelude::*;
use crate::error::VaultError;

verus! {

/// Number of payload bytes that encode an amount.
pub const AMOUNT_LEN: usize = 8;

/// The number that `bytes` spell in base 256, least significant byte first.
pub open spec fn le_value(bytes: Seq<u8>) -> nat
    decreases bytes.len(),
{
    if bytes.len() == 0 {
        0
    } else {
        bytes[0] as nat + 256 * le_value(bytes.drop_first())
    }
}

/// 256 to the `n`: the first number that `n` bytes cannot spell.
pub open spec fn le_limit(n: nat) -> nat
    decreases n,
{
    if n == 0 {
        1
    } else {
        256 * le_limit((n - 1) as nat)
    }
}

/// `n` bytes spell a number below 256 to the `n`.
pub proof fn lemma_le_value_bound(bytes: Seq<u8>)
    ensures
        le_value(bytes) < le_limit(bytes.len()),
    decreases bytes.len(),
{
    if bytes.len() > 0 {
        lemma_le_value_bound(bytes.drop_first());
    }
}

/// More bytes reach further.
pub proof fn lemma_le_limit_grows(m: nat, n: nat)
    requires
        m <= n,
    ensures
        le_limit(m) <= le_limit(n),
    decreases n,
{
    if m < n {
        lemma_le_limit_grows(m, (n - 1) as nat);
    }
}

/// Eight bytes reach exactly the range of an unsigned 64-bit number.
pub proof fn lemma_le_limit_of_eight()
    ensures
        le_limit(8) == 0x1_0000_0000_0000_0000,
{
    reveal_with_fuel(le_limit, 9);
}

/// What a deposit's payload decodes to.
pub open spec fn parsed_amount(data: Seq<u8>) -> Result<u64, VaultError> {
    if data.len() != 8 {
        Err(VaultError::InvalidInstructionData)
    } else if le_value(data) == 0 {
        Err(VaultError::InvalidAccountData)
    } else {
        Ok(le_value(data) as u64)
    }
}

/// Decodes the amount of a deposit: exactly eight bytes, little-endian, not zero.
pub fn parse_amount(data: &[u8]) -> (r: Result<u64, VaultError>)
    ensures
        r == parsed_amount(data@),
        r matches Ok(amount) ==> amount != 0 && amount == le_value(data@),
{
    if data.len() != AMOUNT_LEN {
        return Err(VaultError::InvalidInstructionData);
    }
    let mut amount: u64 = 0;
    let mut i: usize = AMOUNT_LEN;
    while i > 0
        invariant
            data@.len() == 8,
            i <= 8,
            amount == le_value(data@.subrange(i as int, 8)),
        decreases i,
    {
        i = i - 1;
        proof {
            let tail = data@.subrange(i as int, 8);
            assert(tail.drop_first() =~= data@.subrange(i as int + 1, 8));
            assert(tail[0] == data@[i as int]);
            lemma_le_value_bound(tail);
            lemma_le_limit_grows(tail.len(), 8);
            lemma_le_limit_of_eight();
        }
        amount = amount * 256 + data[i] as u64;
    }
    assert(data@.subrange(0, 8) =~= data@);
    if amount == 0 {
        return Err(VaultError::InvalidAccountData);
    }
    Ok(amount)
}

} // verus!

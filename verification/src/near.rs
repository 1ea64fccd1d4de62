//! What the store takes from the NEAR SDK without asking the chain: the rule
//! for account names and the price of storage.

use vstd::prelude::*;

verus! {

/// A lower-case letter or a digit.
pub open spec fn is_name_char(c: char) -> bool {
    ('a' <= c && c <= 'z') || ('0' <= c && c <= '9')
}

/// One of the characters that join the parts of an account name.
pub open spec fn is_separator(c: char) -> bool {
    c == '-' || c == '_' || c == '.'
}

/// Whether `id` can name an account: 2 to 64 characters, each a lower-case
/// letter, a digit or a separator; no separator first, last, or next to
/// another one.
pub open spec fn valid_account_id(id: Seq<char>) -> bool {
    &&& 2 <= id.len() <= 64
    &&& forall|i: int| 0 <= i < id.len() ==> is_name_char(#[trigger] id[i]) || is_separator(id[i])
    &&& !is_separator(id[0])
    &&& !is_separator(id[id.len() - 1])
    &&& forall|i: int|
        0 <= i < id.len() - 1 ==> !(is_separator(#[trigger] id[i]) && is_separator(id[i + 1]))
}

/// What one byte of storage costs, in yocto.
pub open spec fn byte_price() -> nat {
    10_000_000_000_000_000_000
}

/// What `bytes` bytes of storage cost, in yocto.
pub open spec fn storage_cost_of(bytes: u64) -> nat {
    byte_price() * (bytes as nat)
}

/// Calls `near_sdk::env::is_valid_account_id` on the bytes of `id`. Trusted:
/// the SDK accepts exactly the names that `valid_account_id` describes. It
/// checks the length in bytes, and a name with a character outside ASCII
/// holds a byte that it refuses.
#[verifier::external_body]
pub(crate) fn is_valid_account_id(id: &String) -> (valid: bool)
    ensures
        valid == valid_account_id(id@),
{
    near_sdk::env::is_valid_account_id(id.as_bytes())
}

/// Calls `near_sdk::env::storage_byte_cost`. Trusted: the SDK returns its
/// constant price per byte, 10^19 yocto.
#[verifier::external_body]
pub(crate) fn storage_byte_cost() -> (price: u128)
    ensures
        price == byte_price(),
{
    near_sdk::env::storage_byte_cost()
}

/// The price of a number of bytes fits in 128 bits.
pub proof fn lemma_storage_cost_fits(bytes: u64)
    ensures
        storage_cost_of(bytes) <= u128::MAX,
{
    assert(byte_price() * (bytes as nat) <= byte_price() * 0xffff_ffff_ffff_ffff) by (nonlinear_arith)
        requires
            bytes <= 0xffff_ffff_ffff_ffff,
    ;
}

/// What `bytes` bytes of storage cost.
pub fn storage_cost(bytes: u64) -> (cost: u128)
    ensures
        cost == storage_cost_of(bytes),
{
    let price = storage_byte_cost();
    proof {
        lemma_storage_cost_fits(bytes);
    }
    price * (bytes as u128)
}

} // verus!

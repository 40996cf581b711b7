use vstd::prelude::*;
use crate::address::Address;

verus! {

/// The persisted counter record.
#[derive(Clone, Copy, Debug, PartialEq, Eq)]
pub struct Counter {
    pub count: u64,
}

/// The record logged by each successful increment: the new count and the
/// time of the increment in seconds since the epoch.
#[derive(Clone, Copy, Debug, PartialEq, Eq)]
pub struct CounterEvent {
    pub counter: u64,
    pub timestamp: i64,
}

/// The account that signs (and pays for) a request.
#[derive(Clone, Copy, Debug, PartialEq, Eq)]
pub struct SignerAccount {
    pub key: Address,
    pub is_signer: bool,
    pub lamports: u64,
}

/// The account claimed to hold the counter. `exists` tells whether it has been
/// allocated for the program; `discriminator` is its stored type header and
/// `data` the record after it.
#[derive(Clone, Copy, Debug, PartialEq, Eq)]
pub struct CounterAccount {
    pub key: Address,
    pub exists: bool,
    pub lamports: u64,
    pub discriminator: [u8; 8],
    pub data: Counter,
}

/// Stored size of a counter account: an 8-byte type header and the 8-byte count.
pub const COUNTER_SPACE: u64 = 16;

/// The name hashed for the counter's type header: the ASCII bytes of
/// `account:Counter`.
pub const COUNTER_TYPE_NAME: [u8; 15] = [97, 99, 99, 111, 117, 110, 116, 58, 67, 111, 117, 110, 116, 101, 114];

/// The SHA-256 digest of `data`.
pub uninterp spec fn sha256_of(data: Seq<u8>) -> Seq<u8>;

/// Relies on `solana_program::hash::hash`: the SHA-256 digest of `data`, which
/// depends on `data` alone.
#[verifier::external_body]
fn sha256(data: &[u8]) -> (r: [u8; 32])
    ensures
        r@ == sha256_of(data@),
{
    anchor_lang::solana_program::hash::hash(data).to_bytes()
}

/// The type header of a counter account: the first eight bytes of the digest
/// of its type name.
pub open spec fn counter_discriminator_spec() -> Seq<u8> {
    sha256_of(COUNTER_TYPE_NAME@).subrange(0, 8)
}

/// Computes the counter account's type header.
pub fn counter_discriminator() -> (r: [u8; 8])
    ensures
        r@ == counter_discriminator_spec(),
{
    let name = COUNTER_TYPE_NAME;
    let digest = sha256(&name);
    let mut r: [u8; 8] = [0; 8];
    let mut i: usize = 0;
    while i < 8
        invariant
            i <= 8,
            digest@.len() == 32,
            r@.len() == 8,
            forall|j: int| 0 <= j < i ==> r@[j] == digest@[j],
        decreases 8 - i,
    {
        r[i] = digest[i];
        i = i + 1;
    }
    assert(r@ == digest@.subrange(0, 8));
    r
}

/// The largest account size the host permits, in bytes.
pub const MAX_ACCOUNT_SPACE: u64 = 10_485_760;

/// Lamports that make an account of `space` bytes exempt from rent under the
/// default rent parameters.
pub open spec fn rent_exempt_minimum_spec(space: nat) -> nat {
    (128 + space) * 3480 * 2
}

/// Relies on `Rent::default().minimum_balance`: 128 bytes of overhead plus
/// `space`, times 3480 lamports per byte-year, times the exemption threshold of
/// two years (exact in `f64` at these sizes).
#[verifier::external_body]
fn minimum_balance(space: u64) -> (r: u64)
    requires
        space <= MAX_ACCOUNT_SPACE,
    ensures
        r == rent_exempt_minimum_spec(space as nat),
{
    anchor_lang::solana_program::rent::Rent::default().minimum_balance(space as usize)
}

/// Lamports the payer must add to an account holding `held` so that a
/// counter account there is exempt from rent.
pub open spec fn funding_needed_spec(held: u64) -> nat {
    let need = rent_exempt_minimum_spec(COUNTER_SPACE as nat);
    if held >= need {
        0
    } else {
        (need - held) as nat
    }
}

/// Computes the lamports the payer must add to an account holding `held`.
pub fn funding_needed(held: u64) -> (r: u64)
    ensures
        r == funding_needed_spec(held),
{
    let need = minimum_balance(COUNTER_SPACE);
    if held >= need {
        0
    } else {
        need - held
    }
}

} // verus!

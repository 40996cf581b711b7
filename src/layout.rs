use vstd::prelude::*;
use vstd::bytes::{
    lemma_auto_spec_u64_to_from_le_bytes, spec_u64_from_le_bytes, spec_u64_to_le_bytes,
    u64_from_le_bytes, u64_to_le_bytes,
};
use vstd::slice::slice_subrange;
use crate::instructions::CounterError;
use crate::address::Address;
use crate::state::{Counter, CounterAccount};

verus! {

/// The stored bytes of a counter account: its 8-byte type header followed by
/// the count in little-endian order.
pub open spec fn counter_bytes(discriminator: Seq<u8>, count: u64) -> Seq<u8> {
    discriminator + spec_u64_to_le_bytes(count)
}

/// Writes the stored bytes of `account`.
pub fn encode_counter(account: &CounterAccount) -> (r: Vec<u8>)
    ensures
        r@ == counter_bytes(account.discriminator@, account.data.count),
        r@.len() == 16,
{
    proof {
        lemma_auto_spec_u64_to_from_le_bytes();
    }
    let mut r: Vec<u8> = Vec::new();
    let mut i: usize = 0;
    while i < 8
        invariant
            i <= 8,
            r@ == account.discriminator@.subrange(0, i as int),
        decreases 8 - i,
    {
        r.push(account.discriminator[i]);
        i = i + 1;
    }
    let le = u64_to_le_bytes(account.data.count);
    let ghost head = r@;
    let mut j: usize = 0;
    while j < 8
        invariant
            j <= 8,
            le@.len() == 8,
            r@ == head + le@.subrange(0, j as int),
        decreases 8 - j,
    {
        r.push(le[j]);
        j = j + 1;
    }
    assert(le@.subrange(0, 8) == le@);
    assert(head == account.discriminator@);
    r
}

/// The type header and record that stored bytes hold; `None` for fewer than 16
/// bytes. Bytes past the first 16 are ignored.
pub open spec fn decode_counter_spec(data: Seq<u8>) -> Option<(Seq<u8>, u64)> {
    if data.len() < 16 {
        None
    } else {
        Some((data.subrange(0, 8), spec_u64_from_le_bytes(data.subrange(8, 16))))
    }
}

/// Reads the type header and record from the stored bytes of a counter
/// account; too few bytes cannot hold a counter.
pub fn decode_counter(data: &[u8]) -> (r: Result<([u8; 8], Counter), CounterError>)
    ensures
        r is Err <==> decode_counter_spec(data@) is None,
        r matches Err(e) ==> e == CounterError::TypeMismatch,
        r matches Ok((d, c)) ==> decode_counter_spec(data@) == Some((d@, c.count)),
{
    if data.len() < 16 {
        return Err(CounterError::TypeMismatch);
    }
    let mut d: [u8; 8] = [0; 8];
    let mut i: usize = 0;
    while i < 8
        invariant
            i <= 8,
            data@.len() >= 16,
            d@.len() == 8,
            forall|j: int| 0 <= j < i ==> d@[j] == data@[j],
        decreases 8 - i,
    {
        d[i] = data[i];
        i = i + 1;
    }
    assert(d@ == data@.subrange(0, 8));
    let count = u64_from_le_bytes(slice_subrange(data, 8, 16));
    Ok((d, Counter { count }))
}

/// The type header and count that the handlers see for an account, from
/// whether this program owns it and its stored bytes. An account this program
/// does not own does not exist yet; an owned record too short to hold a
/// counter gets an all-zero type header.
pub open spec fn load_counter_spec(owned: bool, data: Seq<u8>) -> (Seq<u8>, u64) {
    match decode_counter_spec(data) {
        Some((d, c)) if owned => (d, c),
        _ => (seq![0u8, 0, 0, 0, 0, 0, 0, 0], 0),
    }
}

/// Builds the counter account the handlers see from what the host holds.
pub fn load_counter(key: Address, owned: bool, lamports: u64, data: &[u8]) -> (r: CounterAccount)
    ensures
        r.key == key,
        r.exists == owned,
        r.lamports == lamports,
        (r.discriminator@, r.data.count) == load_counter_spec(owned, data@),
{
    let empty = CounterAccount {
        key,
        exists: owned,
        lamports,
        discriminator: [0; 8],
        data: Counter { count: 0 },
    };
    assert(empty.discriminator@ =~= seq![0u8, 0, 0, 0, 0, 0, 0, 0]);
    if !owned {
        return empty;
    }
    match decode_counter(data) {
        Ok((discriminator, data)) => CounterAccount { key, exists: true, lamports, discriminator, data },
        Err(_) => empty,
    }
}

/// Reading back the bytes written for an account gives its type header and
/// count.
pub proof fn lemma_decode_encode(discriminator: Seq<u8>, count: u64)
    requires
        discriminator.len() == 8,
    ensures
        decode_counter_spec(counter_bytes(discriminator, count)) == Some((discriminator, count)),
{
    lemma_auto_spec_u64_to_from_le_bytes();
    let b = counter_bytes(discriminator, count);
    assert(b.subrange(0, 8) == discriminator);
    assert(b.subrange(8, 16) == spec_u64_to_le_bytes(count));
}

} // verus!

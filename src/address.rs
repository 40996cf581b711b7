use vstd::prelude::*;

verus! {

/// A 32-byte account address or program identity.
#[derive(Clone, Copy, Debug, PartialEq, Eq)]
pub struct Address {
    pub bytes: [u8; 32],
}

impl Address {
    pub open spec fn view(self) -> Seq<u8> {
        self.bytes@
    }
}

/// The program's own identity, fixed when it is deployed.
pub const PROGRAM_ID: [u8; 32] = [
    158, 243, 230, 31, 146, 14, 225, 250, 252, 245, 112, 77, 235, 110, 235, 246, 251, 173, 203,
    123, 124, 145, 65, 86, 95, 119, 52, 133, 111, 171, 143, 203,
];

/// The program's own identity as an address.
pub fn program_id() -> (r: Address)
    ensures
        r@ == PROGRAM_ID@,
{
    Address { bytes: PROGRAM_ID }
}

/// The seed under which the counter account's address is derived: the ASCII
/// bytes of `counter`.
pub const COUNTER_SEED: [u8; 7] = [99, 111, 117, 110, 116, 101, 114];

/// The address and bump that the derivation finds for `seed` under `program`,
/// or `None` when no bump qualifies.
pub uninterp spec fn program_address_of(seed: Seq<u8>, program: Seq<u8>) -> Option<(Seq<u8>, u8)>;

pub open spec fn found_view(r: Option<([u8; 32], u8)>) -> Option<(Seq<u8>, u8)> {
    match r {
        Some((a, b)) => Some((a@, b)),
        None => None,
    }
}

/// Relies on `Pubkey::try_find_program_address` with the single seed `seed`:
/// the off-curve address and bump it finds depend on the seed and the program
/// identity alone, and it returns `None` where no bump qualifies.
#[verifier::external_body]
fn try_find_program_address(seed: &[u8], program_id: &Address) -> (r: Option<([u8; 32], u8)>)
    ensures
        found_view(r) == program_address_of(seed@, program_id@),
{
    let program = anchor_lang::solana_program::pubkey::Pubkey::new_from_array(program_id.bytes);
    anchor_lang::solana_program::pubkey::Pubkey::try_find_program_address(&[seed], &program)
        .map(|(a, b)| (a.to_bytes(), b))
}

/// Byte-wise equality of two slices.
pub fn bytes_equal(a: &[u8], b: &[u8]) -> (r: bool)
    ensures
        r == (a@ == b@),
{
    if a.len() != b.len() {
        return false;
    }
    let mut i: usize = 0;
    while i < a.len()
        invariant
            a@.len() == b@.len(),
            i <= a@.len(),
            a@.subrange(0, i as int) == b@.subrange(0, i as int),
        decreases a@.len() - i,
    {
        if a[i] != b[i] {
            assert(a@[i as int] != b@[i as int]);
            return false;
        }
        assert(a@.subrange(0, i + 1) == a@.subrange(0, i as int).push(a@[i as int]));
        assert(b@.subrange(0, i + 1) == b@.subrange(0, i as int).push(b@[i as int]));
        i = i + 1;
    }
    assert(a@ == a@.subrange(0, a@.len() as int));
    assert(b@ == b@.subrange(0, b@.len() as int));
    true
}

/// The counter account's address and bump under `program`.
pub open spec fn counter_address_spec(program: Seq<u8>) -> Option<(Seq<u8>, u8)> {
    program_address_of(COUNTER_SEED@, program)
}

/// Derives the counter account's address and bump for `program_id`.
pub fn counter_address(program_id: &Address) -> (r: Option<([u8; 32], u8)>)
    ensures
        found_view(r) == counter_address_spec(program_id@),
{
    let seed = COUNTER_SEED;
    try_find_program_address(&seed, program_id)
}

/// Deriving the counter address twice for the same program identity gives the
/// same address and bump.
pub proof fn lemma_counter_address_deterministic(p: Address, q: Address)
    requires
        p@ == q@,
    ensures
        counter_address_spec(p@) == counter_address_spec(q@),
{
}

} // verus!

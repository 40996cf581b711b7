use vstd::prelude::*;
use anchor_lang::solana_program::program_error::ProgramError;
use crate::address::{Address, bytes_equal, counter_address, counter_address_spec};
use crate::state::{
    Counter, CounterAccount, CounterEvent, SignerAccount, counter_discriminator,
    counter_discriminator_spec, funding_needed, funding_needed_spec,
};

verus! {

#[verifier::external_type_specification]
#[verifier::external_body]
pub struct ExProgramError(ProgramError);

/// Why a request was refused. A refused request changes nothing.
#[derive(Clone, Copy, Debug, PartialEq, Eq)]
pub enum CounterError {
    /// The signer did not sign the request.
    Unauthorized,
    /// The counter account is not at its derived address, or does not exist.
    InvalidAccountAddress,
    /// The signer cannot pay for the counter account's storage.
    AllocationFailed,
    /// The account's type header is not the counter's.
    TypeMismatch,
    /// The count is already at its largest value.
    ArithmeticOverflow,
    /// No bump yields a derived address.
    DerivationExhausted,
    /// The host clock could not be read.
    ClockUnavailable,
}

/// A request: the program's own identity and the accounts it names.
#[derive(Debug, PartialEq, Eq)]
pub struct Context<T> {
    pub program_id: Address,
    pub accounts: T,
}

/// Accounts of `initialize`.
#[derive(Clone, Copy, Debug, PartialEq, Eq)]
pub struct Initialize {
    pub signer: SignerAccount,
    pub counter: CounterAccount,
}

/// Accounts of `increment`.
#[derive(Clone, Copy, Debug, PartialEq, Eq)]
pub struct Increment {
    pub signer: SignerAccount,
    pub counter: CounterAccount,
}

/// Whether `key` is the counter address derived for `program`; `None` when
/// the derivation finds no address.
pub open spec fn address_matches(program: Address, key: Address) -> Option<bool> {
    match counter_address_spec(program@) {
        Some((a, _)) => Some(a == key@),
        None => None,
    }
}

/// Checks the counter account's address against the derived one.
fn check_address(program_id: &Address, key: &Address) -> (r: Result<(), CounterError>)
    ensures
        r == (match address_matches(*program_id, *key) {
            None => Err(CounterError::DerivationExhausted),
            Some(false) => Err(CounterError::InvalidAccountAddress),
            Some(true) => Ok(()),
        }),
{
    match counter_address(program_id) {
        None => Err(CounterError::DerivationExhausted),
        Some((a, _bump)) => {
            if bytes_equal(&a, &key.bytes) {
                Ok(())
            } else {
                Err(CounterError::InvalidAccountAddress)
            }
        },
    }
}

/// The error `initialize` gives on `ctx`, if any.
pub open spec fn initialize_error(ctx: Context<Initialize>) -> Option<CounterError> {
    let a = ctx.accounts;
    if !a.signer.is_signer {
        Some(CounterError::Unauthorized)
    } else {
        match address_matches(ctx.program_id, a.counter.key) {
            None => Some(CounterError::DerivationExhausted),
            Some(false) => Some(CounterError::InvalidAccountAddress),
            Some(true) => if a.counter.exists {
                if a.counter.discriminator@ != counter_discriminator_spec() {
                    Some(CounterError::TypeMismatch)
                } else {
                    None
                }
            } else if a.signer.lamports < funding_needed_spec(a.counter.lamports) {
                Some(CounterError::AllocationFailed)
            } else {
                None
            },
        }
    }
}

/// How a successful `initialize` turns the accounts `pre` into `post`: the
/// counter exists, carries the counter's type header and holds zero; where it
/// had to be created, the signer paid what it lacked for rent exemption.
pub open spec fn initialized(pre: Initialize, post: Initialize) -> bool {
    let need = funding_needed_spec(pre.counter.lamports);
    &&& post.counter.key == pre.counter.key
    &&& post.counter.exists
    &&& post.counter.discriminator@ == counter_discriminator_spec()
    &&& post.counter.data.count == 0
    &&& post.signer.key == pre.signer.key
    &&& post.signer.is_signer == pre.signer.is_signer
    &&& if pre.counter.exists {
        &&& post.counter.lamports == pre.counter.lamports
        &&& post.signer.lamports == pre.signer.lamports
    } else {
        &&& post.counter.lamports == pre.counter.lamports + need
        &&& post.signer.lamports == pre.signer.lamports - need
    }
}

/// Creates the counter account if it does not exist yet, then sets the count
/// to zero. An existing counter is reset to zero as well.
pub fn initialize(ctx: &mut Context<Initialize>) -> (r: Result<(), CounterError>)
    ensures
        r is Err <==> initialize_error(*old(ctx)) is Some,
        r matches Err(e) ==> initialize_error(*old(ctx)) == Some(e) && *final(ctx) == *old(ctx),
        r is Ok ==> final(ctx).program_id == old(ctx).program_id
            && initialized(old(ctx).accounts, final(ctx).accounts),
{
    if !ctx.accounts.signer.is_signer {
        return Err(CounterError::Unauthorized);
    }
    let program_id = ctx.program_id;
    let key = ctx.accounts.counter.key;
    match check_address(&program_id, &key) {
        Err(e) => {
            return Err(e);
        },
        Ok(()) => {},
    }
    let disc = counter_discriminator();
    if ctx.accounts.counter.exists {
        if !bytes_equal(&ctx.accounts.counter.discriminator, &disc) {
            return Err(CounterError::TypeMismatch);
        }
    } else {
        let need = funding_needed(ctx.accounts.counter.lamports);
        if ctx.accounts.signer.lamports < need {
            return Err(CounterError::AllocationFailed);
        }
        ctx.accounts.signer.lamports = ctx.accounts.signer.lamports - need;
        ctx.accounts.counter.lamports = ctx.accounts.counter.lamports + need;
        ctx.accounts.counter.exists = true;
        ctx.accounts.counter.discriminator = disc;
    }
    ctx.accounts.counter.data = Counter { count: 0 };
    Ok(())
}

/// The error `increment` gives on `ctx`, if any.
pub open spec fn increment_error(ctx: Context<Increment>) -> Option<CounterError> {
    let a = ctx.accounts;
    if !a.signer.is_signer {
        Some(CounterError::Unauthorized)
    } else {
        match address_matches(ctx.program_id, a.counter.key) {
            None => Some(CounterError::DerivationExhausted),
            Some(false) => Some(CounterError::InvalidAccountAddress),
            Some(true) => if !a.counter.exists {
                Some(CounterError::InvalidAccountAddress)
            } else if a.counter.discriminator@ != counter_discriminator_spec() {
                Some(CounterError::TypeMismatch)
            } else if a.counter.data.count == u64::MAX {
                Some(CounterError::ArithmeticOverflow)
            } else {
                None
            },
        }
    }
}

/// How a successful `increment` changes the counter account: its count grows
/// by one and nothing else changes.
pub open spec fn counter_incremented(pre: CounterAccount, post: CounterAccount) -> bool {
    &&& pre.data.count < u64::MAX
    &&& post == (CounterAccount { data: Counter { count: (pre.data.count + 1) as u64 }, ..pre })
}

/// Checks everything `increment` requires before it changes anything.
fn check_increment(ctx: &Context<Increment>) -> (r: Result<(), CounterError>)
    ensures
        r is Err <==> increment_error(*ctx) is Some,
        r matches Err(e) ==> increment_error(*ctx) == Some(e),
{
    if !ctx.accounts.signer.is_signer {
        return Err(CounterError::Unauthorized);
    }
    match check_address(&ctx.program_id, &ctx.accounts.counter.key) {
        Err(e) => {
            return Err(e);
        },
        Ok(()) => {},
    }
    if !ctx.accounts.counter.exists {
        return Err(CounterError::InvalidAccountAddress);
    }
    let disc = counter_discriminator();
    if !bytes_equal(&ctx.accounts.counter.discriminator, &disc) {
        return Err(CounterError::TypeMismatch);
    }
    if ctx.accounts.counter.data.count == u64::MAX {
        return Err(CounterError::ArithmeticOverflow);
    }
    Ok(())
}

/// Adds one to the counter at time `now` and appends the event that reports
/// the new count to `events`.
pub fn increment_at(ctx: &mut Context<Increment>, events: &mut Vec<CounterEvent>, now: i64) -> (r:
    Result<(), CounterError>)
    ensures
        r is Err <==> increment_error(*old(ctx)) is Some,
        r matches Err(e) ==> increment_error(*old(ctx)) == Some(e) && *final(ctx) == *old(ctx)
            && final(events)@ == old(events)@,
        r is Ok ==> final(ctx).program_id == old(ctx).program_id && final(ctx).accounts.signer
            == old(ctx).accounts.signer && counter_incremented(
            old(ctx).accounts.counter,
            final(ctx).accounts.counter,
        ) && final(events)@ == old(events)@.push(
            CounterEvent { counter: final(ctx).accounts.counter.data.count, timestamp: now },
        ),
{
    match check_increment(ctx) {
        Err(e) => {
            return Err(e);
        },
        Ok(()) => {},
    }
    let count = ctx.accounts.counter.data.count + 1;
    ctx.accounts.counter.data = Counter { count };
    events.push(CounterEvent { counter: count, timestamp: now });
    Ok(())
}

/// Relies on `Clock::get`: the host's clock sysvar, read for its Unix
/// timestamp; whether it can be read and what it says depend on the host.
#[verifier::external_body]
fn unix_timestamp() -> (r: Result<i64, ProgramError>) {
    <anchor_lang::solana_program::clock::Clock as anchor_lang::solana_program::sysvar::Sysvar>::get()
        .map(|c| c.unix_timestamp)
}

/// Adds one to the counter and appends an event with the new count and the
/// host's current time to `events`. Every check of `increment_at` comes first;
/// a clock that cannot be read refuses the request.
pub fn increment(ctx: &mut Context<Increment>, events: &mut Vec<CounterEvent>) -> (r: Result<
    (),
    CounterError,
>)
    ensures
        increment_error(*old(ctx)) matches Some(e) ==> r == Err::<(), CounterError>(e),
        r is Err ==> *final(ctx) == *old(ctx) && final(events)@ == old(events)@,
        r matches Err(e) ==> increment_error(*old(ctx)) == Some(e) || (increment_error(*old(ctx))
            is None && e == CounterError::ClockUnavailable),
        r is Ok ==> final(ctx).program_id == old(ctx).program_id && final(ctx).accounts.signer
            == old(ctx).accounts.signer && counter_incremented(
            old(ctx).accounts.counter,
            final(ctx).accounts.counter,
        ) && final(events)@.len() == old(events)@.len() + 1 && final(events)@.drop_last()
            == old(events)@ && final(events)@.last().counter
            == final(ctx).accounts.counter.data.count,
{
    match check_increment(ctx) {
        Err(e) => {
            return Err(e);
        },
        Ok(()) => {},
    }
    match unix_timestamp() {
        Err(_) => Err(CounterError::ClockUnavailable),
        Ok(now) => {
            let r = increment_at(ctx, events, now);
            assert(r is Ok ==> events@.drop_last() =~= old(events)@);
            r
        },
    }
}

} // verus!

use crate::model::{NumberOrString, ProgressToken, RequestId};
use vstd::prelude::*;

verus! {

/// Mints request identifiers; callable from any number of concurrent callers.
pub trait RequestIdProvider: Send + Sync + 'static {
    fn next_request_id(&self) -> (r: RequestId);
}

/// Mints progress tokens; callable from any number of concurrent callers.
pub trait ProgressTokenProvider: Send + Sync + 'static {
    fn next_progress_token(&self) -> (r: ProgressToken);
}

/// The number of distinct values of the 32-bit counter.
pub open spec fn counter_period() -> nat {
    0x1_0000_0000
}

/// The value that a 32-bit counter which started at `start` hands out on its
/// `k`-th increment: each increment reads one place of the counter's single
/// modification order and adds one, wrapping at the end of the range.
pub open spec fn drawn(start: u32, k: nat) -> u32 {
    ((start as nat + k) % counter_period()) as u32
}

/// The request identifier minted from counter value `count`.
pub open spec fn spec_request_id(count: u32) -> RequestId {
    NumberOrString::Number(count)
}

/// The progress token minted from counter value `count`.
pub open spec fn spec_progress_token(count: u32) -> ProgressToken {
    ProgressToken(NumberOrString::Number(count))
}

/// Tags a drawn counter value as a request identifier.
pub fn request_id_from_count(count: u32) -> (r: RequestId)
    ensures
        r == spec_request_id(count),
{
    NumberOrString::Number(count)
}

/// Tags a drawn counter value as a progress token.
pub fn progress_token_from_count(count: u32) -> (r: ProgressToken)
    ensures
        r == spec_progress_token(count),
{
    ProgressToken(NumberOrString::Number(count))
}

/// A counter that hands out distinct values to concurrent callers: of any
/// number of increments below the size of its range, however they interleave,
/// no two read the same value.
pub proof fn lemma_draws_distinct(start: u32, i: nat, j: nat)
    requires
        i < j,
        j < counter_period(),
    ensures
        drawn(start, i) != drawn(start, j),
{
    let p = counter_period();
    let a = start as nat + i;
    let b = start as nat + j;
    assert(a % p != b % p) by {
        if a < p {
            vstd::arithmetic::div_mod::lemma_small_mod(a, p);
        } else {
            vstd::arithmetic::div_mod::lemma_mod_add_multiples_vanish(a - p, p as int);
            vstd::arithmetic::div_mod::lemma_small_mod((a - p) as nat, p);
        }
        if b < p {
            vstd::arithmetic::div_mod::lemma_small_mod(b, p);
        } else {
            vstd::arithmetic::div_mod::lemma_mod_add_multiples_vanish(b - p, p as int);
            vstd::arithmetic::div_mod::lemma_small_mod((b - p) as nat, p);
        }
    }
}

/// In the counter model `drawn`, identifiers minted from distinct draws
/// differ: of fewer draws than the size of the counter's range, no two give
/// equal request identifiers and no two give equal progress tokens. This
/// speaks of the model only; the values that `AtomicU32::fetch_add` returns
/// are not visible to the provider's contracts.
pub proof fn lemma_minted_ids_distinct(start: u32, i: nat, j: nat)
    requires
        i < j,
        j < counter_period(),
    ensures
        spec_request_id(drawn(start, i)) != spec_request_id(drawn(start, j)),
        spec_progress_token(drawn(start, i)) != spec_progress_token(drawn(start, j)),
{
    lemma_draws_distinct(start, i, j);
}

/// One atomic counter, starting at zero, shared by both identifier kinds.
#[derive(Debug, Default)]
pub struct AtomicU32Provider {
    id: std::sync::atomic::AtomicU32,
}

impl AtomicU32Provider {
    /// A provider whose counter starts at zero.
    pub fn new() -> (r: Self) {
        AtomicU32Provider { id: std::sync::atomic::AtomicU32::new(0) }
    }
}

impl RequestIdProvider for AtomicU32Provider {
    fn next_request_id(&self) -> (r: RequestId)
        ensures
            exists|n: u32| r == spec_request_id(n),
    {
        let count = self.id.fetch_add(1, std::sync::atomic::Ordering::SeqCst);
        request_id_from_count(count)
    }
}

impl ProgressTokenProvider for AtomicU32Provider {
    fn next_progress_token(&self) -> (r: ProgressToken)
        ensures
            exists|n: u32| r == spec_progress_token(n),
    {
        let count = self.id.fetch_add(1, std::sync::atomic::Ordering::SeqCst);
        progress_token_from_count(count)
    }
}

/// Another name for the provider when it mints request identifiers.
pub type AtomicU32RequestIdProvider = AtomicU32Provider;

/// Another name for the provider when it mints progress tokens.
pub type AtomicU32ProgressTokenProvider = AtomicU32Provider;

} // verus!

//! The beacon's one operation.

use crate::event::ExecutionObserved;
use crate::identity::EmitExecution;
use crate::sink::EmissionSink;
use vstd::prelude::*;

verus! {

/// Why a call emitted nothing.
#[derive(Clone, Copy, Debug, PartialEq, Eq)]
pub enum BeaconError {
    /// The host did not authenticate the caller.
    Unauthenticated,
    /// The sink did not take the record.
    EmissionFailure,
}

/// The record that a call with these accounts and this quote stands for.
pub open spec fn observed(ctx: EmitExecution, quote_id: [u8; 32]) -> ExecutionObserved {
    ExecutionObserved { payer: ctx.payer.public_key, quote_id }
}

/// What a call returns, from whether the caller is authenticated and whether
/// the sink takes the record. Authentication is judged first.
pub open spec fn outcome(authenticated: bool, accepted: bool) -> Result<(), BeaconError> {
    if !authenticated {
        Err(BeaconError::Unauthenticated)
    } else if !accepted {
        Err(BeaconError::EmissionFailure)
    } else {
        Ok(())
    }
}

/// All that one call does: `result` and the sink `after`, given the sink
/// `before`, the accounts and the quote.
///
/// The call succeeds exactly when the caller is authenticated and the sink
/// takes the record; then the sink has gained that one record, and otherwise
/// none. An unauthenticated call leaves the sink as it was.
pub open spec fn emits<S: EmissionSink>(
    before: S,
    ctx: EmitExecution,
    quote_id: [u8; 32],
    after: S,
    result: Result<(), BeaconError>,
) -> bool {
    let record = observed(ctx, quote_id);
    &&& result == outcome(ctx.payer.is_signer, before.accepts(record))
    &&& result is Ok ==> after.emitted() == before.emitted().push(record)
    &&& result is Err ==> after.emitted() == before.emitted()
    &&& result == Err::<(), BeaconError>(BeaconError::Unauthenticated) ==> after == before
    &&& forall|other: ExecutionObserved| #[trigger]
        after.accepts(other) == before.accepts(other)
}

/// Attests that the quote `quote_id` was executed: checks that the host has
/// authenticated the payer, then hands one record to `sink`.
pub fn emit_execution<S: EmissionSink>(
    ctx: &EmitExecution,
    quote_id: [u8; 32],
    sink: &mut S,
) -> (result: Result<(), BeaconError>)
    ensures
        emits(*old(sink), *ctx, quote_id, *final(sink), result),
{
    if !ctx.payer.is_signer {
        return Err(BeaconError::Unauthenticated);
    }
    let record = ExecutionObserved { payer: ctx.payer.public_key, quote_id };
    match sink.emit(record) {
        Ok(()) => Ok(()),
        Err(_) => Err(BeaconError::EmissionFailure),
    }
}

/// An authenticated call into a sink that takes its record succeeds, and the
/// record the sink gains carries the caller's public key and the quote as given.
pub proof fn lemma_authenticated_call_emits<S: EmissionSink>(
    before: S,
    ctx: EmitExecution,
    quote_id: [u8; 32],
    after: S,
    result: Result<(), BeaconError>,
)
    requires
        emits(before, ctx, quote_id, after, result),
        ctx.payer.is_signer,
        before.accepts(observed(ctx, quote_id)),
    ensures
        result is Ok,
        after.emitted().len() == before.emitted().len() + 1,
        after.emitted().drop_last() == before.emitted(),
        after.emitted().last().payer == ctx.payer.public_key,
        after.emitted().last().quote_id == quote_id,
{
    assert(after.emitted().drop_last() =~= before.emitted());
}

/// An unauthenticated call fails with `Unauthenticated`, whatever the sink
/// would have taken, and leaves the sink as it was: nothing is emitted.
pub proof fn lemma_unauthenticated_call_emits_nothing<S: EmissionSink>(
    before: S,
    ctx: EmitExecution,
    quote_id: [u8; 32],
    after: S,
    result: Result<(), BeaconError>,
)
    requires
        emits(before, ctx, quote_id, after, result),
        !ctx.payer.is_signer,
    ensures
        result == Err::<(), BeaconError>(BeaconError::Unauthenticated),
        after == before,
        after.emitted() == before.emitted(),
{
}

/// When the sink does not take the record of an authenticated call, the call
/// fails with `EmissionFailure` and the sink has gained nothing.
pub proof fn lemma_sink_failure_is_reported<S: EmissionSink>(
    before: S,
    ctx: EmitExecution,
    quote_id: [u8; 32],
    after: S,
    result: Result<(), BeaconError>,
)
    requires
        emits(before, ctx, quote_id, after, result),
        ctx.payer.is_signer,
        !before.accepts(observed(ctx, quote_id)),
    ensures
        result == Err::<(), BeaconError>(BeaconError::EmissionFailure),
        after.emitted() == before.emitted(),
{
}

/// Two authenticated signers with different keys attest the same quote, one
/// call after the other, into a sink that takes both records. Both calls
/// succeed, and the sink gains two records that differ in their payer:
/// nothing is deduplicated.
pub proof fn lemma_signers_emit_independently<S: EmissionSink>(
    start: S,
    first: EmitExecution,
    second: EmitExecution,
    quote_id: [u8; 32],
    between: S,
    first_result: Result<(), BeaconError>,
    end: S,
    second_result: Result<(), BeaconError>,
)
    requires
        emits(start, first, quote_id, between, first_result),
        emits(between, second, quote_id, end, second_result),
        first.payer.is_signer,
        second.payer.is_signer,
        first.payer.public_key != second.payer.public_key,
        start.accepts(observed(first, quote_id)),
        start.accepts(observed(second, quote_id)),
    ensures
        first_result is Ok,
        second_result is Ok,
        end.emitted() == start.emitted().push(observed(first, quote_id)).push(
            observed(second, quote_id),
        ),
        observed(first, quote_id) != observed(second, quote_id),
        observed(first, quote_id).payer != observed(second, quote_id).payer,
        observed(first, quote_id).quote_id == observed(second, quote_id).quote_id,
{
}

/// One authenticated signer attests the same quote twice into a sink that
/// takes the record. Both calls succeed and the sink gains exactly two
/// records, equal to each other: the call is not idempotent.
pub proof fn lemma_repeated_call_emits_again<S: EmissionSink>(
    start: S,
    ctx: EmitExecution,
    quote_id: [u8; 32],
    between: S,
    first_result: Result<(), BeaconError>,
    end: S,
    second_result: Result<(), BeaconError>,
)
    requires
        emits(start, ctx, quote_id, between, first_result),
        emits(between, ctx, quote_id, end, second_result),
        ctx.payer.is_signer,
        start.accepts(observed(ctx, quote_id)),
    ensures
        first_result is Ok,
        second_result is Ok,
        end.emitted() == start.emitted().push(observed(ctx, quote_id)).push(
            observed(ctx, quote_id),
        ),
        end.emitted().len() == start.emitted().len() + 2,
{
}

} // verus!

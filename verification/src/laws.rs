//! Laws of the ledger: what holds of every registry that was created by
//! `init` and changed by calls only.

use vstd::prelude::*;
use concordium_std::ParseError;
use crate::access::Role;
use crate::error::ContractError;
use crate::identity::Address;
use crate::ledger::{Milestone, Phase, Registry, Timestamp};
use crate::lifecycle::genesis;
use crate::messages::{AttestedEvent, ConfirmParam, InitParams, ReleaseRequestedEvent, RequestParam};
use crate::trace::{clock_ordered, Call};
use crate::transition::{confirm_refusal, release_refusal, Staged};

verus! {

/// A new registry is consistent, and none of its milestones is requested.
pub proof fn law_genesis_is_blank(p: InitParams)
    ensures
        genesis(p).consistent(),
        genesis(p).chronological(),
        genesis(p).milestones.len() == p.amounts@.len(),
        forall|i: int|
            0 <= i < p.amounts@.len() ==> (#[trigger] genesis(p).milestones[i]).phase()
                == Phase::NotRequested && genesis(p).milestones[i].amount_minor == p.amounts@[i],
{
}

/// Staging and committing make one call: the caller sees the error of the
/// staging step, else `LogError` if the log refused the event, and the
/// registry is written exactly when the caller sees no error.  A staged
/// transition is never dropped for its milestone id.
pub proof fn law_release_is_atomic(
    reg: Registry,
    sender: Address,
    now: Timestamp,
    param: Result<RequestParam, ParseError>,
    appended: bool,
    staged: Staged<ReleaseRequestedEvent>,
)
    requires
        release_refusal(reg, sender, param) is None,
        staged.milestone_id == param->Ok_0.milestone_id,
        staged.milestone == reg.milestones[staged.milestone_id as int].request(
            param->Ok_0.work_hash,
            now,
        ),
    ensures
        staged.commit_refusal(reg, appended) == Call::RequestRelease(
            sender,
            now,
            param,
            appended,
        ).refusal(reg),
        appended ==> reg.after(Call::RequestRelease(sender, now, param, appended))
            == reg.with_milestone(staged.milestone_id as int, staged.milestone),
        !appended ==> reg.after(Call::RequestRelease(sender, now, param, appended)) == reg,
{
}

/// The same for a payment confirmation.
pub proof fn law_confirmation_is_atomic(
    reg: Registry,
    sender: Address,
    now: Timestamp,
    param: Result<ConfirmParam, ParseError>,
    appended: bool,
    staged: Staged<AttestedEvent>,
)
    requires
        confirm_refusal(reg, sender, param) is None,
        staged.milestone_id == param->Ok_0.milestone_id,
        staged.milestone == reg.milestones[staged.milestone_id as int].confirm(
            param->Ok_0.plt_tx_hash,
            now,
        ),
    ensures
        staged.commit_refusal(reg, appended) == Call::ConfirmPayment(
            sender,
            now,
            param,
            appended,
        ).refusal(reg),
        appended ==> reg.after(Call::ConfirmPayment(sender, now, param, appended))
            == reg.with_milestone(staged.milestone_id as int, staged.milestone),
        !appended ==> reg.after(Call::ConfirmPayment(sender, now, param, appended)) == reg,
{
}

/// A call that is refused changes nothing.
pub proof fn law_refused_call_changes_nothing(reg: Registry, call: Call)
    requires
        call.refusal(reg) is Some,
    ensures
        reg.after(call) == reg,
{
}

/// A call keeps a consistent registry consistent.
pub proof fn law_call_keeps_consistency(reg: Registry, call: Call)
    requires
        reg.consistent(),
    ensures
        reg.after(call).consistent(),
{
}

/// `later` is `earlier` or a later stage of it: the amount is the same, what
/// was requested stays requested with its digest and time, what was released
/// stays as it is.
pub open spec fn kept(earlier: Milestone, later: Milestone) -> bool {
    &&& later.amount_minor == earlier.amount_minor
    &&& earlier.requested ==> later.requested && later.work_hash == earlier.work_hash
        && later.requested_at_ms == earlier.requested_at_ms
    &&& earlier.released ==> later == earlier
}

/// The phase that follows `phase`; `Released` is the last.
pub open spec fn next_phase(phase: Phase) -> Phase {
    match phase {
        Phase::NotRequested => Phase::Requested,
        Phase::Requested => Phase::Released,
        Phase::Released => Phase::Released,
    }
}

/// A call changes at most one milestone, and that one only forward and by
/// one phase.  The identities, the display data, the number of milestones
/// and every amount stay.
pub proof fn law_call_only_advances(reg: Registry, call: Call)
    ensures
        reg.after(call).project_id == reg.project_id,
        reg.after(call).client == reg.client,
        reg.after(call).freelancer == reg.freelancer,
        reg.after(call).oracle == reg.oracle,
        reg.after(call).plt_decimals == reg.plt_decimals,
        reg.after(call).milestones.len() == reg.milestones.len(),
        forall|i: int|
            0 <= i < reg.milestones.len() ==> kept(
                #[trigger] reg.milestones[i],
                reg.after(call).milestones[i],
            ),
        forall|i: int|
            0 <= i < reg.milestones.len() ==> reg.after(call).milestones[i].phase() == (
            #[trigger] reg.milestones[i]).phase() || reg.after(call).milestones[i].phase()
                == next_phase(reg.milestones[i].phase()),
        forall|i: int, j: int|
            0 <= i < j < reg.milestones.len() ==> reg.after(call).milestones[i]
                == reg.milestones[i] || reg.after(call).milestones[j] == reg.milestones[j],
{
}

/// A successful call moves its milestone to the next phase, and each of the
/// two kinds of call starts from one phase only.
pub proof fn law_each_call_has_one_source(reg: Registry, call: Call)
    requires
        call.refusal(reg) is None,
    ensures
        call matches Call::RequestRelease(_, _, param, _) ==> {
            &&& reg.milestones[param->Ok_0.milestone_id as int].phase() == Phase::NotRequested
            &&& reg.after(call).milestones[param->Ok_0.milestone_id as int].phase()
                == Phase::Requested
        },
        call matches Call::ConfirmPayment(_, _, param, _) ==> {
            &&& reg.milestones[param->Ok_0.milestone_id as int].phase() == Phase::Requested
            &&& reg.after(call).milestones[param->Ok_0.milestone_id as int].phase()
                == Phase::Released
        },
{
}

/// A caller who does not hold the call's role is refused as `Unauthorized`,
/// whatever else the call says, and the registry stays as it was.
pub proof fn law_stranger_is_refused(reg: Registry, call: Call)
    requires
        !reg.permits(call.sender(), call.role()),
    ensures
        call.refusal(reg) == Some(ContractError::Unauthorized),
        reg.after(call) == reg,
{
}

/// A confirmation whose amount differs from the milestone's never succeeds
/// and changes nothing; a milestone that was not released stays so.  Where
/// the client asks this of a milestone that is not released, requested or
/// not, the error is `AmountMismatch`.  It is another error only where the
/// caller is not the client or the milestone is released already.
pub proof fn law_wrong_amount_is_refused(
    reg: Registry,
    sender: Address,
    now: Timestamp,
    p: ConfirmParam,
    appended: bool,
)
    requires
        p.milestone_id < reg.milestones.len(),
        p.paid_amount_minor != reg.milestones[p.milestone_id as int].amount_minor,
    ensures
        ({
            let call = Call::ConfirmPayment(sender, now, Ok(p), appended);
            let m = reg.milestones[p.milestone_id as int];
            &&& call.refusal(reg) is Some
            &&& reg.after(call) == reg
            &&& !m.released ==> !reg.after(call).milestones[p.milestone_id as int].released
            &&& call.refusal(reg) == Some(ContractError::AmountMismatch) <==> reg.permits(
                sender,
                Role::Client,
            ) && !m.released
        }),
{
}

/// Any number of calls keep a consistent registry consistent.
pub proof fn law_trace_keeps_consistency(reg: Registry, calls: Seq<Call>)
    requires
        reg.consistent(),
    ensures
        reg.after_all(calls).consistent(),
    decreases calls.len(),
{
    if calls.len() > 0 {
        law_trace_keeps_consistency(reg, calls.drop_last());
        law_call_keeps_consistency(reg.after_all(calls.drop_last()), calls.last());
    }
}

/// Over any number of calls the identities, the display data, the number of
/// milestones and every amount stay, and no milestone goes back: what was
/// requested stays requested with its digest and time, what was released
/// stays as it is.
pub proof fn law_trace_only_advances(reg: Registry, calls: Seq<Call>)
    ensures
        reg.after_all(calls).project_id == reg.project_id,
        reg.after_all(calls).client == reg.client,
        reg.after_all(calls).freelancer == reg.freelancer,
        reg.after_all(calls).oracle == reg.oracle,
        reg.after_all(calls).plt_decimals == reg.plt_decimals,
        reg.after_all(calls).milestones.len() == reg.milestones.len(),
        forall|i: int|
            0 <= i < reg.milestones.len() ==> kept(
                #[trigger] reg.milestones[i],
                reg.after_all(calls).milestones[i],
            ),
    decreases calls.len(),
{
    if calls.len() > 0 {
        let before = reg.after_all(calls.drop_last());
        law_trace_only_advances(reg, calls.drop_last());
        law_call_only_advances(before, calls.last());
        assert forall|i: int| 0 <= i < reg.milestones.len() implies kept(
            #[trigger] reg.milestones[i],
            reg.after_all(calls).milestones[i],
        ) by {
            assert(kept(reg.milestones[i], before.milestones[i]));
            assert(kept(before.milestones[i], before.after(calls.last()).milestones[i]));
        }
    }
}

/// In a registry created by `init` and changed by calls only, a milestone is
/// released only if it was requested.
pub proof fn law_released_implies_requested(p: InitParams, calls: Seq<Call>)
    ensures
        forall|i: int|
            0 <= i < genesis(p).after_all(calls).milestones.len() ==> (#[trigger] genesis(
                p,
            ).after_all(calls).milestones[i]).released ==> genesis(p).after_all(
                calls,
            ).milestones[i].requested,
{
    law_genesis_is_blank(p);
    law_trace_keeps_consistency(genesis(p), calls);
}

/// In a registry created by `init` and changed by calls only, a requested
/// milestone holds the digest of its work.
pub proof fn law_requested_has_work_hash(p: InitParams, calls: Seq<Call>)
    ensures
        forall|i: int|
            0 <= i < genesis(p).after_all(calls).milestones.len() ==> (#[trigger] genesis(
                p,
            ).after_all(calls).milestones[i]).requested ==> genesis(p).after_all(
                calls,
            ).milestones[i].work_hash is Some,
{
    law_genesis_is_blank(p);
    law_trace_keeps_consistency(genesis(p), calls);
}

/// Release of a milestone is requested at most once.  After a request that
/// succeeded, and whatever calls followed it, another request for the same
/// milestone is refused and changes nothing: the oracle is told
/// `AlreadyRequested`, or `AlreadyReleased` once the payment was confirmed,
/// anyone else `Unauthorized`.  The digest and the time of the first request
/// are still in place.
pub proof fn law_release_is_requested_at_most_once(
    reg: Registry,
    sender: Address,
    now: Timestamp,
    p: RequestParam,
    between: Seq<Call>,
    sender_again: Address,
    now_again: Timestamp,
    p_again: RequestParam,
    appended_again: bool,
)
    requires
        release_refusal(reg, sender, Ok(p)) is None,
        p_again.milestone_id == p.milestone_id,
    ensures
        ({
            let first = Call::RequestRelease(sender, now, Ok(p), true);
            let again = Call::RequestRelease(sender_again, now_again, Ok(p_again), appended_again);
            let before = reg.after(first).after_all(between);
            let refusal = again.refusal(before);
            &&& first.refusal(reg) is None
            &&& refusal is Some
            &&& before.permits(sender_again, Role::Oracle) ==> refusal == Some(
                ContractError::AlreadyRequested,
            ) || refusal == Some(ContractError::AlreadyReleased)
            &&& !before.permits(sender_again, Role::Oracle) ==> refusal == Some(
                ContractError::Unauthorized,
            )
            &&& before.after(again) == before
            &&& before.milestones[p.milestone_id as int].requested
            &&& before.milestones[p.milestone_id as int].work_hash == Some(p.work_hash)
            &&& before.milestones[p.milestone_id as int].requested_at_ms == Some(now)
        }),
{
    let first = Call::RequestRelease(sender, now, Ok(p), true);
    let requested = reg.after(first);
    law_trace_only_advances(requested, between);
    assert(kept(
        requested.milestones[p.milestone_id as int],
        requested.after_all(between).milestones[p.milestone_id as int],
    ));
}

/// Where the clock does not run backwards, no payment is confirmed before
/// its release was requested: if no time stored in the registry is later
/// than the first call's, and the calls' times are in order, then a
/// chronological registry stays chronological, and no time stored in it is
/// later than the last call's.
pub proof fn law_clock_order_is_kept(reg: Registry, calls: Seq<Call>)
    requires
        reg.chronological(),
        clock_ordered(calls),
        calls.len() > 0 ==> reg.not_after(calls[0].now()),
    ensures
        reg.after_all(calls).chronological(),
        calls.len() > 0 ==> reg.after_all(calls).not_after(calls.last().now()),
    decreases calls.len(),
{
    if calls.len() > 0 {
        let earlier = calls.drop_last();
        let last = calls.last();
        let before = reg.after_all(earlier);
        law_clock_order_is_kept(reg, earlier);
        assert(before.not_after(last.now())) by {
            if earlier.len() > 0 {
                assert(earlier.last() == calls[calls.len() - 2]);
                assert(calls[calls.len() - 2].now().millis <= calls[calls.len() - 1].now().millis);
                assert forall|i: int| 0 <= i < before.milestones.len() implies (
                #[trigger] before.milestones[i]).not_after(last.now()) by {
                    assert(before.milestones[i].not_after(earlier.last().now()));
                }
            } else {
                assert(calls[0] == last);
            }
        }
        assert forall|i: int| 0 <= i < before.after(last).milestones.len() implies (
        #[trigger] before.after(last).milestones[i]).chronological() && before.after(
            last,
        ).milestones[i].not_after(last.now()) by {
            assert(before.milestones[i].chronological());
            assert(before.milestones[i].not_after(last.now()));
        }
    }
}

/// In a registry created by `init` and changed by calls whose times are in
/// order, every released milestone was requested no later than it was paid.
pub proof fn law_requested_before_attested(p: InitParams, calls: Seq<Call>)
    requires
        clock_ordered(calls),
    ensures
        genesis(p).after_all(calls).chronological(),
{
    law_genesis_is_blank(p);
    law_clock_order_is_kept(genesis(p), calls);
}

} // verus!

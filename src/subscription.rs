use vstd::prelude::*;

use crate::clock::network_unix_time;
use crate::error::NarrativeError;
use crate::identity::Identity;

verus! {

/// Price, in lamports, of a subscription of at most `TIER_A_MAX_DAYS` days.
pub const TIER_A_PRICE: u64 = 100_000_000;

/// Price, in lamports, of a longer subscription.
pub const TIER_B_PRICE: u64 = 300_000_000;

/// The longest duration, in days, sold at the lower price.
pub const TIER_A_MAX_DAYS: u16 = 30;

pub const SECONDS_PER_DAY: i64 = 86400;

/// What a subscription of `duration_days` days costs.
pub open spec fn tier_price(duration_days: u16) -> u64 {
    if duration_days <= TIER_A_MAX_DAYS {
        TIER_A_PRICE
    } else {
        TIER_B_PRICE
    }
}

/// A paid, time-bounded subscription. The end time is advisory: nothing
/// reads it.
#[derive(Clone, Copy, Debug)]
pub struct Subscription {
    pub subscriber: Identity,
    pub start_time: i64,
    pub end_time: i64,
    pub active: bool,
}

impl Subscription {
    pub open spec fn well_formed(&self) -> bool {
        self.end_time > self.start_time
    }
}

/// A movement of `amount` lamports from one party to another, which the host
/// ledger carries out.
#[derive(Clone, Copy, Debug)]
pub struct Transfer {
    pub from: Identity,
    pub to: Identity,
    pub amount: u64,
}

/// The parties to a new subscription: the signing payer and the treasury that
/// receives the payment.
#[derive(Clone, Copy, Debug)]
pub struct Subscribe {
    pub subscriber: Identity,
    pub treasury: Identity,
}

/// A subscription to cancel, and the party that signs the cancellation.
#[derive(Clone, Copy, Debug)]
pub struct CancelSubscription {
    pub subscription: Subscription,
    pub subscriber: Identity,
}

/// The subscription and the payment that `subscribe` yields at time `now`.
pub open spec fn subscribe_outcome(ctx: Subscribe, duration_days: u16, now: i64) -> Result<
    (Subscription, Transfer),
    NarrativeError,
> {
    let end = now + duration_days * SECONDS_PER_DAY;
    if end > i64::MAX {
        Err(NarrativeError::EndTimeOverflow)
    } else {
        Ok(
            (
                Subscription {
                    subscriber: ctx.subscriber,
                    start_time: now,
                    end_time: end as i64,
                    active: true,
                },
                Transfer { from: ctx.subscriber, to: ctx.treasury, amount: tier_price(duration_days) },
            ),
        )
    }
}

/// The state and the result that `cancel_subscription` leaves.
pub open spec fn cancel_outcome(ctx: CancelSubscription) -> (
    CancelSubscription,
    Result<(), NarrativeError>,
) {
    if ctx.subscription.subscriber == ctx.subscriber {
        let subscription = Subscription { active: false, ..ctx.subscription };
        (CancelSubscription { subscription, ..ctx }, Ok(()))
    } else {
        (ctx, Err(NarrativeError::Unauthorized))
    }
}

/// Opens a subscription of `duration_days` days starting at `now`, and the
/// payment for it, which must succeed for the subscription to stand.
pub fn subscribe(ctx: &Subscribe, duration_days: u16, now: i64) -> (r: Result<
    (Subscription, Transfer),
    NarrativeError,
>)
    requires
        duration_days >= 1,
    ensures
        r == subscribe_outcome(*ctx, duration_days, now),
        r is Ok <==> now + duration_days * SECONDS_PER_DAY <= i64::MAX,
        r is Ok ==> ({
            let (sub, pay) = r->Ok_0;
            &&& sub.end_time - sub.start_time == duration_days * SECONDS_PER_DAY
            &&& sub.start_time == now
            &&& sub.active
            &&& sub.well_formed()
            &&& duration_days <= TIER_A_MAX_DAYS ==> pay.amount == TIER_A_PRICE
            &&& duration_days > TIER_A_MAX_DAYS ==> pay.amount == TIER_B_PRICE
        }),
{
    let span: i64 = duration_days as i64 * SECONDS_PER_DAY;
    if now > i64::MAX - span {
        return Err(NarrativeError::EndTimeOverflow);
    }
    let subscription = Subscription {
        subscriber: ctx.subscriber,
        start_time: now,
        end_time: now + span,
        active: true,
    };
    let amount = if duration_days <= TIER_A_MAX_DAYS {
        TIER_A_PRICE
    } else {
        TIER_B_PRICE
    };
    Ok((subscription, Transfer { from: ctx.subscriber, to: ctx.treasury, amount }))
}

/// Opens a subscription that starts at the network clock's current time.
pub fn subscribe_now(ctx: &Subscribe, duration_days: u16) -> (r: Result<
    (Subscription, Transfer),
    NarrativeError,
>)
    requires
        duration_days >= 1,
    ensures
        r == Err::<(Subscription, Transfer), NarrativeError>(NarrativeError::ClockUnavailable)
            || exists|now: i64| r == subscribe_outcome(*ctx, duration_days, now),
{
    match network_unix_time() {
        Ok(now) => subscribe(ctx, duration_days, now),
        Err(_) => Err(NarrativeError::ClockUnavailable),
    }
}

/// Marks the subscription inactive, when the signer is its subscriber.
/// No refund is paid.
pub fn cancel_subscription(ctx: &mut CancelSubscription) -> (r: Result<(), NarrativeError>)
    ensures
        (*final(ctx), r) == cancel_outcome(*old(ctx)),
        r is Ok <==> old(ctx).subscription.subscriber == old(ctx).subscriber,
        r is Ok ==> ({
            let (before, after) = (old(ctx).subscription, final(ctx).subscription);
            &&& !after.active
            &&& after.subscriber == before.subscriber
            &&& after.start_time == before.start_time
            &&& after.end_time == before.end_time
            &&& final(ctx).subscriber == old(ctx).subscriber
        }),
        r is Err ==> r == Err::<(), NarrativeError>(NarrativeError::Unauthorized) && *final(ctx)
            == *old(ctx),
{
    if !ctx.subscription.subscriber.same_as(&ctx.subscriber) {
        return Err(NarrativeError::Unauthorized);
    }
    ctx.subscription.active = false;
    Ok(())
}

/// Cancelling a second time changes nothing and reports what the first
/// cancellation reported.
pub proof fn lemma_cancel_idempotent(ctx: CancelSubscription)
    ensures
        cancel_outcome(cancel_outcome(ctx).0) == cancel_outcome(ctx),
{
}

/// Cancellation keeps a subscription well formed.
pub proof fn lemma_cancel_keeps_well_formed(ctx: CancelSubscription)
    requires
        ctx.subscription.well_formed(),
    ensures
        cancel_outcome(ctx).0.subscription.well_formed(),
{
}

} // verus!

use narrative_shift::{
    cancel_subscription, subscribe, subscribe_now, CancelSubscription, Identity, NarrativeError,
    Subscribe, Subscription, SECONDS_PER_DAY, TIER_A_PRICE, TIER_B_PRICE,
};

fn payer() -> Identity {
    Identity::new([1u8; 32])
}

fn treasury() -> Identity {
    Identity::new([2u8; 32])
}

fn parties() -> Subscribe {
    Subscribe { subscriber: payer(), treasury: treasury() }
}

#[test]
fn thirty_days_cost_tier_a() {
    let (_, pay) = subscribe(&parties(), 30, 1_000).unwrap();
    assert_eq!(pay.amount, 100_000_000);
    assert_eq!(pay.amount, TIER_A_PRICE);
}

#[test]
fn thirty_one_days_cost_tier_b() {
    let (_, pay) = subscribe(&parties(), 31, 1_000).unwrap();
    assert_eq!(pay.amount, 300_000_000);
    assert_eq!(pay.amount, TIER_B_PRICE);
    assert_eq!(TIER_B_PRICE, 3 * TIER_A_PRICE);
}

#[test]
fn one_day_costs_tier_a() {
    let (sub, pay) = subscribe(&parties(), 1, 0).unwrap();
    assert_eq!(pay.amount, TIER_A_PRICE);
    assert_eq!(sub.end_time, 86_400);
}

#[test]
fn end_time_spans_the_duration() {
    for days in [1u16, 2, 29, 30, 31, 365, u16::MAX] {
        let (sub, _) = subscribe(&parties(), days, -7).unwrap();
        assert_eq!(sub.start_time, -7);
        assert_eq!(sub.end_time - sub.start_time, days as i64 * 86_400);
        assert_eq!(SECONDS_PER_DAY, 86_400);
    }
}

#[test]
fn longest_duration_costs_tier_b() {
    let (sub, pay) = subscribe(&parties(), u16::MAX, 0).unwrap();
    assert_eq!(pay.amount, TIER_B_PRICE);
    assert_eq!(sub.end_time, 65_535 * 86_400);
}

#[test]
fn payment_goes_from_subscriber_to_treasury() {
    let (sub, pay) = subscribe(&parties(), 10, 5).unwrap();
    assert_eq!(pay.from, payer());
    assert_eq!(pay.to, treasury());
    assert_eq!(sub.subscriber, payer());
    assert!(sub.active);
}

#[test]
fn end_time_overflow_is_rejected() {
    let r = subscribe(&parties(), 1, i64::MAX - 86_399);
    assert_eq!(r.unwrap_err(), NarrativeError::EndTimeOverflow);
    let (sub, _) = subscribe(&parties(), 1, i64::MAX - 86_400).unwrap();
    assert_eq!(sub.end_time, i64::MAX);
}

#[test]
fn clock_read_without_a_runtime() {
    match subscribe_now(&parties(), 30) {
        Err(e) => assert_eq!(e, NarrativeError::ClockUnavailable),
        Ok((sub, pay)) => {
            assert_eq!(sub.end_time - sub.start_time, 30 * 86_400);
            assert_eq!(pay.amount, TIER_A_PRICE);
        }
    }
}

#[test]
fn subscriber_cancels() {
    let (sub, _) = subscribe(&parties(), 30, 100).unwrap();
    let mut ctx = CancelSubscription { subscription: sub, subscriber: payer() };
    assert_eq!(cancel_subscription(&mut ctx), Ok(()));
    assert!(!ctx.subscription.active);
    assert_eq!(ctx.subscription.subscriber, payer());
    assert_eq!(ctx.subscription.start_time, 100);
    assert_eq!(ctx.subscription.end_time, 100 + 30 * 86_400);
}

#[test]
fn other_party_cannot_cancel() {
    let (sub, _) = subscribe(&parties(), 30, 100).unwrap();
    let mut ctx = CancelSubscription { subscription: sub, subscriber: treasury() };
    assert_eq!(cancel_subscription(&mut ctx), Err(NarrativeError::Unauthorized));
    assert!(ctx.subscription.active);
    assert_eq!(ctx.subscription.start_time, 100);
    assert_eq!(ctx.subscription.end_time, 100 + 30 * 86_400);
}

#[test]
fn cancelling_twice_is_a_no_op() {
    let (sub, _) = subscribe(&parties(), 7, 0).unwrap();
    let mut ctx = CancelSubscription { subscription: sub, subscriber: payer() };
    assert_eq!(cancel_subscription(&mut ctx), Ok(()));
    let after_first: Subscription = ctx.subscription;
    assert_eq!(cancel_subscription(&mut ctx), Ok(()));
    assert!(!ctx.subscription.active);
    assert_eq!(ctx.subscription.start_time, after_first.start_time);
    assert_eq!(ctx.subscription.end_time, after_first.end_time);
    assert_eq!(ctx.subscriber, payer());
}

#[test]
fn subscribe_then_cancel_at_time_t() {
    let t: i64 = 1_700_000_000;
    let (sub, pay) = subscribe(&parties(), 30, t).unwrap();
    assert_eq!(sub.start_time, t);
    assert_eq!(sub.end_time, t + 2_592_000);
    assert!(sub.active);
    assert_eq!(pay.to, treasury());
    assert_eq!(pay.amount, TIER_A_PRICE);

    let mut ctx = CancelSubscription { subscription: sub, subscriber: payer() };
    // Cancellation only clears the flag; it yields no refund.
    let refund: Result<(), NarrativeError> = cancel_subscription(&mut ctx);
    assert_eq!(refund, Ok(()));
    assert!(!ctx.subscription.active);
    assert_eq!(ctx.subscription.subscriber, payer());
    assert_eq!(ctx.subscription.start_time, t);
    assert_eq!(ctx.subscription.end_time, t + 2_592_000);
}

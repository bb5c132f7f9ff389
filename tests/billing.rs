use suggest_billing::stripe_client::{
    BillingReply, BillingRequest, Cancellation, Customer, ProviderError, Stage, Step,
    StripeClient, Subscription, SubscriptionStatus,
};

fn customer(id: &str) -> Customer {
    Customer { id: id.to_string() }
}

fn subscription(id: &str, owner: &str, status: SubscriptionStatus) -> Subscription {
    Subscription { id: id.to_string(), customer: owner.to_string(), status }
}

fn failure(m: &str) -> ProviderError {
    ProviderError { message: m.to_string() }
}

fn start(email: &str) -> Cancellation {
    let (flow, request) = Cancellation::new(email.to_string());
    assert_eq!(request, BillingRequest::ListCustomers { email: email.to_string() });
    assert_eq!(flow.stage(), Stage::AwaitingCustomers);
    flow
}

#[test]
fn first_customer_of_empty_list_is_none() {
    assert_eq!(StripeClient::first_customer(Ok(vec![])), None);
}

#[test]
fn first_customer_of_failed_call_is_none() {
    assert_eq!(StripeClient::first_customer(Err(failure("network down"))), None);
}

#[test]
fn first_customer_takes_first_of_two() {
    let found = Ok(vec![customer("cus_a"), customer("cus_b")]);
    assert_eq!(StripeClient::first_customer(found), Some(customer("cus_a")));
}

#[test]
fn first_subscription_takes_first() {
    let found = Ok(vec![
        subscription("sub_1", "cus_1", SubscriptionStatus::Active),
        subscription("sub_2", "cus_1", SubscriptionStatus::PastDue),
    ]);
    assert_eq!(
        StripeClient::first_subscription(found),
        Some(subscription("sub_1", "cus_1", SubscriptionStatus::Active))
    );
    assert_eq!(StripeClient::first_subscription(Ok(vec![])), None);
    assert_eq!(StripeClient::first_subscription(Err(failure("bad key"))), None);
}

#[test]
fn canceled_passes_snapshot_or_none() {
    let s = subscription("sub_1", "cus_1", SubscriptionStatus::Canceled);
    assert_eq!(StripeClient::canceled(Ok(s.clone())), Some(s));
    assert_eq!(StripeClient::canceled(Err(failure("already canceled"))), None);
}

#[test]
fn nobody_has_no_customer_and_nothing_is_canceled() {
    assert_eq!(StripeClient::first_customer(Ok(vec![])), None);
    let mut flow = start("nobody@example.com");
    let step = flow.advance(BillingReply::Customers(Ok(vec![])));
    assert_eq!(step, Step::Done(None));
    assert_eq!(flow.stage(), Stage::Finished);
    assert!(!flow.awaits(&BillingReply::Subscriptions(Ok(vec![]))));
    assert!(!flow.awaits(&BillingReply::Canceled(Err(failure("x")))));
}

#[test]
fn payer_subscription_is_canceled() {
    let mut flow = start("payer@example.com");
    let step = flow.advance(BillingReply::Customers(Ok(vec![customer("cus_1")])));
    assert_eq!(step, Step::Send(BillingRequest::ListSubscriptions { customer: "cus_1".to_string() }));
    let step = flow.advance(BillingReply::Subscriptions(Ok(vec![subscription(
        "sub_1",
        "cus_1",
        SubscriptionStatus::Active,
    )])));
    assert_eq!(
        step,
        Step::Send(BillingRequest::CancelSubscription { subscription: "sub_1".to_string() })
    );
    let step = flow.advance(BillingReply::Canceled(Ok(subscription(
        "sub_1",
        "cus_1",
        SubscriptionStatus::Canceled,
    ))));
    match step {
        Step::Done(Some(s)) => {
            assert_eq!(s.id, "sub_1");
            assert_eq!(s.status, SubscriptionStatus::Canceled);
        },
        other => panic!("unexpected step {:?}", other),
    }
    assert_eq!(flow.stage(), Stage::Finished);
}

#[test]
fn customer_without_subscription_sends_no_cancel() {
    assert_eq!(StripeClient::first_subscription(Ok(vec![])), None);
    let mut flow = start("payer@example.com");
    let _ = flow.advance(BillingReply::Customers(Ok(vec![customer("cus_1")])));
    assert_eq!(flow.stage(), Stage::AwaitingSubscriptions);
    let step = flow.advance(BillingReply::Subscriptions(Ok(vec![])));
    assert_eq!(step, Step::Done(None));
    assert_eq!(flow.stage(), Stage::Finished);
    assert!(!flow.awaits(&BillingReply::Canceled(Err(failure("x")))));
}

#[test]
fn duplicate_customers_go_on_with_the_first() {
    let mut flow = start("twice@example.com");
    let step = flow.advance(BillingReply::Customers(Ok(vec![customer("cus_1"), customer("cus_2")])));
    assert_eq!(step, Step::Send(BillingRequest::ListSubscriptions { customer: "cus_1".to_string() }));
}

#[test]
fn failed_lookups_end_with_none() {
    let mut flow = start("payer@example.com");
    assert_eq!(flow.advance(BillingReply::Customers(Err(failure("timeout")))), Step::Done(None));

    let mut flow = start("payer@example.com");
    let _ = flow.advance(BillingReply::Customers(Ok(vec![customer("cus_1")])));
    assert_eq!(flow.advance(BillingReply::Subscriptions(Err(failure("timeout")))), Step::Done(None));

    let mut flow = start("payer@example.com");
    let _ = flow.advance(BillingReply::Customers(Ok(vec![customer("cus_1")])));
    let _ = flow.advance(BillingReply::Subscriptions(Ok(vec![subscription(
        "sub_1",
        "cus_1",
        SubscriptionStatus::Active,
    )])));
    assert_eq!(flow.stage(), Stage::AwaitingCancel);
    assert_eq!(flow.advance(BillingReply::Canceled(Err(failure("declined")))), Step::Done(None));
}

#[test]
fn flow_waits_only_for_its_pending_reply() {
    let flow = start("payer@example.com");
    assert!(flow.awaits(&BillingReply::Customers(Ok(vec![]))));
    assert!(!flow.awaits(&BillingReply::Subscriptions(Ok(vec![]))));
    assert!(!flow.awaits(&BillingReply::Canceled(Err(failure("x")))));
}

use vstd::prelude::*;

verus! {

/// A customer of the billing provider, known by the id the provider gave it.
#[derive(Debug, Clone, PartialEq, Eq)]
pub struct Customer {
    pub id: String,
}

/// The state of a subscription as the billing provider reports it.
#[derive(Debug, Clone, Copy, PartialEq, Eq)]
pub enum SubscriptionStatus {
    Active,
    Canceled,
    Incomplete,
    IncompleteExpired,
    PastDue,
    Paused,
    Trialing,
    Unpaid,
}

/// A subscription of the billing provider: its id, the id of the customer
/// that owns it, and its state.
#[derive(Debug, Clone, PartialEq, Eq)]
pub struct Subscription {
    pub id: String,
    pub customer: String,
    pub status: SubscriptionStatus,
}

/// A failed call to the billing provider, transport or decoding alike.
#[derive(Debug, Clone, PartialEq, Eq)]
pub struct ProviderError {
    pub message: String,
}

/// A call that the billing provider is asked to make.
#[derive(Debug, PartialEq, Eq)]
pub enum BillingRequest {
    /// List the customers whose email is exactly `email`.
    ListCustomers { email: String },
    /// List the subscriptions of the customer with id `customer`.
    ListSubscriptions { customer: String },
    /// Cancel the subscription with id `subscription`, with default parameters.
    CancelSubscription { subscription: String },
}

/// What the billing provider answered to a `BillingRequest`.
#[derive(Debug, PartialEq, Eq)]
pub enum BillingReply {
    Customers(Result<Vec<Customer>, ProviderError>),
    Subscriptions(Result<Vec<Subscription>, ProviderError>),
    Canceled(Result<Subscription, ProviderError>),
}

/// Where a cancellation stands: which reply it waits for, or that it is over.
#[derive(Debug, Clone, Copy, PartialEq, Eq)]
pub enum Stage {
    AwaitingCustomers,
    AwaitingSubscriptions,
    AwaitingCancel,
    Finished,
}

/// What the caller does next: send a request, or stop with the result.
#[derive(Debug, PartialEq, Eq)]
pub enum Step {
    Send(BillingRequest),
    Done(Option<Subscription>),
}

/// The first entry of a provider list, or nothing when the list is empty or
/// the call failed.
pub open spec fn first_of<T>(found: Result<Vec<T>, ProviderError>) -> Option<T> {
    match found {
        Ok(v) => if v@.len() > 0 {
            Some(v@[0])
        } else {
            None
        },
        Err(_) => None,
    }
}

/// The subscription that a cancellation call gave back, or nothing when it failed.
pub open spec fn canceled_of(outcome: Result<Subscription, ProviderError>) -> Option<Subscription> {
    match outcome {
        Ok(s) => Some(s),
        Err(_) => None,
    }
}

/// Whether a cancellation at `stage` waits for `reply`.
pub open spec fn expects(stage: Stage, reply: BillingReply) -> bool {
    match reply {
        BillingReply::Customers(_) => stage is AwaitingCustomers,
        BillingReply::Subscriptions(_) => stage is AwaitingSubscriptions,
        BillingReply::Canceled(_) => stage is AwaitingCancel,
    }
}

/// The stage that a cancellation moves to on `reply`, and the step it takes.
pub open spec fn next(reply: BillingReply) -> (Stage, Step) {
    match reply {
        BillingReply::Customers(found) => match first_of(found) {
            Some(c) => (
                Stage::AwaitingSubscriptions,
                Step::Send(BillingRequest::ListSubscriptions { customer: c.id }),
            ),
            None => (Stage::Finished, Step::Done(None)),
        },
        BillingReply::Subscriptions(found) => match first_of(found) {
            Some(s) => (
                Stage::AwaitingCancel,
                Step::Send(BillingRequest::CancelSubscription { subscription: s.id }),
            ),
            None => (Stage::Finished, Step::Done(None)),
        },
        BillingReply::Canceled(outcome) => (Stage::Finished, Step::Done(canceled_of(outcome))),
    }
}

/// The steps a cancellation at `stage` takes on `replies`, in turn; it stops
/// at the first reply it does not wait for.
pub open spec fn steps(stage: Stage, replies: Seq<BillingReply>) -> Seq<Step>
    decreases replies.len(),
{
    if replies.len() == 0 || !expects(stage, replies[0]) {
        seq![]
    } else {
        seq![next(replies[0]).1] + steps(next(replies[0]).0, replies.drop_first())
    }
}

/// Everything a cancellation for `email` does when the provider answers with
/// `replies`: the first request, then one step for each reply it takes.
pub open spec fn cancel_steps(email: String, replies: Seq<BillingReply>) -> Seq<Step> {
    seq![Step::Send(BillingRequest::ListCustomers { email })] + steps(
        Stage::AwaitingCustomers,
        replies,
    )
}

/// How many cancellation requests `steps` sends.
pub open spec fn cancel_requests(steps: Seq<Step>) -> nat
    decreases steps.len(),
{
    if steps.len() == 0 {
        0
    } else {
        (if steps[0] matches Step::Send(BillingRequest::CancelSubscription { .. }) {
            1nat
        } else {
            0nat
        }) + cancel_requests(steps.drop_first())
    }
}

/// A finished cancellation takes no reply, so it sends nothing more.
pub proof fn lemma_finished_takes_nothing(replies: Seq<BillingReply>)
    ensures
        steps(Stage::Finished, replies) == Seq::<Step>::empty(),
{
}

proof fn lemma_take_first(stage: Stage, first: BillingReply, rest: Seq<BillingReply>)
    requires
        expects(stage, first),
    ensures
        steps(stage, seq![first] + rest) == seq![next(first).1] + steps(next(first).0, rest),
{
    let all = seq![first] + rest;
    assert(all[0] == first);
    assert(all.drop_first() =~= rest);
}

/// When no customer has the email, the customer lookup resolves to nothing,
/// and the cancellation ends with `None` right after listing customers: no
/// subscription list and no cancellation is requested, whatever else the
/// provider would answer.
pub proof fn lemma_no_customer_stops(email: String, listed: Vec<Customer>, rest: Seq<BillingReply>)
    requires
        listed@.len() == 0,
    ensures
        first_of(Ok::<Vec<Customer>, ProviderError>(listed)) is None,
        cancel_steps(email, seq![BillingReply::Customers(Ok(listed))] + rest) == seq![
            Step::Send(BillingRequest::ListCustomers { email }),
            Step::Done(None),
        ],
{
    lemma_take_first(Stage::AwaitingCustomers, BillingReply::Customers(Ok(listed)), rest);
    lemma_finished_takes_nothing(rest);
    assert(cancel_steps(email, seq![BillingReply::Customers(Ok(listed))] + rest) =~= seq![
        Step::Send(BillingRequest::ListCustomers { email }),
        Step::Done(None),
    ]);
}

/// When the customer has no subscription, the subscription lookup resolves
/// to nothing, and the cancellation ends with `None` after the two lookups:
/// no cancellation is requested.
pub proof fn lemma_no_subscription_stops(
    email: String,
    customers: Vec<Customer>,
    listed: Vec<Subscription>,
    rest: Seq<BillingReply>,
)
    requires
        customers@.len() > 0,
        listed@.len() == 0,
    ensures
        first_of(Ok::<Vec<Subscription>, ProviderError>(listed)) is None,
        cancel_steps(
            email,
            seq![BillingReply::Customers(Ok(customers)), BillingReply::Subscriptions(Ok(listed))]
                + rest,
        ) == seq![
            Step::Send(BillingRequest::ListCustomers { email }),
            Step::Send(BillingRequest::ListSubscriptions { customer: customers@[0].id }),
            Step::Done(None),
        ],
{
    let c = BillingReply::Customers(Ok(customers));
    let s = BillingReply::Subscriptions(Ok(listed));
    assert(seq![c, s] + rest =~= seq![c] + (seq![s] + rest));
    lemma_take_first(Stage::AwaitingCustomers, c, seq![s] + rest);
    lemma_take_first(Stage::AwaitingSubscriptions, s, rest);
    lemma_finished_takes_nothing(rest);
    assert(cancel_steps(email, seq![c, s] + rest) =~= seq![
        Step::Send(BillingRequest::ListCustomers { email }),
        Step::Send(BillingRequest::ListSubscriptions { customer: customers@[0].id }),
        Step::Done(None),
    ]);
}

/// For a customer with one subscription whose cancellation succeeds, the
/// cancellation returns the provider's snapshot after cancelling, and sends
/// exactly one cancellation request, for that subscription.
pub proof fn lemma_single_subscription_canceled(
    email: String,
    customers: Vec<Customer>,
    listed: Vec<Subscription>,
    after: Subscription,
    rest: Seq<BillingReply>,
)
    requires
        customers@.len() > 0,
        listed@.len() == 1,
    ensures
        cancel_steps(
            email,
            seq![
                BillingReply::Customers(Ok(customers)),
                BillingReply::Subscriptions(Ok(listed)),
                BillingReply::Canceled(Ok(after)),
            ] + rest,
        ) == seq![
            Step::Send(BillingRequest::ListCustomers { email }),
            Step::Send(BillingRequest::ListSubscriptions { customer: customers@[0].id }),
            Step::Send(BillingRequest::CancelSubscription { subscription: listed@[0].id }),
            Step::Done(Some(after)),
        ],
        cancel_requests(
            cancel_steps(
                email,
                seq![
                    BillingReply::Customers(Ok(customers)),
                    BillingReply::Subscriptions(Ok(listed)),
                    BillingReply::Canceled(Ok(after)),
                ] + rest,
            ),
        ) == 1,
{
    let c = BillingReply::Customers(Ok(customers));
    let s = BillingReply::Subscriptions(Ok(listed));
    let k = BillingReply::Canceled(Ok(after));
    assert(seq![c, s, k] + rest =~= seq![c] + (seq![s] + (seq![k] + rest)));
    lemma_take_first(Stage::AwaitingCustomers, c, seq![s] + (seq![k] + rest));
    lemma_take_first(Stage::AwaitingSubscriptions, s, seq![k] + rest);
    lemma_take_first(Stage::AwaitingCancel, k, rest);
    lemma_finished_takes_nothing(rest);
    let all = seq![
        Step::Send(BillingRequest::ListCustomers { email }),
        Step::Send(BillingRequest::ListSubscriptions { customer: customers@[0].id }),
        Step::Send(BillingRequest::CancelSubscription { subscription: listed@[0].id }),
        Step::Done(Some(after)),
    ];
    assert(cancel_steps(email, seq![c, s, k] + rest) =~= all);
    let last = all.drop_first().drop_first().drop_first();
    assert(last =~= seq![Step::Done(Some(after))]);
    assert(last.drop_first() =~= Seq::<Step>::empty());
    assert(cancel_requests(last.drop_first()) == 0);
    assert(last[0] == Step::Done(Some(after)));
    assert(cancel_requests(last) == 0);
    assert(cancel_requests(all.drop_first().drop_first()) == 1);
    assert(cancel_requests(all.drop_first()) == 1);
}

/// However many customers share the email, the lookup resolves to the first
/// one listed, and the cancellation goes on with that customer.
pub proof fn lemma_first_customer_wins(email: String, listed: Vec<Customer>, rest: Seq<BillingReply>)
    requires
        listed@.len() > 0,
    ensures
        first_of(Ok::<Vec<Customer>, ProviderError>(listed)) == Some(listed@[0]),
        cancel_steps(email, seq![BillingReply::Customers(Ok(listed))] + rest)[1] == Step::Send(
            BillingRequest::ListSubscriptions { customer: listed@[0].id },
        ),
{
    lemma_take_first(Stage::AwaitingCustomers, BillingReply::Customers(Ok(listed)), rest);
}

/// The decisions of the billing client. Each lookup is one provider call; the
/// caller makes it and hands the reply to these functions.
pub struct StripeClient {}

impl StripeClient {
    /// The customer a lookup by email resolves to: the first one listed.
    /// An empty list and a failed call both give `None`.
    pub fn first_customer(found: Result<Vec<Customer>, ProviderError>) -> (r: Option<Customer>)
        ensures
            r == first_of(found),
    {
        first_entry(found)
    }

    /// The subscription a lookup by customer resolves to: the first one
    /// listed. An empty list and a failed call both give `None`.
    pub fn first_subscription(
        found: Result<Vec<Subscription>, ProviderError>,
    ) -> (r: Option<Subscription>)
        ensures
            r == first_of(found),
    {
        first_entry(found)
    }

    /// The result of a cancellation call: the provider's snapshot of the
    /// subscription after it, or `None` when the call failed.
    pub fn canceled(outcome: Result<Subscription, ProviderError>) -> (r: Option<Subscription>)
        ensures
            r == canceled_of(outcome),
    {
        match outcome {
            Ok(s) => Some(s),
            Err(_) => None,
        }
    }
}

fn first_entry<T>(found: Result<Vec<T>, ProviderError>) -> (r: Option<T>)
    ensures
        r == first_of(found),
{
    match found {
        Ok(v) => {
            let mut v = v;
            if v.len() > 0 {
                Some(v.remove(0))
            } else {
                None
            }
        },
        Err(_) => None,
    }
}

/// One cancellation by email: a customer lookup, then a subscription lookup,
/// then the cancellation, each step sent only once the one before it has
/// resolved; the first that resolves to nothing ends it with `None`.
pub struct Cancellation {
    stage: Stage,
}

impl Cancellation {
    pub closed spec fn stage_view(&self) -> Stage {
        self.stage
    }

    /// Starts the cancellation for `email`: its first request lists the
    /// customers with that email.
    pub fn new(email: String) -> (r: (Cancellation, BillingRequest))
        ensures
            r.0.stage_view() is AwaitingCustomers,
            r.1 == (BillingRequest::ListCustomers { email }),
    {
        (Cancellation { stage: Stage::AwaitingCustomers }, BillingRequest::ListCustomers { email })
    }

    pub fn stage(&self) -> (r: Stage)
        ensures
            r == self.stage_view(),
    {
        self.stage
    }

    /// Whether this cancellation waits for `reply`.
    pub fn awaits(&self, reply: &BillingReply) -> (r: bool)
        ensures
            r == expects(self.stage_view(), *reply),
    {
        match reply {
            BillingReply::Customers(_) => matches!(self.stage, Stage::AwaitingCustomers),
            BillingReply::Subscriptions(_) => matches!(self.stage, Stage::AwaitingSubscriptions),
            BillingReply::Canceled(_) => matches!(self.stage, Stage::AwaitingCancel),
        }
    }

    /// Takes the provider's reply to the last request and says what comes next.
    pub fn advance(&mut self, reply: BillingReply) -> (r: Step)
        requires
            expects(old(self).stage_view(), reply),
        ensures
            (final(self).stage_view(), r) == next(reply),
    {
        match reply {
            BillingReply::Customers(found) => match StripeClient::first_customer(found) {
                Some(c) => {
                    self.stage = Stage::AwaitingSubscriptions;
                    Step::Send(BillingRequest::ListSubscriptions { customer: c.id })
                },
                None => {
                    self.stage = Stage::Finished;
                    Step::Done(None)
                },
            },
            BillingReply::Subscriptions(found) => match StripeClient::first_subscription(found) {
                Some(s) => {
                    self.stage = Stage::AwaitingCancel;
                    Step::Send(BillingRequest::CancelSubscription { subscription: s.id })
                },
                None => {
                    self.stage = Stage::Finished;
                    Step::Done(None)
                },
            },
            BillingReply::Canceled(outcome) => {
                self.stage = Stage::Finished;
                Step::Done(StripeClient::canceled(outcome))
            },
        }
    }
}

} // verus!

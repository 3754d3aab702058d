//! Subscriptions: the plans on offer, subscribing to one, and cancelling.
//!
//! The provider is stood in for: its references are made up from the user and
//! the plan, and every cancellation succeeds.

use vstd::prelude::*;
use crate::error::{
    database_error_message, database_failure, fail, found_or, is_failure, read_or_fail, ApiError, DbError, ErrorKind,
};
use crate::ids::Id;
use crate::pagination::{capped_size, limit_window, LimitPage, LimitWindow, DEFAULT_PAGE_SIZE};
use crate::payment::Stamp;
use crate::text::{join4, owned, text_eq};
use crate::time::{Timestamp, LATEST_MICROS, MICROS_PER_DAY};

verus! {

/// A request to subscribe to a plan.
#[derive(Clone, Copy, Debug, PartialEq, Eq)]
pub struct CreateSubscriptionRequest {
    pub plan_id: Id,
}

/// A request to cancel a subscription: at the end of the period paid for,
/// unless it says otherwise.
#[derive(Clone, Copy, Debug, PartialEq, Eq)]
pub struct UpdateSubscriptionRequest {
    pub cancel_at_period_end: Option<bool>,
}

/// The query of a listing of subscriptions.
#[derive(Clone, Debug, PartialEq, Eq)]
pub struct SubscriptionFilters {
    pub status: Option<String>,
    pub limit: Option<i64>,
    pub offset: Option<i64>,
}

/// A plan on offer. `F` is the list of its features, as the caller keeps it.
#[derive(Clone, Debug, PartialEq, Eq)]
pub struct SubscriptionPlanResponse<F> {
    pub id: Id,
    pub name: String,
    pub description: Option<String>,
    pub price_cents: i32,
    pub currency: String,
    pub billing_cycle: String,
    pub features: F,
    pub is_active: bool,
    pub max_listings: Option<i32>,
    pub max_rentals_per_month: Option<i32>,
    pub priority_support: bool,
    pub created_at: Timestamp,
    pub updated_at: Timestamp,
}

/// A subscription of a user to a plan. `M` is whatever the caller keeps with
/// it.
#[derive(Clone, Debug, PartialEq, Eq)]
pub struct SubscriptionResponse<F, M> {
    pub id: Id,
    pub user_id: Id,
    pub plan_id: Id,
    pub status: String,
    pub current_period_start: Timestamp,
    pub current_period_end: Timestamp,
    pub cancel_at_period_end: bool,
    pub canceled_at: Option<Timestamp>,
    pub provider_subscription_id: Option<String>,
    pub metadata: Option<M>,
    pub created_at: Timestamp,
    pub updated_at: Timestamp,
    pub plan: Option<SubscriptionPlanResponse<F>>,
}

/// How much of an allowance of a subscription was used in a period.
#[derive(Clone, Debug, PartialEq, Eq)]
pub struct SubscriptionUsageResponse {
    pub id: Id,
    pub subscription_id: Id,
    pub usage_type: String,
    pub usage_count: i32,
    pub usage_limit: Option<i32>,
    pub period_start: Timestamp,
    pub period_end: Timestamp,
    pub created_at: Timestamp,
    pub updated_at: Timestamp,
}

/// What subscribing reads of a plan.
#[derive(Clone, Debug, PartialEq, Eq)]
pub struct PlanRecord {
    pub id: Id,
    pub name: String,
    pub price_cents: i32,
    pub currency: String,
    pub billing_cycle: String,
    pub max_listings: Option<i32>,
}

/// A subscription that was accepted and is to be recorded.
#[derive(Clone, Debug, PartialEq, Eq)]
pub struct NewSubscription {
    pub user_id: Id,
    pub plan_id: Id,
    pub current_period_start: Timestamp,
    pub current_period_end: Timestamp,
    pub provider_subscription_id: String,
    pub plan: PlanRecord,
}

/// What cancelling reads of a subscription.
#[derive(Clone, Debug, PartialEq, Eq)]
pub struct SubscriptionRecord {
    pub id: Id,
    pub status: String,
    pub provider_subscription_id: Option<String>,
}

/// A cancellation that was accepted: either the subscription ends with the
/// period paid for, or it ended at `canceled_at`.
#[derive(Clone, Copy, Debug, PartialEq, Eq, Structural)]
pub struct Cancellation {
    pub subscription_id: Id,
    pub cancel_at_period_end: bool,
    pub canceled_at: Option<Timestamp>,
}

/// Days in the period of a monthly plan.
pub const MONTHLY_PERIOD_DAYS: i64 = 30;

/// Days in the period of a yearly plan.
pub const YEARLY_PERIOD_DAYS: i64 = 365;

// ---------------------------------------------------------------------------
// The provider
// ---------------------------------------------------------------------------

/// The reference that the provider gives a subscription.
pub open spec fn subscription_reference(customer: Seq<char>, price: Seq<char>) -> Seq<char> {
    "sub_mock_"@ + customer + "_"@ + price
}

/// Opens a subscription with the provider.
pub fn create_stripe_subscription(customer_id: &str, price_id: &str) -> (r: Result<String, String>)
    ensures
        r matches Ok(reference) && reference@ == subscription_reference(customer_id@, price_id@),
{
    Ok(join4("sub_mock_", customer_id, "_", price_id))
}

/// Ends a subscription with the provider.
pub fn cancel_stripe_subscription(subscription_id: &str) -> (r: Result<(), String>)
    ensures
        r is Ok,
{
    Ok(())
}

// ---------------------------------------------------------------------------
// Plans
// ---------------------------------------------------------------------------

/// The number of rows as a 64-bit count.
pub fn count_of(len: usize) -> (n: i64)
    ensures
        len <= i64::MAX ==> n == len,
        len > i64::MAX ==> n == i64::MAX,
{
    let wide: u64 = len as u64;
    if wide <= 0x7fff_ffff_ffff_ffff {
        wide as i64
    } else {
        0x7fff_ffff_ffff_ffff
    }
}

/// The plans on offer, all on one page.
pub fn list_subscription_plans<R>(plans: Result<Vec<R>, DbError>) -> (r: Result<LimitPage<R>, ApiError>)
    ensures
        match plans {
            Ok(rows) => {
                &&& r matches Ok(page)
                &&& page.items == rows
                &&& page.offset == 0
                &&& page.total == page.limit
                &&& rows@.len() <= i64::MAX ==> page.total == rows@.len()
            },
            Err(_) => is_failure(r, ErrorKind::Internal, database_error_message()),
        },
{
    let rows = match read_or_fail(plans) {
        Ok(rows) => rows,
        Err(e) => {
            return Err(e);
        },
    };
    let total = count_of(rows.len());
    Ok(LimitPage { items: rows, total, limit: total, offset: 0 })
}

/// Hands out a plan; one that is missing, or not on offer, is not found.
pub fn get_subscription_plan<R>(plan: Result<Option<R>, DbError>) -> (r: Result<R, ApiError>)
    ensures
        match plan {
            Err(_) => is_failure(r, ErrorKind::Internal, database_error_message()),
            Ok(None) => is_failure(r, ErrorKind::NotFound, "Subscription plan not found"@),
            Ok(Some(row)) => r == Ok::<R, ApiError>(row),
        },
{
    match plan {
        Err(_) => database_failure(),
        Ok(found) => found_or(Ok(found), ErrorKind::NotFound, "Subscription plan not found"),
    }
}

// ---------------------------------------------------------------------------
// Subscribing
// ---------------------------------------------------------------------------

/// The days that one period of a plan lasts, by its billing cycle.
pub open spec fn period_days(billing_cycle: Seq<char>) -> Option<int> {
    if billing_cycle == "monthly"@ {
        Some(MONTHLY_PERIOD_DAYS as int)
    } else if billing_cycle == "yearly"@ {
        Some(YEARLY_PERIOD_DAYS as int)
    } else {
        None
    }
}

/// The days that one period of a plan lasts.
pub fn period_length(billing_cycle: &str) -> (r: Option<i64>)
    ensures
        match r {
            Some(days) => period_days(billing_cycle@) == Some(days as int),
            None => period_days(billing_cycle@) is None,
        },
{
    if text_eq(billing_cycle, "monthly") {
        Some(MONTHLY_PERIOD_DAYS)
    } else if text_eq(billing_cycle, "yearly") {
        Some(YEARLY_PERIOD_DAYS)
    } else {
        None
    }
}

/// True when `r` is the decision owed to the request of `user_id` to
/// subscribe at `now`.
///
/// The plan must exist and be on offer, the user must have no active
/// subscription, and the billing cycle of the plan must be monthly or yearly.
/// The first period then runs from `now` for thirty days, or for 365.
pub open spec fn subscription_decided(
    user_id: Id,
    request: CreateSubscriptionRequest,
    plan: Result<Option<PlanRecord>, DbError>,
    active: Result<Option<Id>, DbError>,
    now: Timestamp,
    r: Result<NewSubscription, ApiError>,
) -> bool {
    match plan {
        Err(_) => is_failure(r, ErrorKind::Internal, database_error_message()),
        Ok(None) => is_failure(r, ErrorKind::NotFound, "Subscription plan not found"@),
        Ok(Some(found)) => match active {
            Err(_) => is_failure(r, ErrorKind::Internal, database_error_message()),
            Ok(Some(_)) => is_failure(r, ErrorKind::Conflict, "User already has an active subscription"@),
            Ok(None) => match period_days(found.billing_cycle@) {
                None => is_failure(r, ErrorKind::InvalidState, "Invalid billing cycle"@),
                Some(days) => {
                    &&& r matches Ok(subscription)
                    &&& subscription.user_id == user_id
                    &&& subscription.plan_id == request.plan_id
                    &&& subscription.current_period_start == now
                    &&& subscription.current_period_end.micros == now.micros + days * MICROS_PER_DAY
                    &&& subscription.provider_subscription_id@ == subscription_reference(
                        user_id.text(),
                        found.id.text(),
                    )
                    &&& subscription.plan == found
                },
            },
        },
    }
}

/// Decides on a request of `user_id` to subscribe at `now`, as
/// `subscription_decided` lays down.
pub fn create_subscription_at(
    user_id: Id,
    request: CreateSubscriptionRequest,
    plan: Result<Option<PlanRecord>, DbError>,
    active: Result<Option<Id>, DbError>,
    now: Timestamp,
) -> (r: Result<NewSubscription, ApiError>)
    requires
        now.micros <= LATEST_MICROS,
    ensures
        subscription_decided(user_id, request, plan, active, now, r),
{
    let found = match plan {
        Err(_) => {
            return database_failure();
        },
        Ok(None) => {
            return fail(ErrorKind::NotFound, "Subscription plan not found");
        },
        Ok(Some(found)) => found,
    };
    match active {
        Err(_) => {
            return database_failure();
        },
        Ok(Some(_)) => {
            return fail(ErrorKind::Conflict, "User already has an active subscription");
        },
        Ok(None) => {},
    }
    let days: i64 = match period_length(found.billing_cycle.as_str()) {
        Some(days) => days,
        None => {
            return fail(ErrorKind::InvalidState, "Invalid billing cycle");
        },
    };
    let period_end = Timestamp { micros: now.micros + days * MICROS_PER_DAY };
    let customer = user_id.to_text();
    let price = found.id.to_text();
    let provider_subscription_id = match create_stripe_subscription(customer.as_str(), price.as_str()) {
        Ok(reference) => reference,
        Err(_) => {
            return database_failure();
        },
    };
    Ok(
        NewSubscription {
            user_id,
            plan_id: request.plan_id,
            current_period_start: now,
            current_period_end: period_end,
            provider_subscription_id,
            plan: found,
        },
    )
}

/// Decides on a request of `user_id` to subscribe now.
pub fn create_subscription(
    user_id: Id,
    request: CreateSubscriptionRequest,
    plan: Result<Option<PlanRecord>, DbError>,
    active: Result<Option<Id>, DbError>,
) -> (r: Result<NewSubscription, ApiError>)
    ensures
        exists|now: Timestamp| 0 <= now.micros <= LATEST_MICROS && #[trigger] subscription_decided(
            user_id,
            request,
            plan,
            active,
            now,
            r,
        ),
{
    let now = Timestamp::now();
    create_subscription_at(user_id, request, plan, active, now)
}

/// The recorded subscription, active, once it and the counters of its
/// allowances were written. `no_features` is the empty list of features.
pub fn subscription_created<F, M>(
    subscription: NewSubscription,
    inserted: Result<Stamp, DbError>,
    counters: Result<(), DbError>,
    no_features: F,
) -> (r: Result<SubscriptionResponse<F, M>, ApiError>)
    ensures
        match (inserted, counters) {
            (Ok(stamp), Ok(_)) => {
                &&& r matches Ok(recorded)
                &&& recorded.id == stamp.id
                &&& recorded.user_id == subscription.user_id
                &&& recorded.plan_id == subscription.plan_id
                &&& recorded.status@ == "active"@
                &&& recorded.current_period_start == subscription.current_period_start
                &&& recorded.current_period_end == subscription.current_period_end
                &&& !recorded.cancel_at_period_end
                &&& recorded.canceled_at is None
                &&& recorded.provider_subscription_id == Some(subscription.provider_subscription_id)
                &&& recorded.metadata is None
                &&& recorded.created_at == stamp.created_at
                &&& recorded.updated_at == stamp.updated_at
                &&& recorded.plan == Some(
                    SubscriptionPlanResponse {
                        id: subscription.plan.id,
                        name: subscription.plan.name,
                        description: None,
                        price_cents: subscription.plan.price_cents,
                        currency: subscription.plan.currency,
                        billing_cycle: subscription.plan.billing_cycle,
                        features: no_features,
                        is_active: true,
                        max_listings: subscription.plan.max_listings,
                        max_rentals_per_month: None,
                        priority_support: false,
                        created_at: subscription.current_period_start,
                        updated_at: subscription.current_period_start,
                    },
                )
            },
            _ => is_failure(r, ErrorKind::Internal, database_error_message()),
        },
{
    let stamp = match read_or_fail(inserted) {
        Ok(stamp) => stamp,
        Err(e) => {
            return Err(e);
        },
    };
    match read_or_fail(counters) {
        Ok(_) => {},
        Err(e) => {
            return Err(e);
        },
    }
    let now = subscription.current_period_start;
    Ok(
        SubscriptionResponse {
            id: stamp.id,
            user_id: subscription.user_id,
            plan_id: subscription.plan_id,
            status: owned("active"),
            current_period_start: subscription.current_period_start,
            current_period_end: subscription.current_period_end,
            cancel_at_period_end: false,
            canceled_at: None,
            provider_subscription_id: Some(subscription.provider_subscription_id),
            metadata: None,
            created_at: stamp.created_at,
            updated_at: stamp.updated_at,
            plan: Some(
                SubscriptionPlanResponse {
                    id: subscription.plan.id,
                    name: subscription.plan.name,
                    description: None,
                    price_cents: subscription.plan.price_cents,
                    currency: subscription.plan.currency,
                    billing_cycle: subscription.plan.billing_cycle,
                    features: no_features,
                    is_active: true,
                    max_listings: subscription.plan.max_listings,
                    max_rentals_per_month: None,
                    priority_support: false,
                    created_at: now,
                    updated_at: now,
                },
            ),
        },
    )
}

// ---------------------------------------------------------------------------
// Reading and listing
// ---------------------------------------------------------------------------

/// Hands the caller its subscription; one that is missing is not found.
pub fn get_subscription<R>(subscription: Result<Option<R>, DbError>) -> (r: Result<R, ApiError>)
    ensures
        match subscription {
            Err(_) => is_failure(r, ErrorKind::Internal, database_error_message()),
            Ok(None) => is_failure(r, ErrorKind::NotFound, "Subscription not found"@),
            Ok(Some(row)) => r == Ok::<R, ApiError>(row),
        },
{
    match subscription {
        Err(_) => database_failure(),
        Ok(found) => found_or(Ok(found), ErrorKind::NotFound, "Subscription not found"),
    }
}

/// The window of the listing of subscriptions that `filters` asks for.
pub fn list_user_subscriptions(filters: &SubscriptionFilters) -> (w: LimitWindow)
    ensures
        w.limit == capped_size(filters.limit, DEFAULT_PAGE_SIZE),
        w.offset == match filters.offset {
            Some(o) => o,
            None => 0,
        },
{
    limit_window(filters.limit, filters.offset, DEFAULT_PAGE_SIZE)
}

/// The use made of the allowances of the caller's subscription; of a
/// subscription that is missing there is none to show.
pub fn get_subscription_usage<R>(subscription: Result<Option<Id>, DbError>, usage: Result<Vec<R>, DbError>) -> (r:
    Result<Vec<R>, ApiError>)
    ensures
        match subscription {
            Err(_) => is_failure(r, ErrorKind::Internal, database_error_message()),
            Ok(None) => is_failure(r, ErrorKind::NotFound, "Subscription not found"@),
            Ok(Some(_)) => match usage {
                Ok(rows) => r == Ok::<Vec<R>, ApiError>(rows),
                Err(_) => is_failure(r, ErrorKind::Internal, database_error_message()),
            },
        },
{
    match subscription {
        Err(_) => {
            return database_failure();
        },
        Ok(None) => {
            return fail(ErrorKind::NotFound, "Subscription not found");
        },
        Ok(Some(_)) => {},
    }
    read_or_fail(usage)
}

// ---------------------------------------------------------------------------
// Cancelling
// ---------------------------------------------------------------------------

/// True when `r` is the decision owed to a request to cancel the caller's
/// subscription at `now`: only an active subscription can be cancelled; it
/// ends with the period paid for unless the request says otherwise, and then
/// it ends at `now`.
pub open spec fn cancellation_decided(
    subscription_id: Id,
    request: UpdateSubscriptionRequest,
    subscription: Result<Option<SubscriptionRecord>, DbError>,
    now: Timestamp,
    r: Result<Cancellation, ApiError>,
) -> bool {
    match subscription {
        Err(_) => is_failure(r, ErrorKind::Internal, database_error_message()),
        Ok(None) => is_failure(r, ErrorKind::NotFound, "Subscription not found"@),
        Ok(Some(found)) => if found.status@ != "active"@ {
            is_failure(r, ErrorKind::InvalidState, "Subscription is not active"@)
        } else if request.cancel_at_period_end == Some(false) {
            r == Ok::<Cancellation, ApiError>(
                Cancellation { subscription_id, cancel_at_period_end: false, canceled_at: Some(now) },
            )
        } else {
            r == Ok::<Cancellation, ApiError>(
                Cancellation { subscription_id, cancel_at_period_end: true, canceled_at: None },
            )
        },
    }
}

/// Decides on a request to cancel the caller's subscription at `now`, as
/// `cancellation_decided` lays down. A subscription that ends at once is
/// ended with the provider too, where the provider knows it.
pub fn cancel_subscription_at(
    subscription_id: Id,
    request: UpdateSubscriptionRequest,
    subscription: Result<Option<SubscriptionRecord>, DbError>,
    now: Timestamp,
) -> (r: Result<Cancellation, ApiError>)
    ensures
        cancellation_decided(subscription_id, request, subscription, now, r),
{
    let found = match subscription {
        Err(_) => {
            return database_failure();
        },
        Ok(None) => {
            return fail(ErrorKind::NotFound, "Subscription not found");
        },
        Ok(Some(found)) => found,
    };
    if !text_eq(found.status.as_str(), "active") {
        return fail(ErrorKind::InvalidState, "Subscription is not active");
    }
    let cancel_at_period_end = match request.cancel_at_period_end {
        Some(flag) => flag,
        None => true,
    };
    if cancel_at_period_end {
        Ok(Cancellation { subscription_id, cancel_at_period_end: true, canceled_at: None })
    } else {
        match found.provider_subscription_id {
            Some(reference) => match cancel_stripe_subscription(reference.as_str()) {
                Ok(_) => {},
                Err(_) => {
                    return database_failure();
                },
            },
            None => {},
        }
        Ok(Cancellation { subscription_id, cancel_at_period_end: false, canceled_at: Some(now) })
    }
}

/// Decides on a request to cancel the caller's subscription now.
pub fn cancel_subscription(
    subscription_id: Id,
    request: UpdateSubscriptionRequest,
    subscription: Result<Option<SubscriptionRecord>, DbError>,
) -> (r: Result<Cancellation, ApiError>)
    ensures
        exists|now: Timestamp| 0 <= now.micros <= LATEST_MICROS && #[trigger] cancellation_decided(
            subscription_id,
            request,
            subscription,
            now,
            r,
        ),
{
    let now = Timestamp::now();
    cancel_subscription_at(subscription_id, request, subscription, now)
}

/// The answer to the request once the cancellation was written, or was not.
pub fn subscription_cancelled(cancellation: Cancellation, written: Result<(), DbError>) -> (r: Result<
    Cancellation,
    ApiError,
>)
    ensures
        match written {
            Ok(_) => r == Ok::<Cancellation, ApiError>(cancellation),
            Err(_) => is_failure(r, ErrorKind::Internal, database_error_message()),
        },
{
    match read_or_fail(written) {
        Ok(_) => Ok(cancellation),
        Err(e) => Err(e),
    }
}

/// The first period of a subscription ends after it begins.
pub proof fn lemma_period_ends_after_it_begins(
    user_id: Id,
    request: CreateSubscriptionRequest,
    plan: Result<Option<PlanRecord>, DbError>,
    active: Result<Option<Id>, DbError>,
    now: Timestamp,
    r: Result<NewSubscription, ApiError>,
)
    requires
        subscription_decided(user_id, request, plan, active, now, r),
        r is Ok,
    ensures
        r->Ok_0.current_period_start.micros < r->Ok_0.current_period_end.micros,
        r->Ok_0.current_period_end.micros - r->Ok_0.current_period_start.micros == 30 * MICROS_PER_DAY
            || r->Ok_0.current_period_end.micros - r->Ok_0.current_period_start.micros == 365 * MICROS_PER_DAY,
{
}

} // verus!

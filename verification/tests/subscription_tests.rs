use monolith_server::error::{ApiError, DbError, ErrorKind};
use monolith_server::ids::Id;
use monolith_server::pagination::LimitWindow;
use monolith_server::payment::Stamp;
use monolith_server::subscription::{
    cancel_stripe_subscription, cancel_subscription, cancel_subscription_at, count_of, create_stripe_subscription,
    create_subscription, create_subscription_at, get_subscription, get_subscription_plan, get_subscription_usage,
    list_subscription_plans, list_user_subscriptions, period_length, subscription_cancelled, subscription_created,
    Cancellation, CreateSubscriptionRequest, PlanRecord, SubscriptionFilters, SubscriptionRecord,
    SubscriptionResponse, UpdateSubscriptionRequest,
};
use monolith_server::time::Timestamp;
use uuid::Uuid;

fn failure(kind: ErrorKind, message: &str) -> ApiError {
    ApiError { kind, message: message.to_string() }
}

fn plan(cycle: &str) -> PlanRecord {
    PlanRecord {
        id: Id::from_bits(0x11111111_2222_3333_4444_555555555555),
        name: "Pro".to_string(),
        price_cents: 1999,
        currency: "USD".to_string(),
        billing_cycle: cycle.to_string(),
        max_listings: Some(10),
    }
}

#[test]
fn test_create_subscription_request_validation() {
    let uuid = Uuid::new_v4();
    let request = CreateSubscriptionRequest { plan_id: Id::from_bits(uuid.as_u128()) };

    assert!(!uuid.is_nil());
    assert_ne!(request.plan_id.bits, 0);
}

#[test]
fn test_update_subscription_request_validation() {
    let request = UpdateSubscriptionRequest { cancel_at_period_end: Some(true) };

    assert_eq!(request.cancel_at_period_end, Some(true));
}

#[test]
fn test_subscription_filters_validation() {
    let filters = SubscriptionFilters { status: Some("active".to_string()), limit: Some(10), offset: Some(0) };

    assert_eq!(filters.status, Some("active".to_string()));
    assert_eq!(filters.limit, Some(10));
    assert_eq!(filters.offset, Some(0));
}

#[test]
fn test_subscription_plan_id_validation() {
    let request = CreateSubscriptionRequest { plan_id: Id::random() };

    assert_ne!(request.plan_id.bits, 0);

    let uuid = Uuid::from_u128(request.plan_id.bits);
    assert!(!uuid.is_nil());
    assert_eq!(uuid.get_version_num(), 4);
}

#[test]
fn test_subscription_cancel_options() {
    let request_immediate = UpdateSubscriptionRequest { cancel_at_period_end: Some(false) };

    let request_period_end = UpdateSubscriptionRequest { cancel_at_period_end: Some(true) };

    assert_eq!(request_immediate.cancel_at_period_end, Some(false));
    assert_eq!(request_period_end.cancel_at_period_end, Some(true));
}

#[test]
fn test_subscription_status_validation() {
    let valid_statuses = vec!["active", "canceled", "past_due", "unpaid"];
    let test_status = "active";

    assert!(valid_statuses.contains(&test_status));
}

#[test]
fn period_is_thirty_days_or_a_year() {
    assert_eq!(period_length("monthly"), Some(30));
    assert_eq!(period_length("yearly"), Some(365));
    assert_eq!(period_length("weekly"), None);
    assert_eq!(period_length(""), None);
}

#[test]
fn subscribing_starts_a_period_now() {
    let user = Id::from_bits(0xaaaaaaaa_bbbb_cccc_dddd_eeeeeeeeeeee);
    let request = CreateSubscriptionRequest { plan_id: plan("monthly").id };
    let now = Timestamp::from_micros(1_700_000_000_000_000);
    let made = create_subscription_at(user, request, Ok(Some(plan("monthly"))), Ok(None), now).unwrap();
    assert_eq!(made.user_id, user);
    assert_eq!(made.plan_id, request.plan_id);
    assert_eq!(made.current_period_start, now);
    assert_eq!(made.current_period_end, Timestamp::from_micros(1_700_000_000_000_000 + 30 * 86_400_000_000));
    assert_eq!(
        made.provider_subscription_id,
        "sub_mock_aaaaaaaa-bbbb-cccc-dddd-eeeeeeeeeeee_11111111-2222-3333-4444-555555555555"
    );
    assert_eq!(made.plan, plan("monthly"));
    let yearly = create_subscription_at(user, request, Ok(Some(plan("yearly"))), Ok(None), now).unwrap();
    assert_eq!(yearly.current_period_end, Timestamp::from_micros(1_700_000_000_000_000 + 365 * 86_400_000_000));
}

#[test]
fn subscribing_is_refused_in_order() {
    let user = Id::from_bits(1);
    let request = CreateSubscriptionRequest { plan_id: plan("monthly").id };
    let now = Timestamp::from_micros(0);
    let internal = Err(failure(ErrorKind::Internal, "Database error"));
    assert_eq!(create_subscription_at(user, request, Err(DbError {}), Ok(None), now), internal);
    assert_eq!(
        create_subscription_at(user, request, Ok(None), Ok(Some(Id::from_bits(3))), now),
        Err(failure(ErrorKind::NotFound, "Subscription plan not found"))
    );
    assert_eq!(create_subscription_at(user, request, Ok(Some(plan("weekly"))), Err(DbError {}), now), internal);
    assert_eq!(
        create_subscription_at(user, request, Ok(Some(plan("weekly"))), Ok(Some(Id::from_bits(3))), now),
        Err(failure(ErrorKind::Conflict, "User already has an active subscription"))
    );
    assert_eq!(
        create_subscription_at(user, request, Ok(Some(plan("weekly"))), Ok(None), now),
        Err(failure(ErrorKind::InvalidState, "Invalid billing cycle"))
    );
}

#[test]
fn subscribing_now_uses_the_clock() {
    let user = Id::from_bits(1);
    let request = CreateSubscriptionRequest { plan_id: plan("yearly").id };
    let before = Timestamp::now();
    let made = create_subscription(user, request, Ok(Some(plan("yearly"))), Ok(None)).unwrap();
    let after = Timestamp::now();
    assert!(before.micros <= made.current_period_start.micros);
    assert!(made.current_period_start.micros <= after.micros);
    assert_eq!(made.current_period_end.micros - made.current_period_start.micros, 365 * 86_400_000_000);
}

#[test]
fn recorded_subscription_is_active_and_shows_its_plan() {
    let user = Id::from_bits(1);
    let request = CreateSubscriptionRequest { plan_id: plan("monthly").id };
    let now = Timestamp::from_micros(5);
    let made = create_subscription_at(user, request, Ok(Some(plan("monthly"))), Ok(None), now).unwrap();
    let stamp = Stamp { id: Id::from_bits(9), created_at: Timestamp::from_micros(6), updated_at: Timestamp::from_micros(7) };
    let shown: SubscriptionResponse<Vec<String>, ()> =
        subscription_created(made.clone(), Ok(stamp), Ok(()), Vec::new()).unwrap();
    assert_eq!(shown.id, Id::from_bits(9));
    assert_eq!(shown.status, "active");
    assert!(!shown.cancel_at_period_end);
    assert_eq!(shown.canceled_at, None);
    assert_eq!(shown.provider_subscription_id, Some(made.provider_subscription_id.clone()));
    assert_eq!(shown.metadata, None);
    assert_eq!(shown.created_at, Timestamp::from_micros(6));
    let shown_plan = shown.plan.unwrap();
    assert_eq!(shown_plan.id, plan("monthly").id);
    assert_eq!(shown_plan.name, "Pro");
    assert_eq!(shown_plan.description, None);
    assert_eq!(shown_plan.price_cents, 1999);
    assert!(shown_plan.features.is_empty());
    assert!(shown_plan.is_active);
    assert_eq!(shown_plan.max_listings, Some(10));
    assert_eq!(shown_plan.max_rentals_per_month, None);
    assert!(!shown_plan.priority_support);
    assert_eq!(shown_plan.created_at, now);
    let internal = Err(failure(ErrorKind::Internal, "Database error"));
    assert_eq!(subscription_created::<Vec<String>, ()>(made.clone(), Err(DbError {}), Ok(()), Vec::new()), internal);
    assert_eq!(subscription_created::<Vec<String>, ()>(made, Ok(stamp), Err(DbError {}), Vec::new()), internal);
}

fn record(status: &str) -> SubscriptionRecord {
    SubscriptionRecord { id: Id::from_bits(4), status: status.to_string(), provider_subscription_id: Some("sub_1".to_string()) }
}

#[test]
fn cancelling_waits_for_the_period_end_unless_told_otherwise() {
    let id = Id::from_bits(4);
    let now = Timestamp::from_micros(77);
    let at_end = Cancellation { subscription_id: id, cancel_at_period_end: true, canceled_at: None };
    let at_once = Cancellation { subscription_id: id, cancel_at_period_end: false, canceled_at: Some(now) };
    let ask = |flag: Option<bool>| UpdateSubscriptionRequest { cancel_at_period_end: flag };
    assert_eq!(cancel_subscription_at(id, ask(None), Ok(Some(record("active"))), now), Ok(at_end));
    assert_eq!(cancel_subscription_at(id, ask(Some(true)), Ok(Some(record("active"))), now), Ok(at_end));
    assert_eq!(cancel_subscription_at(id, ask(Some(false)), Ok(Some(record("active"))), now), Ok(at_once));
    assert_eq!(
        cancel_subscription_at(id, ask(None), Ok(Some(record("canceled"))), now),
        Err(failure(ErrorKind::InvalidState, "Subscription is not active"))
    );
    assert_eq!(
        cancel_subscription_at(id, ask(None), Ok(None), now),
        Err(failure(ErrorKind::NotFound, "Subscription not found"))
    );
    assert_eq!(
        cancel_subscription_at(id, ask(None), Err(DbError {}), now),
        Err(failure(ErrorKind::Internal, "Database error"))
    );
    let live = cancel_subscription(id, ask(Some(false)), Ok(Some(record("active")))).unwrap();
    assert!(!live.cancel_at_period_end);
    assert!(live.canceled_at.unwrap().micros > 1_600_000_000_000_000);
    assert_eq!(subscription_cancelled(at_end, Ok(())), Ok(at_end));
    assert_eq!(subscription_cancelled(at_end, Err(DbError {})), Err(failure(ErrorKind::Internal, "Database error")));
}

#[test]
fn provider_subscription_reference_joins_customer_and_price() {
    assert_eq!(create_stripe_subscription("cus", "price"), Ok("sub_mock_cus_price".to_string()));
    assert_eq!(cancel_stripe_subscription("sub_1"), Ok(()));
}

#[test]
fn plans_come_on_one_page() {
    let page = list_subscription_plans(Ok(vec!["basic", "pro", "team"])).unwrap();
    assert_eq!((page.items, page.total, page.limit, page.offset), (vec!["basic", "pro", "team"], 3, 3, 0));
    let empty = list_subscription_plans::<&str>(Ok(vec![])).unwrap();
    assert_eq!((empty.total, empty.limit, empty.offset), (0, 0, 0));
    assert_eq!(list_subscription_plans::<&str>(Err(DbError {})), Err(failure(ErrorKind::Internal, "Database error")));
    assert_eq!(count_of(0), 0);
    assert_eq!(count_of(41), 41);
}

#[test]
fn missing_subscription_records_are_not_found() {
    assert_eq!(get_subscription_plan(Ok(Some(1))), Ok(1));
    assert_eq!(get_subscription_plan::<i32>(Ok(None)), Err(failure(ErrorKind::NotFound, "Subscription plan not found")));
    assert_eq!(get_subscription_plan::<i32>(Err(DbError {})), Err(failure(ErrorKind::Internal, "Database error")));
    assert_eq!(get_subscription(Ok(Some(1))), Ok(1));
    assert_eq!(get_subscription::<i32>(Ok(None)), Err(failure(ErrorKind::NotFound, "Subscription not found")));
    assert_eq!(get_subscription::<i32>(Err(DbError {})), Err(failure(ErrorKind::Internal, "Database error")));
    assert_eq!(get_subscription_usage(Ok(Some(Id::from_bits(1))), Ok(vec![1, 2])), Ok(vec![1, 2]));
    assert_eq!(
        get_subscription_usage(Ok(None), Ok(vec![1, 2])),
        Err(failure(ErrorKind::NotFound, "Subscription not found"))
    );
    assert_eq!(
        get_subscription_usage::<i32>(Ok(Some(Id::from_bits(1))), Err(DbError {})),
        Err(failure(ErrorKind::Internal, "Database error"))
    );
    assert_eq!(
        get_subscription_usage(Err(DbError {}), Ok(vec![1, 2])),
        Err(failure(ErrorKind::Internal, "Database error"))
    );
    let filters = SubscriptionFilters { status: None, limit: Some(150), offset: None };
    assert_eq!(list_user_subscriptions(&filters), LimitWindow { limit: 100, offset: 0 });
}

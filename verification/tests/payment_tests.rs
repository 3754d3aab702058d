use monolith_server::error::{ApiError, DbError, ErrorKind};
use monolith_server::ids::Id;
use monolith_server::pagination::{limit_page, LimitWindow};
use monolith_server::payment::{
    charge_payment_intent, confirm_payment_intent, confirm_stripe_payment_intent, create_payment_intent,
    create_payment_method, create_stripe_payment_intent, create_stripe_payment_method, get_payment_intent,
    list_payment_intents, list_payment_methods, payment_confirmed, payment_intent_created, payment_method_created,
    validate_payment_intent, ConfirmPaymentIntentRequest, CreatePaymentIntentRequest, CreatePaymentMethodRequest,
    PaidIntent, PaymentFilters, PaymentIntentRecord, PaymentTarget, Stamp,
};
use monolith_server::time::Timestamp;
use serde_json::Value;
use uuid::Uuid;

fn fresh_id() -> Id {
    Id::from_bits(Uuid::new_v4().as_u128())
}

fn object(key: &str, value: &str) -> Value {
    let mut map = serde_json::Map::new();
    map.insert(key.to_string(), Value::from(value));
    Value::Object(map)
}

fn failure(kind: ErrorKind, message: &str) -> ApiError {
    ApiError { kind, message: message.to_string() }
}

fn intent(amount_cents: i32, rental: Option<Id>, subscription: Option<Id>) -> CreatePaymentIntentRequest<Value> {
    CreatePaymentIntentRequest {
        rental_id: rental,
        subscription_id: subscription,
        amount_cents,
        currency: None,
        payment_method_id: None,
        metadata: None,
    }
}

#[test]
fn test_create_payment_method_request_validation() {
    let request = CreatePaymentMethodRequest {
        payment_type: "card".to_string(),
        provider: "stripe".to_string(),
        provider_payment_method_id: "pm_1234567890".to_string(),
        is_default: Some(true),
        metadata: Some(object("card_brand", "visa")),
    };

    assert_eq!(request.payment_type, "card");
    assert_eq!(request.provider, "stripe");
    assert_eq!(request.provider_payment_method_id, "pm_1234567890");
    assert_eq!(request.is_default, Some(true));
    assert!(request.metadata.is_some());
}

#[test]
fn test_create_payment_intent_request_validation() {
    let request = CreatePaymentIntentRequest {
        rental_id: Some(fresh_id()),
        subscription_id: None,
        amount_cents: 5000,
        currency: Some("USD".to_string()),
        payment_method_id: Some(fresh_id()),
        metadata: Some(object("description", "Rental payment")),
    };

    assert!(request.rental_id.is_some());
    assert!(request.subscription_id.is_none());
    assert_eq!(request.amount_cents, 5000);
    assert_eq!(request.currency, Some("USD".to_string()));
    assert!(request.payment_method_id.is_some());
    assert!(request.metadata.is_some());
}

#[test]
fn test_confirm_payment_intent_request_validation() {
    let request = ConfirmPaymentIntentRequest { payment_method_id: Some(fresh_id()) };

    assert!(request.payment_method_id.is_some());
}

#[test]
fn test_payment_filters_validation() {
    let filters = PaymentFilters {
        status: Some("succeeded".to_string()),
        payment_type: Some("card".to_string()),
        limit: Some(20),
        offset: Some(0),
    };

    assert_eq!(filters.status, Some("succeeded".to_string()));
    assert_eq!(filters.payment_type, Some("card".to_string()));
    assert_eq!(filters.limit, Some(20));
    assert_eq!(filters.offset, Some(0));
}

#[test]
fn test_payment_amount_validation() {
    let request: CreatePaymentIntentRequest<Value> = CreatePaymentIntentRequest {
        rental_id: Some(fresh_id()),
        subscription_id: None,
        amount_cents: 100,
        currency: Some("USD".to_string()),
        payment_method_id: None,
        metadata: None,
    };

    assert!(request.amount_cents > 0);
    assert!(request.amount_cents <= 999999);
    assert!(validate_payment_intent(&request).is_ok());
}

#[test]
fn test_payment_currency_validation() {
    let valid_currencies = vec!["USD", "EUR", "GBP", "CAD"];
    let request: CreatePaymentIntentRequest<Value> = CreatePaymentIntentRequest {
        rental_id: Some(fresh_id()),
        subscription_id: None,
        amount_cents: 1000,
        currency: Some("USD".to_string()),
        payment_method_id: None,
        metadata: None,
    };

    assert!(valid_currencies.contains(&request.currency.as_ref().unwrap().as_str()));
}

#[test]
fn provider_references_are_made_up_from_what_is_paid() {
    assert_eq!(create_stripe_payment_method("pm_1"), Ok("pi_mock_pm_1".to_string()));
    assert_eq!(create_stripe_payment_intent(5000, "USD"), Ok("pi_mock_5000_USD".to_string()));
    assert_eq!(create_stripe_payment_intent(-7, "EUR"), Ok("pi_mock_-7_EUR".to_string()));
    assert_eq!(create_stripe_payment_intent(i32::MIN, ""), Ok("pi_mock_-2147483648_".to_string()));
    assert_eq!(confirm_stripe_payment_intent("pi_1", "pm_2"), Ok("ch_mock_pi_1_pm_2".to_string()));
}

#[test]
fn payment_method_must_be_of_a_known_kind_and_provider() {
    let user = Id::from_bits(1);
    let request = |kind: &str, provider: &str, default: Option<bool>| CreatePaymentMethodRequest::<Value> {
        payment_type: kind.to_string(),
        provider: provider.to_string(),
        provider_payment_method_id: "pm_1".to_string(),
        is_default: default,
        metadata: None,
    };
    for kind in ["card", "bank_account", "digital_wallet"] {
        for provider in ["stripe", "paypal", "square"] {
            let method = create_payment_method(user, request(kind, provider, None)).unwrap();
            assert_eq!(method.user_id, user);
            assert_eq!(method.payment_type, kind);
            assert_eq!(method.provider, provider);
            assert!(!method.is_default);
        }
    }
    assert!(create_payment_method(user, request("card", "stripe", Some(true))).unwrap().is_default);
    assert!(!create_payment_method(user, request("card", "stripe", Some(false))).unwrap().is_default);
    assert_eq!(
        create_payment_method(user, request("cash", "stripe", None)),
        Err(failure(ErrorKind::InvalidState, "Invalid payment type"))
    );
    assert_eq!(
        create_payment_method(user, request("card", "bank", None)),
        Err(failure(ErrorKind::InvalidState, "Invalid payment provider"))
    );
    assert_eq!(
        create_payment_method(user, request("cash", "bank", None)),
        Err(failure(ErrorKind::InvalidState, "Invalid payment type"))
    );
}

#[test]
fn recorded_payment_method_is_active() {
    let user = Id::from_bits(1);
    let method = create_payment_method(
        user,
        CreatePaymentMethodRequest {
            payment_type: "card".to_string(),
            provider: "stripe".to_string(),
            provider_payment_method_id: "pm_1".to_string(),
            is_default: Some(true),
            metadata: Some(object("card_brand", "visa")),
        },
    )
    .unwrap();
    let stamp = Stamp { id: Id::from_bits(5), created_at: Timestamp::from_micros(10), updated_at: Timestamp::from_micros(11) };
    let made = payment_method_created(method.clone(), Ok(()), Ok(stamp)).unwrap();
    assert_eq!(made.id, Id::from_bits(5));
    assert_eq!(made.user_id, user);
    assert!(made.is_active);
    assert!(made.is_default);
    assert_eq!(made.metadata, Some(object("card_brand", "visa")));
    assert_eq!(made.created_at, Timestamp::from_micros(10));
    assert_eq!(made.updated_at, Timestamp::from_micros(11));
    let internal = Err(failure(ErrorKind::Internal, "Database error"));
    assert_eq!(payment_method_created(method.clone(), Err(DbError {}), Ok(stamp)), internal);
    assert_eq!(payment_method_created(method, Ok(()), Err(DbError {})), internal);
}

#[test]
fn payment_intent_names_exactly_one_target() {
    let rental = Id::from_bits(1);
    let subscription = Id::from_bits(2);
    assert_eq!(validate_payment_intent(&intent(1, Some(rental), None)), Ok(PaymentTarget::Rental(rental)));
    assert_eq!(
        validate_payment_intent(&intent(1, None, Some(subscription))),
        Ok(PaymentTarget::Subscription(subscription))
    );
    assert_eq!(
        validate_payment_intent(&intent(0, Some(rental), None)),
        Err(failure(ErrorKind::InvalidState, "Amount must be greater than 0"))
    );
    assert_eq!(
        validate_payment_intent(&intent(-5, Some(rental), Some(subscription))),
        Err(failure(ErrorKind::InvalidState, "Amount must be greater than 0"))
    );
    assert_eq!(
        validate_payment_intent(&intent(1, Some(rental), Some(subscription))),
        Err(failure(ErrorKind::InvalidState, "Cannot specify both rental_id and subscription_id"))
    );
    assert_eq!(
        validate_payment_intent(&intent(1, None, None)),
        Err(failure(ErrorKind::InvalidState, "Must specify either rental_id or subscription_id"))
    );
}

#[test]
fn payment_intent_is_for_ones_own_rental_or_subscription() {
    let user = Id::from_bits(7);
    let other = Id::from_bits(8);
    let rental = Some(Id::from_bits(1));
    let subscription = Some(Id::from_bits(2));
    let made = create_payment_intent(user, intent(5000, rental, None), Ok(Some(user))).unwrap();
    assert_eq!(made.user_id, user);
    assert_eq!(made.rental_id, rental);
    assert_eq!(made.subscription_id, None);
    assert_eq!(made.amount_cents, 5000);
    assert_eq!(made.currency, "USD");
    assert_eq!(made.provider_payment_intent_id, "pi_mock_5000_USD");
    let mut euros = intent(250, None, subscription);
    euros.currency = Some("EUR".to_string());
    let made = create_payment_intent(user, euros, Ok(Some(user))).unwrap();
    assert_eq!(made.currency, "EUR");
    assert_eq!(made.provider_payment_intent_id, "pi_mock_250_EUR");
    assert_eq!(
        create_payment_intent(user, intent(1, rental, None), Ok(None)),
        Err(failure(ErrorKind::NotFound, "Rental not found"))
    );
    assert_eq!(
        create_payment_intent(user, intent(1, None, subscription), Ok(None)),
        Err(failure(ErrorKind::NotFound, "Subscription not found"))
    );
    assert_eq!(
        create_payment_intent(user, intent(1, rental, None), Ok(Some(other))),
        Err(failure(ErrorKind::Forbidden, "You can only create payment intents for your own rentals"))
    );
    assert_eq!(
        create_payment_intent(user, intent(1, None, subscription), Ok(Some(other))),
        Err(failure(ErrorKind::Forbidden, "You can only create payment intents for your own subscriptions"))
    );
    assert_eq!(
        create_payment_intent(user, intent(1, rental, None), Err(DbError {})),
        Err(failure(ErrorKind::Internal, "Database error"))
    );
    assert_eq!(
        create_payment_intent(user, intent(0, rental, None), Ok(Some(user))),
        Err(failure(ErrorKind::InvalidState, "Amount must be greater than 0"))
    );
    assert_eq!(
        create_payment_intent(user, intent(0, rental, None), Err(DbError {})),
        Err(failure(ErrorKind::InvalidState, "Amount must be greater than 0"))
    );
    assert_eq!(
        create_payment_intent(user, intent(5, rental, subscription), Ok(None)),
        Err(failure(ErrorKind::InvalidState, "Cannot specify both rental_id and subscription_id"))
    );
    assert_eq!(
        create_payment_intent(user, intent(5, None, None), Ok(Some(other))),
        Err(failure(ErrorKind::InvalidState, "Must specify either rental_id or subscription_id"))
    );
    assert!(create_payment_intent(user, intent(1, rental, None), Ok(Some(user))).is_ok());
}

#[test]
fn recorded_payment_intent_is_pending() {
    let user = Id::from_bits(7);
    let made = create_payment_intent(user, intent(5000, Some(Id::from_bits(1)), None), Ok(Some(user))).unwrap();
    let stamp = Stamp { id: Id::from_bits(5), created_at: Timestamp::from_micros(10), updated_at: Timestamp::from_micros(11) };
    let recorded = payment_intent_created(made.clone(), Ok(stamp)).unwrap();
    assert_eq!(recorded.id, Id::from_bits(5));
    assert_eq!(recorded.status, "pending");
    assert_eq!(recorded.provider_payment_intent_id, Some("pi_mock_5000_USD".to_string()));
    assert_eq!(recorded.provider_charge_id, None);
    assert_eq!(recorded.failure_reason, None);
    assert_eq!(payment_intent_created(made, Err(DbError {})), Err(failure(ErrorKind::Internal, "Database error")));
}

fn recorded_intent(status: &str, reference: Option<&str>, method: Option<Id>) -> PaymentIntentRecord {
    PaymentIntentRecord {
        id: Id::from_bits(5),
        user_id: Id::from_bits(7),
        status: status.to_string(),
        provider_payment_intent_id: reference.map(|r| r.to_string()),
        payment_method_id: method,
    }
}

#[test]
fn confirming_needs_a_pending_intent_and_a_method() {
    let named = ConfirmPaymentIntentRequest { payment_method_id: Some(Id::from_bits(1)) };
    let unnamed = ConfirmPaymentIntentRequest { payment_method_id: None };
    let recorded = Some(Id::from_bits(2));
    let pending = recorded_intent("pending", None, recorded);
    assert_eq!(confirm_payment_intent(&named, Ok(Some(pending.clone()))), Ok((pending.clone(), Id::from_bits(1))));
    assert_eq!(confirm_payment_intent(&unnamed, Ok(Some(pending.clone()))), Ok((pending, Id::from_bits(2))));
    assert_eq!(
        confirm_payment_intent(&unnamed, Ok(Some(recorded_intent("pending", None, None)))),
        Err(failure(ErrorKind::InvalidState, "Payment method is required"))
    );
    assert_eq!(
        confirm_payment_intent(&named, Ok(Some(recorded_intent("succeeded", None, recorded)))),
        Err(failure(ErrorKind::InvalidState, "Payment intent is not in pending status"))
    );
    assert_eq!(confirm_payment_intent(&named, Ok(None)), Err(failure(ErrorKind::NotFound, "Payment intent not found")));
    assert_eq!(confirm_payment_intent(&named, Err(DbError {})), Err(failure(ErrorKind::Internal, "Database error")));
}

#[test]
fn charge_is_made_with_the_chosen_method() {
    let method = Id::from_bits(1);
    let charge =
        charge_payment_intent(recorded_intent("pending", Some("pi_9"), None), method, Ok(Some("pm_3".to_string()))).unwrap();
    assert_eq!(charge.payment_intent_id, Id::from_bits(5));
    assert_eq!(charge.payment_method_id, method);
    assert_eq!(charge.provider_payment_intent_id, "pi_9");
    assert_eq!(charge.provider_charge_id, "ch_mock_pi_9_pm_3");
    assert_eq!(
        charge_payment_intent(recorded_intent("pending", Some("pi_9"), None), method, Ok(None)),
        Err(failure(ErrorKind::NotFound, "Payment method not found"))
    );
    assert_eq!(
        charge_payment_intent(recorded_intent("pending", Some("pi_9"), None), method, Err(DbError {})),
        Err(failure(ErrorKind::Internal, "Database error"))
    );
    assert_eq!(
        charge_payment_intent(recorded_intent("pending", None, None), method, Ok(Some("pm_3".to_string()))),
        Err(failure(ErrorKind::Internal, "Payment intent has no provider reference"))
    );
    let paid = PaidIntent::<Value> {
        id: Id::from_bits(5),
        user_id: Id::from_bits(7),
        rental_id: Some(Id::from_bits(1)),
        subscription_id: None,
        amount_cents: 5000,
        currency: "USD".to_string(),
        status: "succeeded".to_string(),
        metadata: None,
        created_at: Timestamp::from_micros(1),
        updated_at: Timestamp::from_micros(2),
    };
    let shown = payment_confirmed(charge.clone(), Ok(paid.clone()), Ok(())).unwrap();
    assert_eq!(shown.status, "succeeded");
    assert_eq!(shown.payment_method_id, Some(method));
    assert_eq!(shown.provider_payment_intent_id, Some("pi_9".to_string()));
    assert_eq!(shown.provider_charge_id, Some("ch_mock_pi_9_pm_3".to_string()));
    assert_eq!(shown.failure_reason, None);
    assert_eq!(shown.amount_cents, 5000);
    let internal = Err(failure(ErrorKind::Internal, "Database error"));
    assert_eq!(payment_confirmed(charge.clone(), Ok(paid), Err(DbError {})), internal);
    assert_eq!(payment_confirmed::<Value>(charge, Err(DbError {}), Ok(())), internal);
}

#[test]
fn payment_listings_default_to_twenty_from_the_start() {
    let filters = PaymentFilters { status: None, payment_type: None, limit: None, offset: None };
    assert_eq!(list_payment_methods(&filters), LimitWindow { limit: 20, offset: 0 });
    let filters = PaymentFilters { status: None, payment_type: None, limit: Some(1000), offset: Some(40) };
    assert_eq!(list_payment_intents(&filters), LimitWindow { limit: 100, offset: 40 });
    let filters = PaymentFilters { status: None, payment_type: None, limit: Some(-3), offset: Some(-1) };
    assert_eq!(list_payment_methods(&filters), LimitWindow { limit: -3, offset: -1 });
    let page = limit_page(LimitWindow { limit: 20, offset: 0 }, Ok(vec![1, 2, 3]), Ok(3)).unwrap();
    assert_eq!((page.items, page.total, page.limit, page.offset), (vec![1, 2, 3], 3, 20, 0));
    let internal = Err(failure(ErrorKind::Internal, "Database error"));
    assert_eq!(limit_page::<i32>(LimitWindow { limit: 20, offset: 0 }, Err(DbError {}), Ok(3)), internal);
    assert_eq!(limit_page(LimitWindow { limit: 20, offset: 0 }, Ok(vec![1]), Err(DbError {})), internal);
}

#[test]
fn missing_payment_intent_is_not_found() {
    assert_eq!(get_payment_intent(Ok(Some(4))), Ok(4));
    assert_eq!(get_payment_intent::<i32>(Ok(None)), Err(failure(ErrorKind::NotFound, "Payment intent not found")));
    assert_eq!(get_payment_intent::<i32>(Err(DbError {})), Err(failure(ErrorKind::Internal, "Database error")));
}

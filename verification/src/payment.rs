//! Payments: the means of payment of a user, and the intents to pay for a
//! rental or a subscription.
//!
//! The payment provider is stood in for: its references are made up from what
//! is paid, and every charge succeeds.

use vstd::prelude::*;
use crate::error::{
    database_error_message, database_failure, fail, found_or, is_failure, read_or_fail, ApiError, DbError, ErrorKind,
};
use crate::ids::Id;
use crate::pagination::{capped_size, limit_window, LimitWindow, DEFAULT_PAGE_SIZE};
use crate::text::{decimal, decimal_text, join2, join4, owned, text_eq};
use crate::time::Timestamp;

verus! {

/// A request to record a means of payment. `M` is whatever the caller keeps
/// with it.
#[derive(Clone, Debug, PartialEq, Eq)]
pub struct CreatePaymentMethodRequest<M> {
    pub payment_type: String,
    pub provider: String,
    pub provider_payment_method_id: String,
    pub is_default: Option<bool>,
    pub metadata: Option<M>,
}

/// A request to pay for a rental or for a subscription.
#[derive(Clone, Debug, PartialEq, Eq)]
pub struct CreatePaymentIntentRequest<M> {
    pub rental_id: Option<Id>,
    pub subscription_id: Option<Id>,
    pub amount_cents: i32,
    pub currency: Option<String>,
    pub payment_method_id: Option<Id>,
    pub metadata: Option<M>,
}

/// A request to carry out an intent to pay.
#[derive(Clone, Copy, Debug, PartialEq, Eq)]
pub struct ConfirmPaymentIntentRequest {
    pub payment_method_id: Option<Id>,
}

/// The query of a listing of payments.
#[derive(Clone, Debug, PartialEq, Eq)]
pub struct PaymentFilters {
    pub status: Option<String>,
    pub payment_type: Option<String>,
    pub limit: Option<i64>,
    pub offset: Option<i64>,
}

/// A recorded means of payment.
#[derive(Clone, Debug, PartialEq, Eq)]
pub struct PaymentMethodResponse<M> {
    pub id: Id,
    pub user_id: Id,
    pub payment_type: String,
    pub provider: String,
    pub provider_payment_method_id: String,
    pub is_default: bool,
    pub is_active: bool,
    pub metadata: Option<M>,
    pub created_at: Timestamp,
    pub updated_at: Timestamp,
}

/// A recorded intent to pay.
#[derive(Clone, Debug, PartialEq, Eq)]
pub struct PaymentIntentResponse<M> {
    pub id: Id,
    pub user_id: Id,
    pub rental_id: Option<Id>,
    pub subscription_id: Option<Id>,
    pub amount_cents: i32,
    pub currency: String,
    pub status: String,
    pub payment_method_id: Option<Id>,
    pub provider_payment_intent_id: Option<String>,
    pub provider_charge_id: Option<String>,
    pub failure_reason: Option<String>,
    pub metadata: Option<M>,
    pub created_at: Timestamp,
    pub updated_at: Timestamp,
}

/// What the database adds to a new record.
#[derive(Clone, Copy, Debug, PartialEq, Eq, Structural)]
pub struct Stamp {
    pub id: Id,
    pub created_at: Timestamp,
    pub updated_at: Timestamp,
}

/// A means of payment that was accepted and is to be recorded.
#[derive(Clone, Debug, PartialEq, Eq)]
pub struct NewPaymentMethod<M> {
    pub user_id: Id,
    pub payment_type: String,
    pub provider: String,
    pub provider_payment_method_id: String,
    pub is_default: bool,
    pub metadata: Option<M>,
}

/// What an intent pays for.
#[derive(Clone, Copy, Debug, PartialEq, Eq, Structural)]
pub enum PaymentTarget {
    Rental(Id),
    Subscription(Id),
}

/// An intent to pay that was accepted and is to be recorded.
#[derive(Clone, Debug, PartialEq, Eq)]
pub struct NewPaymentIntent<M> {
    pub user_id: Id,
    pub rental_id: Option<Id>,
    pub subscription_id: Option<Id>,
    pub amount_cents: i32,
    pub currency: String,
    pub payment_method_id: Option<Id>,
    pub provider_payment_intent_id: String,
    pub metadata: Option<M>,
}

/// What confirming reads of a recorded intent.
#[derive(Clone, Debug, PartialEq, Eq)]
pub struct PaymentIntentRecord {
    pub id: Id,
    pub user_id: Id,
    pub status: String,
    pub provider_payment_intent_id: Option<String>,
    pub payment_method_id: Option<Id>,
}

/// A charge that went through and is to be recorded.
#[derive(Clone, Debug, PartialEq, Eq)]
pub struct Charge {
    pub payment_intent_id: Id,
    pub payment_method_id: Id,
    pub provider_payment_intent_id: String,
    pub provider_charge_id: String,
}

/// What the database hands back of an intent once it is marked as paid.
#[derive(Clone, Debug, PartialEq, Eq)]
pub struct PaidIntent<M> {
    pub id: Id,
    pub user_id: Id,
    pub rental_id: Option<Id>,
    pub subscription_id: Option<Id>,
    pub amount_cents: i32,
    pub currency: String,
    pub status: String,
    pub metadata: Option<M>,
    pub created_at: Timestamp,
    pub updated_at: Timestamp,
}

// ---------------------------------------------------------------------------
// The provider
// ---------------------------------------------------------------------------

/// The reference that the provider gives a means of payment.
pub fn create_stripe_payment_method(provider_payment_method_id: &str) -> (r: Result<String, String>)
    ensures
        r matches Ok(reference) && reference@ == "pi_mock_"@ + provider_payment_method_id@,
{
    Ok(join2("pi_mock_", provider_payment_method_id))
}

/// The reference that the provider gives an intent to pay `amount_cents` in
/// `currency`.
pub open spec fn intent_reference(amount_cents: i32, currency: Seq<char>) -> Seq<char> {
    "pi_mock_"@ + decimal_text(amount_cents as int) + "_"@ + currency
}

/// The reference that the provider gives a charge.
pub open spec fn charge_reference(payment_intent: Seq<char>, payment_method: Seq<char>) -> Seq<char> {
    "ch_mock_"@ + payment_intent + "_"@ + payment_method
}

/// Opens an intent to pay with the provider.
pub fn create_stripe_payment_intent(amount_cents: i32, currency: &str) -> (r: Result<String, String>)
    ensures
        r matches Ok(reference) && reference@ == intent_reference(amount_cents, currency@),
{
    let amount = decimal(amount_cents as i64);
    Ok(join4("pi_mock_", amount.as_str(), "_", currency))
}

/// Carries out an intent to pay with the provider.
pub fn confirm_stripe_payment_intent(payment_intent_id: &str, payment_method_id: &str) -> (r: Result<String, String>)
    ensures
        r matches Ok(reference) && reference@ == charge_reference(payment_intent_id@, payment_method_id@),
{
    Ok(join4("ch_mock_", payment_intent_id, "_", payment_method_id))
}

// ---------------------------------------------------------------------------
// Means of payment
// ---------------------------------------------------------------------------

/// True for the kinds of means of payment that are taken.
pub open spec fn is_payment_type(kind: Seq<char>) -> bool {
    kind == "card"@ || kind == "bank_account"@ || kind == "digital_wallet"@
}

/// True for the providers that are taken.
pub open spec fn is_provider(provider: Seq<char>) -> bool {
    provider == "stripe"@ || provider == "paypal"@ || provider == "square"@
}

/// Decides on a request of `user_id` to record a means of payment: its kind
/// and its provider must be among those taken. A means that is to be the
/// default takes that place from every other means of the user.
pub fn create_payment_method<M>(user_id: Id, request: CreatePaymentMethodRequest<M>) -> (r: Result<
    NewPaymentMethod<M>,
    ApiError,
>)
    ensures
        if !is_payment_type(request.payment_type@) {
            is_failure(r, ErrorKind::InvalidState, "Invalid payment type"@)
        } else if !is_provider(request.provider@) {
            is_failure(r, ErrorKind::InvalidState, "Invalid payment provider"@)
        } else {
            r == Ok::<NewPaymentMethod<M>, ApiError>(
                NewPaymentMethod {
                    user_id,
                    payment_type: request.payment_type,
                    provider: request.provider,
                    provider_payment_method_id: request.provider_payment_method_id,
                    is_default: request.is_default == Some(true),
                    metadata: request.metadata,
                },
            )
        },
{
    let kind = request.payment_type.as_str();
    if !(text_eq(kind, "card") || text_eq(kind, "bank_account") || text_eq(kind, "digital_wallet")) {
        return fail(ErrorKind::InvalidState, "Invalid payment type");
    }
    let provider = request.provider.as_str();
    if !(text_eq(provider, "stripe") || text_eq(provider, "paypal") || text_eq(provider, "square")) {
        return fail(ErrorKind::InvalidState, "Invalid payment provider");
    }
    let is_default = match request.is_default {
        Some(flag) => flag,
        None => false,
    };
    Ok(
        NewPaymentMethod {
            user_id,
            payment_type: request.payment_type,
            provider: request.provider,
            provider_payment_method_id: request.provider_payment_method_id,
            is_default,
            metadata: request.metadata,
        },
    )
}

/// The recorded means of payment, once the other defaults of the user were
/// cleared where the new means is the default, and the means was written.
pub fn payment_method_created<M>(
    method: NewPaymentMethod<M>,
    cleared: Result<(), DbError>,
    inserted: Result<Stamp, DbError>,
) -> (r: Result<PaymentMethodResponse<M>, ApiError>)
    ensures
        match (cleared, inserted) {
            (Ok(_), Ok(stamp)) => r == Ok::<PaymentMethodResponse<M>, ApiError>(
                PaymentMethodResponse {
                    id: stamp.id,
                    user_id: method.user_id,
                    payment_type: method.payment_type,
                    provider: method.provider,
                    provider_payment_method_id: method.provider_payment_method_id,
                    is_default: method.is_default,
                    is_active: true,
                    metadata: method.metadata,
                    created_at: stamp.created_at,
                    updated_at: stamp.updated_at,
                },
            ),
            _ => is_failure(r, ErrorKind::Internal, database_error_message()),
        },
{
    match read_or_fail(cleared) {
        Ok(_) => {},
        Err(e) => {
            return Err(e);
        },
    }
    let stamp = match read_or_fail(inserted) {
        Ok(stamp) => stamp,
        Err(e) => {
            return Err(e);
        },
    };
    Ok(
        PaymentMethodResponse {
            id: stamp.id,
            user_id: method.user_id,
            payment_type: method.payment_type,
            provider: method.provider,
            provider_payment_method_id: method.provider_payment_method_id,
            is_default: method.is_default,
            is_active: true,
            metadata: method.metadata,
            created_at: stamp.created_at,
            updated_at: stamp.updated_at,
        },
    )
}

/// The window of the listing of means of payment that `filters` asks for.
pub fn list_payment_methods(filters: &PaymentFilters) -> (w: LimitWindow)
    ensures
        w.limit == capped_size(filters.limit, DEFAULT_PAGE_SIZE),
        w.offset == match filters.offset {
            Some(o) => o,
            None => 0,
        },
{
    limit_window(filters.limit, filters.offset, DEFAULT_PAGE_SIZE)
}

/// The window of the listing of intents to pay that `filters` asks for.
pub fn list_payment_intents(filters: &PaymentFilters) -> (w: LimitWindow)
    ensures
        w.limit == capped_size(filters.limit, DEFAULT_PAGE_SIZE),
        w.offset == match filters.offset {
            Some(o) => o,
            None => 0,
        },
{
    limit_window(filters.limit, filters.offset, DEFAULT_PAGE_SIZE)
}

// ---------------------------------------------------------------------------
// Intents to pay
// ---------------------------------------------------------------------------

/// What `request` pays for, where its amount is positive and it names either
/// a rental or a subscription, not both.
pub open spec fn payment_target<M>(request: CreatePaymentIntentRequest<M>) -> Option<PaymentTarget> {
    if request.amount_cents <= 0 {
        None
    } else {
        match (request.rental_id, request.subscription_id) {
            (Some(rental), None) => Some(PaymentTarget::Rental(rental)),
            (None, Some(subscription)) => Some(PaymentTarget::Subscription(subscription)),
            _ => None,
        }
    }
}

/// What is wrong with the form of a request that pays for nothing: its
/// amount is not positive; or it names both a rental and a subscription; or
/// it names neither.
pub open spec fn form_fault<M>(request: CreatePaymentIntentRequest<M>) -> Seq<char> {
    if request.amount_cents <= 0 {
        "Amount must be greater than 0"@
    } else if request.rental_id is Some && request.subscription_id is Some {
        "Cannot specify both rental_id and subscription_id"@
    } else {
        "Must specify either rental_id or subscription_id"@
    }
}

/// Checks the form of a request to pay, and says what it pays for.
pub fn validate_payment_intent<M>(request: &CreatePaymentIntentRequest<M>) -> (r: Result<PaymentTarget, ApiError>)
    ensures
        if request.amount_cents <= 0 {
            is_failure(r, ErrorKind::InvalidState, "Amount must be greater than 0"@)
        } else if request.rental_id is Some && request.subscription_id is Some {
            is_failure(r, ErrorKind::InvalidState, "Cannot specify both rental_id and subscription_id"@)
        } else if request.rental_id is None && request.subscription_id is None {
            is_failure(r, ErrorKind::InvalidState, "Must specify either rental_id or subscription_id"@)
        } else {
            r matches Ok(target) && payment_target(*request) == Some(target)
        },
{
    if request.amount_cents <= 0 {
        return fail(ErrorKind::InvalidState, "Amount must be greater than 0");
    }
    match (request.rental_id, request.subscription_id) {
        (Some(_), Some(_)) => fail(ErrorKind::InvalidState, "Cannot specify both rental_id and subscription_id"),
        (None, None) => fail(ErrorKind::InvalidState, "Must specify either rental_id or subscription_id"),
        (Some(rental), None) => Ok(PaymentTarget::Rental(rental)),
        (None, Some(subscription)) => Ok(PaymentTarget::Subscription(subscription)),
    }
}

/// The currency of a request: US dollars where it names none.
pub open spec fn currency_of(currency: Option<String>) -> Seq<char> {
    match currency {
        Some(c) => c@,
        None => "USD"@,
    }
}

/// Decides on a request of `user_id` to pay, given who holds what the request
/// pays for: the renter of the rental, or the subscriber of the subscription.
///
/// The request must be well formed, else it is refused with what is wrong
/// with its form, before anything that was read is looked at. What it pays
/// for must exist, and it must be the caller's own. The intent is then opened
/// with the provider.
pub fn create_payment_intent<M>(
    user_id: Id,
    request: CreatePaymentIntentRequest<M>,
    holder: Result<Option<Id>, DbError>,
) -> (r: Result<NewPaymentIntent<M>, ApiError>)
    ensures
        match payment_target(request) {
            None => is_failure(r, ErrorKind::InvalidState, form_fault(request)),
            Some(target) => match holder {
                Err(_) => is_failure(r, ErrorKind::Internal, database_error_message()),
                Ok(None) => is_failure(
                    r,
                    ErrorKind::NotFound,
                    if target is Rental { "Rental not found"@ } else { "Subscription not found"@ },
                ),
                Ok(Some(owner)) => if owner != user_id {
                    is_failure(
                        r,
                        ErrorKind::Forbidden,
                        if target is Rental {
                            "You can only create payment intents for your own rentals"@
                        } else {
                            "You can only create payment intents for your own subscriptions"@
                        },
                    )
                } else {
                    &&& r matches Ok(intent)
                    &&& intent.user_id == user_id
                    &&& intent.rental_id == request.rental_id
                    &&& intent.subscription_id == request.subscription_id
                    &&& intent.amount_cents == request.amount_cents
                    &&& intent.currency@ == currency_of(request.currency)
                    &&& intent.payment_method_id == request.payment_method_id
                    &&& intent.provider_payment_intent_id@ == intent_reference(
                        request.amount_cents,
                        currency_of(request.currency),
                    )
                    &&& intent.metadata == request.metadata
                },
            },
        },
{
    let target = match validate_payment_intent(&request) {
        Ok(target) => target,
        Err(e) => {
            return Err(e);
        },
    };
    let owner = match holder {
        Err(_) => {
            return database_failure();
        },
        Ok(None) => {
            return match target {
                PaymentTarget::Rental(_) => fail(ErrorKind::NotFound, "Rental not found"),
                PaymentTarget::Subscription(_) => fail(ErrorKind::NotFound, "Subscription not found"),
            };
        },
        Ok(Some(owner)) => owner,
    };
    if owner != user_id {
        return match target {
            PaymentTarget::Rental(_) => fail(
                ErrorKind::Forbidden,
                "You can only create payment intents for your own rentals",
            ),
            PaymentTarget::Subscription(_) => fail(
                ErrorKind::Forbidden,
                "You can only create payment intents for your own subscriptions",
            ),
        };
    }
    let currency = match request.currency {
        Some(c) => c,
        None => owned("USD"),
    };
    let provider_payment_intent_id = match create_stripe_payment_intent(request.amount_cents, currency.as_str()) {
        Ok(reference) => reference,
        Err(_) => {
            return database_failure();
        },
    };
    Ok(
        NewPaymentIntent {
            user_id,
            rental_id: request.rental_id,
            subscription_id: request.subscription_id,
            amount_cents: request.amount_cents,
            currency,
            payment_method_id: request.payment_method_id,
            provider_payment_intent_id,
            metadata: request.metadata,
        },
    )
}

/// The recorded intent, pending, once it was written.
pub fn payment_intent_created<M>(intent: NewPaymentIntent<M>, inserted: Result<Stamp, DbError>) -> (r: Result<
    PaymentIntentResponse<M>,
    ApiError,
>)
    ensures
        match inserted {
            Ok(stamp) => {
                &&& r matches Ok(recorded)
                &&& recorded.id == stamp.id
                &&& recorded.user_id == intent.user_id
                &&& recorded.rental_id == intent.rental_id
                &&& recorded.subscription_id == intent.subscription_id
                &&& recorded.amount_cents == intent.amount_cents
                &&& recorded.currency == intent.currency
                &&& recorded.status@ == "pending"@
                &&& recorded.payment_method_id == intent.payment_method_id
                &&& recorded.provider_payment_intent_id == Some(intent.provider_payment_intent_id)
                &&& recorded.provider_charge_id is None
                &&& recorded.failure_reason is None
                &&& recorded.metadata == intent.metadata
                &&& recorded.created_at == stamp.created_at
                &&& recorded.updated_at == stamp.updated_at
            },
            Err(_) => is_failure(r, ErrorKind::Internal, database_error_message()),
        },
{
    let stamp = match read_or_fail(inserted) {
        Ok(stamp) => stamp,
        Err(e) => {
            return Err(e);
        },
    };
    Ok(
        PaymentIntentResponse {
            id: stamp.id,
            user_id: intent.user_id,
            rental_id: intent.rental_id,
            subscription_id: intent.subscription_id,
            amount_cents: intent.amount_cents,
            currency: intent.currency,
            status: owned("pending"),
            payment_method_id: intent.payment_method_id,
            provider_payment_intent_id: Some(intent.provider_payment_intent_id),
            provider_charge_id: None,
            failure_reason: None,
            metadata: intent.metadata,
            created_at: stamp.created_at,
            updated_at: stamp.updated_at,
        },
    )
}

/// The means of payment that a confirmation uses: the one that the request
/// names, else the one recorded with the intent.
pub open spec fn chosen_method(request: ConfirmPaymentIntentRequest, intent: PaymentIntentRecord) -> Option<Id> {
    match request.payment_method_id {
        Some(id) => Some(id),
        None => intent.payment_method_id,
    }
}

/// Decides whether the caller's intent can be carried out, and with which
/// means of payment: the intent must exist, be pending, and a means of payment
/// must be named by the request or recorded with the intent.
pub fn confirm_payment_intent(
    request: &ConfirmPaymentIntentRequest,
    intent: Result<Option<PaymentIntentRecord>, DbError>,
) -> (r: Result<(PaymentIntentRecord, Id), ApiError>)
    ensures
        match intent {
            Err(_) => is_failure(r, ErrorKind::Internal, database_error_message()),
            Ok(None) => is_failure(r, ErrorKind::NotFound, "Payment intent not found"@),
            Ok(Some(found)) => if found.status@ != "pending"@ {
                is_failure(r, ErrorKind::InvalidState, "Payment intent is not in pending status"@)
            } else {
                match chosen_method(*request, found) {
                    Some(id) => r == Ok::<(PaymentIntentRecord, Id), ApiError>((found, id)),
                    None => is_failure(r, ErrorKind::InvalidState, "Payment method is required"@),
                }
            },
        },
{
    let found = match intent {
        Err(_) => {
            return database_failure();
        },
        Ok(None) => {
            return fail(ErrorKind::NotFound, "Payment intent not found");
        },
        Ok(Some(found)) => found,
    };
    if !text_eq(found.status.as_str(), "pending") {
        return fail(ErrorKind::InvalidState, "Payment intent is not in pending status");
    }
    let chosen = match request.payment_method_id {
        Some(id) => Some(id),
        None => found.payment_method_id,
    };
    match chosen {
        Some(id) => Ok((found, id)),
        None => fail(ErrorKind::InvalidState, "Payment method is required"),
    }
}

/// Carries out the intent with the provider, given the provider's reference
/// of the chosen means of payment as it was read: the means must exist, be
/// the caller's and be active. An intent that was never opened with the
/// provider cannot be carried out.
pub fn charge_payment_intent(
    intent: PaymentIntentRecord,
    payment_method_id: Id,
    method_reference: Result<Option<String>, DbError>,
) -> (r: Result<Charge, ApiError>)
    ensures
        match method_reference {
            Err(_) => is_failure(r, ErrorKind::Internal, database_error_message()),
            Ok(None) => is_failure(r, ErrorKind::NotFound, "Payment method not found"@),
            Ok(Some(method)) => match intent.provider_payment_intent_id {
                None => is_failure(r, ErrorKind::Internal, "Payment intent has no provider reference"@),
                Some(reference) => {
                    &&& r matches Ok(charge)
                    &&& charge.payment_intent_id == intent.id
                    &&& charge.payment_method_id == payment_method_id
                    &&& charge.provider_payment_intent_id == reference
                    &&& charge.provider_charge_id@ == charge_reference(reference@, method@)
                },
            },
        },
{
    let method = match method_reference {
        Err(_) => {
            return database_failure();
        },
        Ok(None) => {
            return fail(ErrorKind::NotFound, "Payment method not found");
        },
        Ok(Some(method)) => method,
    };
    let reference = match intent.provider_payment_intent_id {
        Some(reference) => reference,
        None => {
            return fail(ErrorKind::Internal, "Payment intent has no provider reference");
        },
    };
    let provider_charge_id = match confirm_stripe_payment_intent(reference.as_str(), method.as_str()) {
        Ok(charge) => charge,
        Err(_) => {
            return database_failure();
        },
    };
    Ok(
        Charge {
            payment_intent_id: intent.id,
            payment_method_id,
            provider_payment_intent_id: reference,
            provider_charge_id,
        },
    )
}

/// The paid intent, once it was marked as paid and the charge was recorded.
pub fn payment_confirmed<M>(
    charge: Charge,
    updated: Result<PaidIntent<M>, DbError>,
    recorded: Result<(), DbError>,
) -> (r: Result<PaymentIntentResponse<M>, ApiError>)
    ensures
        match (updated, recorded) {
            (Ok(paid), Ok(_)) => r == Ok::<PaymentIntentResponse<M>, ApiError>(
                PaymentIntentResponse {
                    id: paid.id,
                    user_id: paid.user_id,
                    rental_id: paid.rental_id,
                    subscription_id: paid.subscription_id,
                    amount_cents: paid.amount_cents,
                    currency: paid.currency,
                    status: paid.status,
                    payment_method_id: Some(charge.payment_method_id),
                    provider_payment_intent_id: Some(charge.provider_payment_intent_id),
                    provider_charge_id: Some(charge.provider_charge_id),
                    failure_reason: None,
                    metadata: paid.metadata,
                    created_at: paid.created_at,
                    updated_at: paid.updated_at,
                },
            ),
            _ => is_failure(r, ErrorKind::Internal, database_error_message()),
        },
{
    let paid = match read_or_fail(updated) {
        Ok(paid) => paid,
        Err(e) => {
            return Err(e);
        },
    };
    match read_or_fail(recorded) {
        Ok(_) => {},
        Err(e) => {
            return Err(e);
        },
    }
    Ok(
        PaymentIntentResponse {
            id: paid.id,
            user_id: paid.user_id,
            rental_id: paid.rental_id,
            subscription_id: paid.subscription_id,
            amount_cents: paid.amount_cents,
            currency: paid.currency,
            status: paid.status,
            payment_method_id: Some(charge.payment_method_id),
            provider_payment_intent_id: Some(charge.provider_payment_intent_id),
            provider_charge_id: Some(charge.provider_charge_id),
            failure_reason: None,
            metadata: paid.metadata,
            created_at: paid.created_at,
            updated_at: paid.updated_at,
        },
    )
}

/// Hands the caller its intent to pay; one that could not be read is an
/// internal failure, one that is missing is not found.
pub fn get_payment_intent<R>(intent: Result<Option<R>, DbError>) -> (r: Result<R, ApiError>)
    ensures
        match intent {
            Err(_) => is_failure(r, ErrorKind::Internal, database_error_message()),
            Ok(None) => is_failure(r, ErrorKind::NotFound, "Payment intent not found"@),
            Ok(Some(row)) => r == Ok::<R, ApiError>(row),
        },
{
    match intent {
        Err(_) => database_failure(),
        Ok(found) => found_or(Ok(found), ErrorKind::NotFound, "Payment intent not found"),
    }
}

} // verus!

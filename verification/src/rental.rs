//! Rentals: the availability of a product over an interval, and the rules for
//! creating, reading, listing and changing a rental.
//!
//! A rental holds a product for the interval from its start to its end. While
//! its status is `requested`, `confirmed` or `active` it blocks the product:
//! no other rental of that product may overlap it. Two intervals overlap when
//! each begins no later than the other ends, so intervals that merely touch
//! overlap too.

use vstd::prelude::*;
use vstd::seq_lib::*;
use crate::error::{
    database_error_message, database_failure, fail, is_failure, written_or, ApiError, DbError, ErrorKind,
};
use crate::ids::Id;
use crate::pagination::{capped_size, offset_of, page_of, page_window, PageWindow, DEFAULT_PAGE_SIZE};
use crate::state::{notice, Notice};
use crate::text::{owned, text_eq};
use crate::time::Timestamp;

verus! {

/// A request to rent a product over an interval.
#[derive(Clone, Debug, PartialEq, Eq)]
pub struct CreateRentalRequest {
    pub product_id: Id,
    pub rental_period_start: Timestamp,
    pub rental_period_end: Timestamp,
    pub pickup_notes: Option<String>,
    pub return_notes: Option<String>,
}

/// The fields of a rental that a request may change; an absent field stays.
#[derive(Clone, Debug, PartialEq, Eq)]
pub struct UpdateRentalRequest {
    pub status: Option<String>,
    pub pickup_notes: Option<String>,
    pub return_notes: Option<String>,
}

/// The query of a listing of rentals.
#[derive(Clone, Debug, PartialEq, Eq)]
pub struct RentalFilters {
    pub status: Option<String>,
    pub page: Option<i64>,
    pub per_page: Option<i64>,
}

/// A question about a product and a candidate interval.
#[derive(Clone, Copy, Debug, PartialEq, Eq)]
pub struct AvailabilityRequest {
    pub product_id: Id,
    pub start_date: Timestamp,
    pub end_date: Timestamp,
}

/// A rental that stands in the way of a candidate interval.
#[derive(Clone, Debug, PartialEq, Eq)]
pub struct RentalConflict {
    pub rental_id: Id,
    pub start_date: Timestamp,
    pub end_date: Timestamp,
    pub status: String,
}

/// Whether the product is free over the interval, and the rentals in the way,
/// earliest start first.
#[derive(Clone, Debug, PartialEq, Eq)]
pub struct AvailabilityResponse {
    pub available: bool,
    pub conflicting_rentals: Vec<RentalConflict>,
}

/// One page of rentals, with the number of rentals in all.
#[derive(Clone, Debug, PartialEq, Eq)]
pub struct RentalListResponse<R> {
    pub rentals: Vec<R>,
    pub total: i64,
    pub page: i64,
    pub per_page: i64,
}

/// What the rules of renting read of a product.
#[derive(Clone, Debug, PartialEq, Eq)]
pub struct ProductRecord {
    pub product_id: Id,
    pub owner_id: Id,
    pub status: String,
}

/// What the rules of renting read of a recorded rental.
#[derive(Clone, Debug, PartialEq, Eq)]
pub struct RentalRecord {
    pub rental_id: Id,
    pub product_id: Id,
    pub renter_id: Id,
    pub rental_period_start: Timestamp,
    pub rental_period_end: Timestamp,
    pub status: String,
}

/// The two parties of a rental: who rents, and who owns the product.
#[derive(Clone, Copy, Debug, PartialEq, Eq, Structural)]
pub struct RentalParties {
    pub renter_id: Id,
    pub owner_id: Id,
}

/// A rental that was accepted and is to be recorded.
#[derive(Clone, Debug, PartialEq, Eq)]
pub struct NewRental {
    pub rental_id: Id,
    pub product_id: Id,
    pub renter_id: Id,
    pub rental_period_start: Timestamp,
    pub rental_period_end: Timestamp,
    pub status: String,
    pub pickup_notes: Option<String>,
    pub return_notes: Option<String>,
}

/// The answer to a request that created a rental.
#[derive(Clone, Debug, PartialEq, Eq)]
pub struct RentalCreated {
    pub rental_id: Id,
    pub message: String,
}

// ---------------------------------------------------------------------------
// The model
// ---------------------------------------------------------------------------

/// True when the intervals from `a_start` to `a_end` and from `b_start` to
/// `b_end` overlap: each begins no later than the other ends.
pub open spec fn overlaps(a_start: Timestamp, a_end: Timestamp, b_start: Timestamp, b_end: Timestamp) -> bool {
    a_start.micros <= b_end.micros && b_start.micros <= a_end.micros
}

/// True when a rental of this status blocks its product.
pub open spec fn is_blocking_status(status: Seq<char>) -> bool {
    status == "requested"@ || status == "confirmed"@ || status == "active"@
}

/// True when the product can be rented at all.
pub open spec fn is_active_status(status: Seq<char>) -> bool {
    status == "active"@
}

/// True when `rental` stands in the way of renting `product_id` from `start`
/// to `end`.
pub open spec fn conflicts_with(rental: RentalRecord, product_id: Id, start: Timestamp, end: Timestamp) -> bool {
    &&& rental.product_id == product_id
    &&& is_blocking_status(rental.status@)
    &&& overlaps(rental.rental_period_start, rental.rental_period_end, start, end)
}

/// What is reported of a rental that stands in the way.
pub open spec fn conflict_of(rental: RentalRecord) -> RentalConflict {
    RentalConflict {
        rental_id: rental.rental_id,
        start_date: rental.rental_period_start,
        end_date: rental.rental_period_end,
        status: rental.status,
    }
}

/// True when some rental among `rentals` stands in the way.
pub open spec fn has_conflict(rentals: Seq<RentalRecord>, product_id: Id, start: Timestamp, end: Timestamp) -> bool {
    exists|i: int| 0 <= i < rentals.len() && conflicts_with(#[trigger] rentals[i], product_id, start, end)
}

/// The rentals among `rentals` that stand in the way, in the order of
/// `rentals`.
pub open spec fn conflicts_in_order(rentals: Seq<RentalRecord>, product_id: Id, start: Timestamp, end: Timestamp) -> Seq<RentalConflict>
    decreases rentals.len(),
{
    if rentals.len() == 0 {
        Seq::empty()
    } else {
        let before = conflicts_in_order(rentals.drop_last(), product_id, start, end);
        if conflicts_with(rentals.last(), product_id, start, end) {
            before.push(conflict_of(rentals.last()))
        } else {
            before
        }
    }
}

/// True when the conflicts stand earliest start first.
pub open spec fn sorted_by_start(conflicts: Seq<RentalConflict>) -> bool {
    forall|i: int, j: int| 0 <= i <= j < conflicts.len() ==> conflicts[i].start_date.micros <= conflicts[j].start_date.micros
}

/// The place of `conflict` among `sorted`: behind every conflict that starts
/// no later, before every one that starts later.
pub open spec fn insert_position(sorted: Seq<RentalConflict>, conflict: RentalConflict) -> int
    decreases sorted.len(),
{
    if sorted.len() == 0 {
        0
    } else if sorted.last().start_date.micros <= conflict.start_date.micros {
        sorted.len() as int
    } else {
        insert_position(sorted.drop_last(), conflict)
    }
}

/// The conflicts by ascending start; those that start together keep their
/// order.
pub open spec fn sort_by_start(conflicts: Seq<RentalConflict>) -> Seq<RentalConflict>
    decreases conflicts.len(),
{
    if conflicts.len() == 0 {
        Seq::empty()
    } else {
        let sorted = sort_by_start(conflicts.drop_last());
        sorted.insert(insert_position(sorted, conflicts.last()), conflicts.last())
    }
}

/// The rentals among `rentals` that stand in the way of renting `product_id`
/// from `start` to `end`, earliest start first.
pub open spec fn conflicts_of(rentals: Seq<RentalRecord>, product_id: Id, start: Timestamp, end: Timestamp) -> Seq<RentalConflict> {
    sort_by_start(conflicts_in_order(rentals, product_id, start, end))
}

/// True when no two blocking rentals of one product overlap.
pub open spec fn bookings_exclusive(rentals: Seq<RentalRecord>) -> bool {
    forall|i: int, j: int| 0 <= i < j < rentals.len()
        && rentals[i].product_id == rentals[j].product_id
        && is_blocking_status(rentals[i].status@)
        && is_blocking_status(rentals[j].status@)
        ==> !overlaps(
            rentals[i].rental_period_start, rentals[i].rental_period_end,
            rentals[j].rental_period_start, rentals[j].rental_period_end)
}

/// True when `user_id` may rent as `request` asks, given the product and its
/// recorded rentals.
pub open spec fn rental_acceptable(
    user_id: Id,
    request: CreateRentalRequest,
    product: Option<ProductRecord>,
    rentals: Seq<RentalRecord>,
) -> bool {
    &&& product matches Some(p)
    &&& is_active_status(p.status@)
    &&& p.owner_id != user_id
    &&& !has_conflict(rentals, request.product_id, request.rental_period_start, request.rental_period_end)
}

/// The rental that `request` creates for `user_id` under the identifier
/// `rental_id`.
pub open spec fn rental_requested(user_id: Id, request: CreateRentalRequest, rental_id: Id, status: String) -> NewRental {
    NewRental {
        rental_id,
        product_id: request.product_id,
        renter_id: user_id,
        rental_period_start: request.rental_period_start,
        rental_period_end: request.rental_period_end,
        status,
        pickup_notes: request.pickup_notes,
        return_notes: request.return_notes,
    }
}

/// The record that an accepted rental is kept as.
pub open spec fn record_of(rental: NewRental) -> RentalRecord {
    RentalRecord {
        rental_id: rental.rental_id,
        product_id: rental.product_id,
        renter_id: rental.renter_id,
        rental_period_start: rental.rental_period_start,
        rental_period_end: rental.rental_period_end,
        status: rental.status,
    }
}

/// The record that was read, if it was read and exists.
pub open spec fn found<T>(fetched: Result<Option<T>, DbError>) -> Option<T> {
    match fetched {
        Ok(Some(row)) => Some(row),
        _ => None,
    }
}

/// True when `r` is the answer owed to `request`, given what was read of the
/// product and of the rentals.
///
/// A product that could not be read is an internal failure, and one that is
/// missing is not found. A product that is not active is never available, and
/// nothing is reported to stand in the way, whatever rentals are recorded. For
/// an active product the answer lists the blocking rentals of the product that
/// overlap the interval, earliest start first, and the product is available
/// when there is none; rentals that could not be read are an internal failure.
pub open spec fn availability_answered(
    request: AvailabilityRequest,
    product: Result<Option<ProductRecord>, DbError>,
    rentals: Result<Vec<RentalRecord>, DbError>,
    r: Result<AvailabilityResponse, ApiError>,
) -> bool {
    match product {
        Ok(Some(p)) => {
            if !is_active_status(p.status@) {
                r matches Ok(answer) && !answer.available && answer.conflicting_rentals@.len() == 0
            } else {
                match rentals {
                    Ok(rows) => {
                        &&& r matches Ok(answer)
                        &&& answer.conflicting_rentals@ == conflicts_of(
                            rows@, request.product_id, request.start_date, request.end_date)
                        &&& answer.available == !has_conflict(
                            rows@, request.product_id, request.start_date, request.end_date)
                    },
                    Err(_) => is_failure(r, ErrorKind::Internal, "Failed to check availability"@),
                }
            }
        },
        Ok(None) => is_failure(r, ErrorKind::NotFound, "Product not found"@),
        Err(_) => is_failure(r, ErrorKind::Internal, database_error_message()),
    }
}

/// True when `r` is the decision owed to the request of `user_id` to rent,
/// given what was read of the product and of its rentals.
///
/// The first of these that holds decides: the product could not be read
/// (internal); it is missing (not found); it is not active (invalid state);
/// `user_id` owns it (invalid state); the rentals could not be read
/// (internal); a blocking rental of the product overlaps the interval asked
/// for (conflict). Otherwise the rental is accepted as asked, in status
/// `requested`.
pub open spec fn rental_decided(
    user_id: Id,
    request: CreateRentalRequest,
    product: Result<Option<ProductRecord>, DbError>,
    rentals: Result<Vec<RentalRecord>, DbError>,
    r: Result<NewRental, ApiError>,
) -> bool {
    match product {
        Ok(Some(p)) => {
            if !is_active_status(p.status@) {
                is_failure(r, ErrorKind::InvalidState, "Product is not available for rental"@)
            } else if p.owner_id == user_id {
                is_failure(r, ErrorKind::InvalidState, "Cannot rent your own product"@)
            } else {
                match rentals {
                    Ok(rows) => {
                        if has_conflict(
                            rows@, request.product_id, request.rental_period_start, request.rental_period_end) {
                            is_failure(r, ErrorKind::Conflict, "Product is not available for the selected dates"@)
                        } else {
                            &&& r matches Ok(rental)
                            &&& rental.status@ == "requested"@
                            &&& rental == rental_requested(user_id, request, rental.rental_id, rental.status)
                        }
                    },
                    Err(_) => is_failure(r, ErrorKind::Internal, "Failed to check availability"@),
                }
            }
        },
        Ok(None) => is_failure(r, ErrorKind::NotFound, "Product not found"@),
        Err(_) => is_failure(r, ErrorKind::Internal, database_error_message()),
    }
}

/// True when `user_id` is one of the two parties.
pub open spec fn is_party(user_id: Id, parties: RentalParties) -> bool {
    parties.renter_id == user_id || parties.owner_id == user_id
}

// ---------------------------------------------------------------------------
// Availability
// ---------------------------------------------------------------------------

/// True when the two intervals overlap.
pub fn intervals_overlap(a_start: Timestamp, a_end: Timestamp, b_start: Timestamp, b_end: Timestamp) -> (r: bool)
    ensures
        r == overlaps(a_start, a_end, b_start, b_end),
{
    a_start.micros <= b_end.micros && b_start.micros <= a_end.micros
}

/// True when a rental of this status blocks its product.
pub fn is_blocking(status: &str) -> (r: bool)
    ensures
        r == is_blocking_status(status@),
{
    text_eq(status, "requested") || text_eq(status, "confirmed") || text_eq(status, "active")
}

/// True when `rental` stands in the way of renting `product_id` from `start`
/// to `end`.
pub fn is_conflict(rental: &RentalRecord, product_id: Id, start: Timestamp, end: Timestamp) -> (r: bool)
    ensures
        r == conflicts_with(*rental, product_id, start, end),
{
    rental.product_id == product_id
        && is_blocking(rental.status.as_str())
        && intervals_overlap(rental.rental_period_start, rental.rental_period_end, start, end)
}

/// Puts `conflict` at its place among the sorted `conflicts`.
fn insert_conflict(conflicts: &mut Vec<RentalConflict>, conflict: RentalConflict)
    ensures
        final(conflicts)@ == old(conflicts)@.insert(insert_position(old(conflicts)@, conflict), conflict),
{
    let mut k: usize = conflicts.len();
    assert(conflicts@.take(k as int) =~= conflicts@);
    while k > 0 && conflicts[k - 1].start_date.micros > conflict.start_date.micros
        invariant
            k <= conflicts.len(),
            conflicts@ == old(conflicts)@,
            insert_position(conflicts@, conflict) == insert_position(conflicts@.take(k as int), conflict),
        decreases k,
    {
        assert(conflicts@.take(k as int).drop_last() =~= conflicts@.take(k as int - 1));
        k = k - 1;
    }
    assert(insert_position(conflicts@.take(k as int), conflict) == k);
    conflicts.insert(k, conflict);
}

/// The rentals among `rentals` that stand in the way of renting `product_id`
/// from `start` to `end`, earliest start first; those that start together
/// come in the order of `rentals`.
pub fn find_conflicts(rentals: &Vec<RentalRecord>, product_id: Id, start: Timestamp, end: Timestamp) -> (conflicts: Vec<RentalConflict>)
    ensures
        conflicts@ == conflicts_of(rentals@, product_id, start, end),
        sorted_by_start(conflicts@),
        forall|c: RentalConflict| conflicts@.contains(c) <==> exists|i: int|
            0 <= i < rentals@.len() && conflicts_with(#[trigger] rentals@[i], product_id, start, end)
                && c == conflict_of(rentals@[i]),
        conflicts@.len() == 0 <==> !has_conflict(rentals@, product_id, start, end),
{
    let mut conflicts: Vec<RentalConflict> = Vec::new();
    let mut i: usize = 0;
    while i < rentals.len()
        invariant
            i <= rentals.len(),
            conflicts@ == conflicts_of(rentals@.take(i as int), product_id, start, end),
        decreases rentals.len() - i,
    {
        let rental = &rentals[i];
        proof {
            assert(rentals@.take(i as int + 1).drop_last() =~= rentals@.take(i as int));
            assert(rentals@.take(i as int + 1).last() == rentals@[i as int]);
            let before = conflicts_in_order(rentals@.take(i as int), product_id, start, end);
            assert(before.push(conflict_of(*rental)).drop_last() =~= before);
        }
        if is_conflict(rental, product_id, start, end) {
            let conflict = RentalConflict {
                rental_id: rental.rental_id,
                start_date: rental.rental_period_start,
                end_date: rental.rental_period_end,
                status: rental.status.clone(),
            };
            insert_conflict(&mut conflicts, conflict);
        }
        i = i + 1;
    }
    proof {
        assert(rentals@.take(rentals@.len() as int) =~= rentals@);
        lemma_conflicts_sorted(rentals@, product_id, start, end);
        lemma_conflicts_complete(rentals@, product_id, start, end);
        lemma_no_conflicts_iff_none_reported(rentals@, product_id, start, end);
    }
    conflicts
}

/// Answers whether the product of `request` is free over the interval asked
/// for, as `availability_answered` lays down.
pub fn check_availability(
    request: AvailabilityRequest,
    product: Result<Option<ProductRecord>, DbError>,
    rentals: Result<Vec<RentalRecord>, DbError>,
) -> (r: Result<AvailabilityResponse, ApiError>)
    ensures
        availability_answered(request, product, rentals, r),
{
    let found = match product {
        Ok(Some(p)) => p,
        Ok(None) => {
            return fail(ErrorKind::NotFound, "Product not found");
        },
        Err(_) => {
            return database_failure();
        },
    };
    if !text_eq(found.status.as_str(), "active") {
        return Ok(AvailabilityResponse { available: false, conflicting_rentals: Vec::new() });
    }
    let rows = match rentals {
        Ok(rows) => rows,
        Err(_) => {
            return fail(ErrorKind::Internal, "Failed to check availability");
        },
    };
    let conflicting_rentals = find_conflicts(&rows, request.product_id, request.start_date, request.end_date);
    let available = conflicting_rentals.len() == 0;
    Ok(AvailabilityResponse { available, conflicting_rentals })
}

// ---------------------------------------------------------------------------
// Creating a rental
// ---------------------------------------------------------------------------

/// Decides on a request of `user_id` to rent, as `rental_decided` lays down,
/// and makes the rental under the identifier `rental_id`.
pub fn create_rental_as(
    user_id: Id,
    request: CreateRentalRequest,
    product: Result<Option<ProductRecord>, DbError>,
    rentals: Result<Vec<RentalRecord>, DbError>,
    rental_id: Id,
) -> (r: Result<NewRental, ApiError>)
    ensures
        rental_decided(user_id, request, product, rentals, r),
        r matches Ok(rental) ==> rental.rental_id == rental_id,
        r is Ok <==> (rentals matches Ok(rows) && rental_acceptable(user_id, request, found(product), rows@)),
{
    let found = match product {
        Ok(Some(p)) => p,
        Ok(None) => {
            return fail(ErrorKind::NotFound, "Product not found");
        },
        Err(_) => {
            return database_failure();
        },
    };
    if !text_eq(found.status.as_str(), "active") {
        return fail(ErrorKind::InvalidState, "Product is not available for rental");
    }
    if found.owner_id == user_id {
        return fail(ErrorKind::InvalidState, "Cannot rent your own product");
    }
    let rows = match rentals {
        Ok(rows) => rows,
        Err(_) => {
            return fail(ErrorKind::Internal, "Failed to check availability");
        },
    };
    let conflicts = find_conflicts(&rows, request.product_id, request.rental_period_start, request.rental_period_end);
    if conflicts.len() != 0 {
        return fail(ErrorKind::Conflict, "Product is not available for the selected dates");
    }
    Ok(NewRental {
        rental_id,
        product_id: request.product_id,
        renter_id: user_id,
        rental_period_start: request.rental_period_start,
        rental_period_end: request.rental_period_end,
        status: owned("requested"),
        pickup_notes: request.pickup_notes,
        return_notes: request.return_notes,
    })
}

/// Decides on a request of `user_id` to rent, as `create_rental_as` does, and
/// makes the rental under a fresh random identifier.
pub fn create_rental(
    user_id: Id,
    request: CreateRentalRequest,
    product: Result<Option<ProductRecord>, DbError>,
    rentals: Result<Vec<RentalRecord>, DbError>,
) -> (r: Result<NewRental, ApiError>)
    ensures
        rental_decided(user_id, request, product, rentals, r),
        r is Ok <==> (rentals matches Ok(rows) && rental_acceptable(user_id, request, found(product), rows@)),
{
    let rental_id = Id::random();
    create_rental_as(user_id, request, product, rentals, rental_id)
}

/// The answer to the request once the accepted rental was written, or was
/// not.
pub fn rental_created(rental_id: Id, written: Result<(), DbError>) -> (r: Result<RentalCreated, ApiError>)
    ensures
        written is Err ==> is_failure(r, ErrorKind::Internal, "Failed to create rental"@),
        written is Ok ==> (r matches Ok(created) && created.rental_id == rental_id
            && created.message@ == "Rental request created successfully"@),
{
    match written {
        Ok(_) => Ok(RentalCreated { rental_id, message: owned("Rental request created successfully") }),
        Err(_) => fail(ErrorKind::Internal, "Failed to create rental"),
    }
}

// ---------------------------------------------------------------------------
// Reading and listing
// ---------------------------------------------------------------------------

/// Hands a rental to `user_id`, who must be its renter or the owner of its
/// product. To anyone else the rental does not exist; nor does one that is
/// missing. A rental that could not be read is an internal failure.
pub fn get_rental<R>(user_id: Id, rental: Result<Option<(RentalParties, R)>, DbError>) -> (r: Result<R, ApiError>)
    ensures
        match rental {
            Err(_) => is_failure(r, ErrorKind::Internal, database_error_message()),
            Ok(Some((parties, row))) if is_party(user_id, parties) => r == Ok::<R, ApiError>(row),
            _ => is_failure(r, ErrorKind::NotFound, "Rental not found"@),
        },
{
    match rental {
        Err(_) => database_failure(),
        Ok(Some((parties, row))) => {
            if parties.renter_id == user_id || parties.owner_id == user_id {
                Ok(row)
            } else {
                fail(ErrorKind::NotFound, "Rental not found")
            }
        },
        Ok(None) => fail(ErrorKind::NotFound, "Rental not found"),
    }
}

/// The window of the page of rentals that `filters` asks for: the first page
/// and twenty rentals where it names none, never more than a hundred. A page
/// whose offset no 64-bit count can hold is refused as invalid.
pub fn list_rentals(filters: &RentalFilters) -> (r: Result<PageWindow, ApiError>)
    ensures
        match r {
            Ok(w) => {
                &&& w.page == page_of(filters.page)
                &&& w.per_page == capped_size(filters.per_page, DEFAULT_PAGE_SIZE)
                &&& w.offset == offset_of(filters.page, filters.per_page)
            },
            Err(e) => {
                &&& !(i64::MIN <= offset_of(filters.page, filters.per_page) <= i64::MAX)
                &&& e.kind == ErrorKind::InvalidState
                &&& e.message@ == "Invalid page"@
            },
        },
{
    match page_window(filters.page, filters.per_page) {
        Some(w) => Ok(w),
        None => fail(ErrorKind::InvalidState, "Invalid page"),
    }
}

/// The count of rows that was read; a count that the database leaves empty
/// is zero.
pub open spec fn counted(total: Option<i64>) -> i64 {
    match total {
        Some(n) => n,
        None => 0,
    }
}

/// The page of rentals that was read for `window`. Where the rentals or
/// their count could not be read the request fails.
pub fn rental_page<R>(
    window: PageWindow,
    rentals: Result<Vec<R>, DbError>,
    total: Result<Option<i64>, DbError>,
) -> (r: Result<RentalListResponse<R>, ApiError>)
    ensures
        match (rentals, total) {
            (Ok(rows), Ok(count)) => r == Ok::<RentalListResponse<R>, ApiError>(
                RentalListResponse {
                    rentals: rows,
                    total: counted(count),
                    page: window.page,
                    per_page: window.per_page,
                },
            ),
            _ => is_failure(r, ErrorKind::Internal, "Failed to fetch rentals"@),
        },
{
    let rows = match rentals {
        Ok(rows) => rows,
        Err(_) => {
            return fail(ErrorKind::Internal, "Failed to fetch rentals");
        },
    };
    let count: i64 = match total {
        Ok(Some(n)) => n,
        Ok(None) => 0,
        Err(_) => {
            return fail(ErrorKind::Internal, "Failed to fetch rentals");
        },
    };
    Ok(RentalListResponse { rentals: rows, total: count, page: window.page, per_page: window.per_page })
}

// ---------------------------------------------------------------------------
// Changing a rental
// ---------------------------------------------------------------------------

/// Decides on a request of `user_id` to change a rental, and hands back the
/// changes to write.
///
/// A rental that could not be read is an internal failure. Only the renter
/// and the owner of the product can reach the rental; to anyone else it does
/// not exist. Only the owner may change the status; the notes either party
/// may change. Any status is taken: no order of statuses is enforced.
pub fn update_rental(
    user_id: Id,
    request: UpdateRentalRequest,
    rental: Result<Option<RentalParties>, DbError>,
) -> (r: Result<UpdateRentalRequest, ApiError>)
    ensures
        match rental {
            Err(_) => is_failure(r, ErrorKind::Internal, database_error_message()),
            Ok(Some(parties)) if is_party(user_id, parties) => {
                if request.status is Some && parties.owner_id != user_id {
                    is_failure(r, ErrorKind::Forbidden, "Only product owner can update rental status"@)
                } else {
                    r == Ok::<UpdateRentalRequest, ApiError>(request)
                }
            },
            _ => is_failure(r, ErrorKind::NotFound, "Rental not found"@),
        },
{
    let parties = match rental {
        Ok(Some(parties)) => parties,
        Ok(None) => {
            return fail(ErrorKind::NotFound, "Rental not found");
        },
        Err(_) => {
            return database_failure();
        },
    };
    if !(parties.renter_id == user_id || parties.owner_id == user_id) {
        return fail(ErrorKind::NotFound, "Rental not found");
    }
    if request.status.is_some() && parties.owner_id != user_id {
        return fail(ErrorKind::Forbidden, "Only product owner can update rental status");
    }
    Ok(request)
}

/// The answer to the request once the changes were written, or were not.
pub fn rental_updated(written: Result<(), DbError>) -> (r: Result<Notice, ApiError>)
    ensures
        written is Err ==> is_failure(r, ErrorKind::Internal, "Failed to update rental"@),
        written is Ok ==> (r matches Ok(notice) && notice.message@ == "Rental updated successfully"@),
{
    match written_or(written, "Failed to update rental") {
        Ok(_) => Ok(notice("Rental updated successfully")),
        Err(e) => Err(e),
    }
}

// ---------------------------------------------------------------------------
// Laws
// ---------------------------------------------------------------------------

/// The place of a conflict among sorted conflicts lies within them, behind
/// every conflict that starts no later and before every one that starts
/// later.
pub proof fn lemma_insert_position(sorted: Seq<RentalConflict>, conflict: RentalConflict)
    requires
        sorted_by_start(sorted),
    ensures
        0 <= insert_position(sorted, conflict) <= sorted.len(),
        forall|j: int| 0 <= j < insert_position(sorted, conflict)
            ==> sorted[j].start_date.micros <= conflict.start_date.micros,
        forall|j: int| insert_position(sorted, conflict) <= j < sorted.len()
            ==> sorted[j].start_date.micros > conflict.start_date.micros,
    decreases sorted.len(),
{
    let p = insert_position(sorted, conflict);
    if sorted.len() == 0 {
    } else if sorted.last().start_date.micros <= conflict.start_date.micros {
        assert forall|j: int| 0 <= j < p implies sorted[j].start_date.micros <= conflict.start_date.micros by {
            assert(sorted[j].start_date.micros <= sorted[sorted.len() - 1].start_date.micros);
        }
    } else {
        let shorter = sorted.drop_last();
        assert(sorted_by_start(shorter)) by {
            assert forall|i: int, j: int| 0 <= i <= j < shorter.len() implies shorter[i].start_date.micros
                <= shorter[j].start_date.micros by {
                assert(shorter[i] == sorted[i] && shorter[j] == sorted[j]);
            }
        }
        lemma_insert_position(shorter, conflict);
        assert forall|j: int| 0 <= j < p implies sorted[j].start_date.micros <= conflict.start_date.micros by {
            assert(sorted[j] == shorter[j]);
        }
        assert forall|j: int| p <= j < sorted.len() implies sorted[j].start_date.micros > conflict.start_date.micros by {
            if j < shorter.len() {
                assert(sorted[j] == shorter[j]);
            }
        }
    }
}

/// Sorting by start yields the same conflicts, each as often as before, and
/// they stand earliest start first.
pub proof fn lemma_sort_by_start(conflicts: Seq<RentalConflict>)
    ensures
        sorted_by_start(sort_by_start(conflicts)),
        sort_by_start(conflicts).to_multiset() == conflicts.to_multiset(),
        sort_by_start(conflicts).len() == conflicts.len(),
    decreases conflicts.len(),
{
    broadcast use {to_multiset_build, to_multiset_insert};
    if conflicts.len() == 0 {
        assert(conflicts =~= Seq::<RentalConflict>::empty());
    } else {
        let shorter = conflicts.drop_last();
        let last = conflicts.last();
        lemma_sort_by_start(shorter);
        let sorted = sort_by_start(shorter);
        lemma_insert_position(sorted, last);
        let p = insert_position(sorted, last);
        let grown = sorted.insert(p, last);
        assert(sorted_by_start(grown)) by {
            assert forall|i: int, j: int| 0 <= i <= j < grown.len() implies grown[i].start_date.micros
                <= grown[j].start_date.micros by {
                if i < p && j > p {
                    assert(grown[i] == sorted[i]);
                    assert(grown[j] == sorted[j - 1]);
                } else if i < p && j < p {
                    assert(grown[i] == sorted[i]);
                    assert(grown[j] == sorted[j]);
                } else if i > p {
                    assert(grown[i] == sorted[i - 1]);
                    assert(grown[j] == sorted[j - 1]);
                }
            }
        }
        assert(conflicts =~= shorter.push(last));
        assert(grown.to_multiset() == sorted.to_multiset().insert(last));
        assert(conflicts.to_multiset() == shorter.to_multiset().insert(last));
    }
}

/// A conflict is among the sorted conflicts exactly when it was among the
/// conflicts.
pub proof fn lemma_sort_keeps_members(conflicts: Seq<RentalConflict>, c: RentalConflict)
    ensures
        sort_by_start(conflicts).contains(c) <==> conflicts.contains(c),
{
    lemma_sort_by_start(conflicts);
    to_multiset_contains(sort_by_start(conflicts), c);
    to_multiset_contains(conflicts, c);
}

/// The rentals reported in the way are those that stand in the way, neither
/// more nor fewer.
pub proof fn lemma_in_order_complete(rentals: Seq<RentalRecord>, product_id: Id, start: Timestamp, end: Timestamp)
    ensures
        forall|c: RentalConflict| conflicts_in_order(rentals, product_id, start, end).contains(c) <==> exists|i: int|
            0 <= i < rentals.len() && conflicts_with(#[trigger] rentals[i], product_id, start, end)
                && c == conflict_of(rentals[i]),
    decreases rentals.len(),
{
    let found = conflicts_in_order(rentals, product_id, start, end);
    if rentals.len() == 0 {
    } else {
        let shorter = rentals.drop_last();
        let last = rentals.last();
        let before = conflicts_in_order(shorter, product_id, start, end);
        lemma_in_order_complete(shorter, product_id, start, end);
        assert forall|c: RentalConflict| found.contains(c) <==> exists|i: int|
            0 <= i < rentals.len() && conflicts_with(#[trigger] rentals[i], product_id, start, end)
                && c == conflict_of(rentals[i]) by {
            if found.contains(c) {
                if before.contains(c) {
                    let i = choose|i: int| 0 <= i < shorter.len() && conflicts_with(#[trigger] shorter[i], product_id, start, end)
                        && c == conflict_of(shorter[i]);
                    assert(rentals[i] == shorter[i]);
                } else {
                    assert(conflicts_with(last, product_id, start, end));
                    let k = choose|k: int| 0 <= k < found.len() && found[k] == c;
                    if k < before.len() {
                        assert(before[k] == c);
                    }
                    assert(c == conflict_of(last));
                    assert(rentals[rentals.len() - 1] == last);
                }
            }
            if exists|i: int| 0 <= i < rentals.len() && conflicts_with(#[trigger] rentals[i], product_id, start, end)
                && c == conflict_of(rentals[i]) {
                let i = choose|i: int| 0 <= i < rentals.len() && conflicts_with(#[trigger] rentals[i], product_id, start, end)
                    && c == conflict_of(rentals[i]);
                if i < shorter.len() {
                    assert(shorter[i] == rentals[i]);
                    assert(before.contains(c));
                    let k = choose|k: int| 0 <= k < before.len() && before[k] == c;
                    assert(found[k] == c);
                } else {
                    assert(rentals[i] == last);
                    assert(found[found.len() - 1] == c);
                }
            }
        }
    }
}

/// The answer of the availability checker holds the rentals that stand in
/// the way, neither more nor fewer.
pub proof fn lemma_conflicts_complete(rentals: Seq<RentalRecord>, product_id: Id, start: Timestamp, end: Timestamp)
    ensures
        forall|c: RentalConflict| conflicts_of(rentals, product_id, start, end).contains(c) <==> exists|i: int|
            0 <= i < rentals.len() && conflicts_with(#[trigger] rentals[i], product_id, start, end)
                && c == conflict_of(rentals[i]),
{
    let found = conflicts_in_order(rentals, product_id, start, end);
    lemma_in_order_complete(rentals, product_id, start, end);
    assert forall|c: RentalConflict| conflicts_of(rentals, product_id, start, end).contains(c) <==> exists|i: int|
        0 <= i < rentals.len() && conflicts_with(#[trigger] rentals[i], product_id, start, end)
            && c == conflict_of(rentals[i]) by {
        lemma_sort_keeps_members(found, c);
        assert(conflicts_of(rentals, product_id, start, end).contains(c) <==> found.contains(c));
    }
}

/// The answer of the availability checker stands earliest start first.
pub proof fn lemma_conflicts_sorted(rentals: Seq<RentalRecord>, product_id: Id, start: Timestamp, end: Timestamp)
    ensures
        sorted_by_start(conflicts_of(rentals, product_id, start, end)),
{
    lemma_sort_by_start(conflicts_in_order(rentals, product_id, start, end));
}

/// Nothing is reported in the way exactly when nothing stands in the way.
pub proof fn lemma_no_conflicts_iff_none_reported(rentals: Seq<RentalRecord>, product_id: Id, start: Timestamp, end: Timestamp)
    ensures
        conflicts_of(rentals, product_id, start, end).len() == 0 <==> !has_conflict(rentals, product_id, start, end),
{
    let reported = conflicts_of(rentals, product_id, start, end);
    lemma_conflicts_complete(rentals, product_id, start, end);
    if has_conflict(rentals, product_id, start, end) {
        let i = choose|i: int| 0 <= i < rentals.len() && conflicts_with(#[trigger] rentals[i], product_id, start, end);
        assert(reported.contains(conflict_of(rentals[i])));
    }
    if reported.len() > 0 {
        assert(reported.contains(reported[0]));
    }
}

/// Two blocking rentals of a product that the availability checker does not
/// report for a candidate interval do not overlap that interval: neither
/// begins before the interval ends while ending after it begins, nor do they
/// touch it.
pub proof fn lemma_unreported_rentals_do_not_overlap(
    rentals: Seq<RentalRecord>,
    product_id: Id,
    start: Timestamp,
    end: Timestamp,
    first: int,
    second: int,
)
    requires
        0 <= first < rentals.len(),
        0 <= second < rentals.len(),
        rentals[first].product_id == product_id,
        rentals[second].product_id == product_id,
        is_blocking_status(rentals[first].status@),
        is_blocking_status(rentals[second].status@),
        !conflicts_of(rentals, product_id, start, end).contains(conflict_of(rentals[first])),
        !conflicts_of(rentals, product_id, start, end).contains(conflict_of(rentals[second])),
    ensures
        !overlaps(rentals[first].rental_period_start, rentals[first].rental_period_end, start, end),
        !overlaps(rentals[second].rental_period_start, rentals[second].rental_period_end, start, end),
{
    lemma_conflicts_complete(rentals, product_id, start, end);
    if overlaps(rentals[first].rental_period_start, rentals[first].rental_period_end, start, end) {
        assert(conflicts_with(rentals[first], product_id, start, end));
    }
    if overlaps(rentals[second].rental_period_start, rentals[second].rental_period_end, start, end) {
        assert(conflicts_with(rentals[second], product_id, start, end));
    }
}

/// True when the two outcomes say the same: the same failure, or the same
/// availability with the same rentals in the way, in the same order.
pub open spec fn same_answer(
    first: Result<AvailabilityResponse, ApiError>,
    second: Result<AvailabilityResponse, ApiError>,
) -> bool {
    match (first, second) {
        (Ok(a), Ok(b)) => a.available == b.available && a.conflicting_rentals@ == b.conflicting_rentals@,
        (Err(a), Err(b)) => a.kind == b.kind && a.message@ == b.message@,
        _ => false,
    }
}

/// Asking twice about the same product and interval, with the same rentals
/// recorded, gives the same answer: the answer is a function of what is asked
/// and what is recorded.
pub proof fn lemma_availability_repeatable(
    request: AvailabilityRequest,
    product: Result<Option<ProductRecord>, DbError>,
    rentals: Result<Vec<RentalRecord>, DbError>,
    first: Result<AvailabilityResponse, ApiError>,
    second: Result<AvailabilityResponse, ApiError>,
)
    requires
        availability_answered(request, product, rentals, first),
        availability_answered(request, product, rentals, second),
    ensures
        same_answer(first, second),
{
    match product {
        Ok(Some(p)) => {
            if !is_active_status(p.status@) {
                assert(first->Ok_0.conflicting_rentals@ =~= second->Ok_0.conflicting_rentals@);
            }
        },
        _ => {},
    }
}

/// Intervals that touch overlap: a rental that begins at the instant at which
/// the candidate interval ends stands in its way.
pub proof fn lemma_touching_intervals_overlap(a_start: Timestamp, meet: Timestamp, b_end: Timestamp)
    requires
        a_start.micros <= meet.micros <= b_end.micros,
    ensures
        overlaps(a_start, meet, meet, b_end),
        overlaps(meet, b_end, a_start, meet),
{
}

/// For intervals that do not end before they begin, two intervals overlap
/// exactly when the first holds the start of the second, or holds its end, or
/// lies within it.
pub proof fn lemma_overlap_by_cases(a_start: Timestamp, a_end: Timestamp, b_start: Timestamp, b_end: Timestamp)
    requires
        a_start.micros <= a_end.micros,
        b_start.micros <= b_end.micros,
    ensures
        overlaps(a_start, a_end, b_start, b_end) <==> {
            ||| a_start.micros <= b_start.micros <= a_end.micros
            ||| a_start.micros <= b_end.micros <= a_end.micros
            ||| b_start.micros <= a_start.micros && a_end.micros <= b_end.micros
        },
{
}

/// Recording an accepted rental keeps the bookings exclusive: where no two
/// blocking rentals of one product overlapped before, none do after.
pub proof fn lemma_accepted_rental_keeps_bookings_exclusive(
    rentals: Seq<RentalRecord>,
    user_id: Id,
    request: CreateRentalRequest,
    product: ProductRecord,
    rental: NewRental,
)
    requires
        bookings_exclusive(rentals),
        rental_acceptable(user_id, request, Some(product), rentals),
        rental == rental_requested(user_id, request, rental.rental_id, rental.status),
    ensures
        bookings_exclusive(rentals.push(record_of(rental))),
{
    let grown = rentals.push(record_of(rental));
    assert forall|i: int, j: int| 0 <= i < j < grown.len()
        && grown[i].product_id == grown[j].product_id
        && is_blocking_status(grown[i].status@)
        && is_blocking_status(grown[j].status@)
        implies !overlaps(
            grown[i].rental_period_start, grown[i].rental_period_end,
            grown[j].rental_period_start, grown[j].rental_period_end) by {
        if j < rentals.len() {
            assert(grown[i] == rentals[i] && grown[j] == rentals[j]);
        } else {
            assert(grown[i] == rentals[i]);
            assert(!conflicts_with(rentals[i], request.product_id, request.rental_period_start, request.rental_period_end));
        }
    }
}

/// Of two requests for one product over overlapping intervals that are
/// decided one after the other, the second is refused once the first was
/// accepted and recorded: an accepted rental is in status `requested`, which
/// blocks the product.
pub proof fn lemma_second_of_two_overlapping_requests_is_refused(
    rentals: Seq<RentalRecord>,
    first_user: Id,
    first: CreateRentalRequest,
    accepted: NewRental,
    second_user: Id,
    second: CreateRentalRequest,
    product: Option<ProductRecord>,
)
    requires
        accepted == rental_requested(first_user, first, accepted.rental_id, accepted.status),
        accepted.status@ == "requested"@,
        first.product_id == second.product_id,
        overlaps(
            first.rental_period_start, first.rental_period_end,
            second.rental_period_start, second.rental_period_end),
    ensures
        !rental_acceptable(second_user, second, product, rentals.push(record_of(accepted))),
{
    let grown = rentals.push(record_of(accepted));
    assert(grown[rentals.len() as int] == record_of(accepted));
    lemma_overlapping_request_is_refused(grown, rentals.len() as int, second_user, second, product);
}

/// Once a rental is recorded in a blocking status, no request for the same
/// product over an interval that overlaps it is acceptable, whoever asks.
pub proof fn lemma_overlapping_request_is_refused(
    rentals: Seq<RentalRecord>,
    booked: int,
    user_id: Id,
    request: CreateRentalRequest,
    product: Option<ProductRecord>,
)
    requires
        0 <= booked < rentals.len(),
        is_blocking_status(rentals[booked].status@),
        rentals[booked].product_id == request.product_id,
        overlaps(
            rentals[booked].rental_period_start, rentals[booked].rental_period_end,
            request.rental_period_start, request.rental_period_end),
    ensures
        has_conflict(rentals, request.product_id, request.rental_period_start, request.rental_period_end),
        !rental_acceptable(user_id, request, product, rentals),
{
    assert(conflicts_with(rentals[booked], request.product_id, request.rental_period_start, request.rental_period_end));
}

} // verus!

use chrono::{Duration, Utc};
use monolith_server::error::{ApiError, DbError, ErrorKind};
use monolith_server::ids::Id;
use monolith_server::pagination::PageWindow;
use monolith_server::rental::{
    get_rental, intervals_overlap, is_blocking, list_rentals, rental_created, rental_page, rental_updated,
    update_rental, AvailabilityRequest, CreateRentalRequest, RentalFilters, RentalParties, UpdateRentalRequest,
};
use monolith_server::time::Timestamp;
use uuid::Uuid;

fn instant(at: chrono::DateTime<Utc>) -> Timestamp {
    Timestamp::from_micros(at.timestamp_micros())
}

fn fresh_id() -> Id {
    Id::from_bits(Uuid::new_v4().as_u128())
}

fn failure(kind: ErrorKind, message: &str) -> ApiError {
    ApiError { kind, message: message.to_string() }
}

#[test]
fn test_create_rental_request_validation() {
    let start_date = Utc::now() + Duration::days(1);
    let end_date = Utc::now() + Duration::days(3);

    let request = CreateRentalRequest {
        product_id: fresh_id(),
        rental_period_start: instant(start_date),
        rental_period_end: instant(end_date),
        pickup_notes: Some("Please call before pickup".to_string()),
        return_notes: Some("Return to same location".to_string()),
    };

    assert!(request.rental_period_start.micros < request.rental_period_end.micros);
    assert_eq!(request.pickup_notes.as_ref().unwrap(), "Please call before pickup");
    assert_eq!(request.return_notes.as_ref().unwrap(), "Return to same location");
}

#[test]
fn test_update_rental_request_validation() {
    let request = UpdateRentalRequest {
        status: Some("confirmed".to_string()),
        pickup_notes: Some("Updated pickup instructions".to_string()),
        return_notes: None,
    };

    assert_eq!(request.status.as_ref().unwrap(), "confirmed");
    assert_eq!(request.pickup_notes.as_ref().unwrap(), "Updated pickup instructions");
    assert!(request.return_notes.is_none());
}

#[test]
fn test_availability_request_validation() {
    let start_date = Utc::now() + Duration::days(1);
    let end_date = Utc::now() + Duration::days(5);

    let request = AvailabilityRequest {
        product_id: fresh_id(),
        start_date: instant(start_date),
        end_date: instant(end_date),
    };

    assert!(request.start_date.micros < request.end_date.micros);
    assert!(request.start_date.micros > Timestamp::now().micros);
}

#[test]
fn test_rental_filters_validation() {
    let filters = RentalFilters { status: Some("active".to_string()), page: Some(1), per_page: Some(10) };

    assert_eq!(filters.status.as_ref().unwrap(), "active");
    assert_eq!(filters.page.unwrap(), 1);
    assert_eq!(filters.per_page.unwrap(), 10);
}

#[test]
fn test_rental_period_validation() {
    let now = Utc::now();
    let start_date = now + Duration::days(1);
    let end_date = now + Duration::days(3);

    assert!(start_date > now);
    assert!(end_date > start_date);

    let min_rental = end_date - start_date;
    assert!(min_rental >= Duration::days(1));
    assert_eq!(instant(end_date).micros - instant(start_date).micros, 2 * 86_400_000_000);
}

#[test]
fn test_rental_status_validation() {
    let valid_statuses = vec!["requested", "confirmed", "active", "completed", "cancelled"];

    for status in valid_statuses {
        let request = UpdateRentalRequest { status: Some(status.to_string()), pickup_notes: None, return_notes: None };

        assert_eq!(request.status.as_ref().unwrap(), status);
    }
}

#[test]
fn test_future_dates_validation() {
    let past_date = Utc::now() - Duration::days(1);
    let future_date = Utc::now() + Duration::days(1);

    assert!(past_date < Utc::now());
    assert!(future_date > Utc::now());
    assert!(instant(past_date).micros < Timestamp::now().micros);
    assert!(instant(future_date).micros > Timestamp::now().micros);
}

#[test]
fn test_rental_duration_calculation() {
    let start_date = Utc::now() + Duration::days(1);
    let end_date = Utc::now() + Duration::days(5);

    let duration = end_date - start_date;
    assert_eq!(duration.num_days(), 4);
    assert!(duration > Duration::zero());
}

#[test]
fn blocking_statuses_are_the_three_open_ones() {
    assert!(is_blocking("requested"));
    assert!(is_blocking("confirmed"));
    assert!(is_blocking("active"));
    assert!(!is_blocking("completed"));
    assert!(!is_blocking("cancelled"));
    assert!(!is_blocking("Active"));
    assert!(!is_blocking(""));
}

#[test]
fn overlap_is_inclusive_at_both_ends() {
    let t = Timestamp::from_micros;
    assert!(intervals_overlap(t(10), t(12), t(12), t(14)));
    assert!(intervals_overlap(t(12), t(14), t(10), t(12)));
    assert!(!intervals_overlap(t(10), t(12), t(13), t(14)));
    assert!(!intervals_overlap(t(13), t(14), t(10), t(12)));
    assert!(intervals_overlap(t(10), t(20), t(12), t(14)));
    assert!(intervals_overlap(t(12), t(14), t(10), t(20)));
    assert!(intervals_overlap(t(5), t(5), t(5), t(5)));
}

#[test]
fn rental_is_visible_to_its_parties_only() {
    let parties = RentalParties { renter_id: Id::from_bits(1), owner_id: Id::from_bits(2) };
    assert_eq!(get_rental(Id::from_bits(1), Ok(Some((parties, "row")))), Ok("row"));
    assert_eq!(get_rental(Id::from_bits(2), Ok(Some((parties, "row")))), Ok("row"));
    let not_found = Err(failure(ErrorKind::NotFound, "Rental not found"));
    assert_eq!(get_rental(Id::from_bits(3), Ok(Some((parties, "row")))), not_found);
    assert_eq!(get_rental::<&str>(Id::from_bits(1), Ok(None)), not_found);
    assert_eq!(
        get_rental::<&str>(Id::from_bits(1), Err(DbError {})),
        Err(failure(ErrorKind::Internal, "Database error"))
    );
}

#[test]
fn only_the_owner_changes_the_status() {
    let parties = RentalParties { renter_id: Id::from_bits(1), owner_id: Id::from_bits(2) };
    let with_status = UpdateRentalRequest { status: Some("confirmed".to_string()), pickup_notes: None, return_notes: None };
    let notes_only = UpdateRentalRequest { status: None, pickup_notes: Some("ring twice".to_string()), return_notes: None };
    assert_eq!(update_rental(Id::from_bits(2), with_status.clone(), Ok(Some(parties))), Ok(with_status.clone()));
    assert_eq!(
        update_rental(Id::from_bits(1), with_status.clone(), Ok(Some(parties))),
        Err(failure(ErrorKind::Forbidden, "Only product owner can update rental status"))
    );
    assert_eq!(update_rental(Id::from_bits(1), notes_only.clone(), Ok(Some(parties))), Ok(notes_only.clone()));
    assert_eq!(update_rental(Id::from_bits(2), notes_only.clone(), Ok(Some(parties))), Ok(notes_only.clone()));
    let not_found = Err(failure(ErrorKind::NotFound, "Rental not found"));
    assert_eq!(update_rental(Id::from_bits(3), notes_only.clone(), Ok(Some(parties))), not_found);
    assert_eq!(update_rental(Id::from_bits(1), notes_only.clone(), Ok(None)), not_found);
    assert_eq!(
        update_rental(Id::from_bits(1), notes_only, Err(DbError {})),
        Err(failure(ErrorKind::Internal, "Database error"))
    );
    let backwards = UpdateRentalRequest { status: Some("requested".to_string()), pickup_notes: None, return_notes: None };
    assert_eq!(update_rental(Id::from_bits(2), backwards.clone(), Ok(Some(parties))), Ok(backwards));
}

#[test]
fn rental_writes_are_reported() {
    let created = rental_created(Id::from_bits(9), Ok(())).unwrap();
    assert_eq!(created.rental_id, Id::from_bits(9));
    assert_eq!(created.message, "Rental request created successfully");
    assert_eq!(rental_created(Id::from_bits(9), Err(DbError {})), Err(failure(ErrorKind::Internal, "Failed to create rental")));
    assert_eq!(rental_updated(Ok(())).unwrap().message, "Rental updated successfully");
    assert_eq!(rental_updated(Err(DbError {})), Err(failure(ErrorKind::Internal, "Failed to update rental")));
}

#[test]
fn rental_pages_default_to_twenty_and_cap_at_a_hundred() {
    let filters = RentalFilters { status: None, page: None, per_page: None };
    assert_eq!(list_rentals(&filters), Ok(PageWindow { page: 1, per_page: 20, offset: 0 }));
    let filters = RentalFilters { status: None, page: Some(3), per_page: Some(500) };
    assert_eq!(list_rentals(&filters), Ok(PageWindow { page: 3, per_page: 100, offset: 200 }));
    let filters = RentalFilters { status: None, page: Some(4), per_page: Some(25) };
    assert_eq!(list_rentals(&filters), Ok(PageWindow { page: 4, per_page: 25, offset: 75 }));
    let filters = RentalFilters { status: None, page: Some(i64::MAX), per_page: Some(100) };
    assert_eq!(list_rentals(&filters), Err(failure(ErrorKind::InvalidState, "Invalid page")));
}

#[test]
fn rental_page_needs_the_rentals_and_their_count() {
    let window = PageWindow { page: 2, per_page: 10, offset: 10 };
    let page = rental_page(window, Ok(vec!["a", "b"]), Ok(Some(12))).unwrap();
    assert_eq!(page.rentals, vec!["a", "b"]);
    assert_eq!((page.total, page.page, page.per_page), (12, 2, 10));
    assert_eq!(
        rental_page(window, Ok(vec!["a"]), Err(DbError {})),
        Err(failure(ErrorKind::Internal, "Failed to fetch rentals"))
    );
    assert_eq!(rental_page(window, Ok(vec!["a"]), Ok(None)).unwrap().total, 0);
    assert_eq!(
        rental_page::<&str>(window, Err(DbError {}), Ok(Some(3))),
        Err(failure(ErrorKind::Internal, "Failed to fetch rentals"))
    );
}

use monolith_server::error::{ApiError, DbError, ErrorKind};
use monolith_server::ids::Id;
use monolith_server::rental::{
    check_availability, create_rental, create_rental_as, find_conflicts, AvailabilityRequest,
    CreateRentalRequest, ProductRecord, RentalRecord,
};
use monolith_server::time::Timestamp;

const HOUR: i64 = 3_600_000_000;
const DAY: i64 = 24 * HOUR;

fn at(micros: i64) -> Timestamp {
    Timestamp::from_micros(micros)
}

fn product(id: u128, owner: u128, status: &str) -> ProductRecord {
    ProductRecord { product_id: Id::from_bits(id), owner_id: Id::from_bits(owner), status: status.to_string() }
}

fn rental(id: u128, product: u128, start: i64, end: i64, status: &str) -> RentalRecord {
    RentalRecord {
        rental_id: Id::from_bits(id),
        product_id: Id::from_bits(product),
        renter_id: Id::from_bits(900),
        rental_period_start: at(start),
        rental_period_end: at(end),
        status: status.to_string(),
    }
}

fn request(product: u128, start: i64, end: i64) -> CreateRentalRequest {
    CreateRentalRequest {
        product_id: Id::from_bits(product),
        rental_period_start: at(start),
        rental_period_end: at(end),
        pickup_notes: None,
        return_notes: None,
    }
}

fn failure(kind: ErrorKind, message: &str) -> ApiError {
    ApiError { kind, message: message.to_string() }
}

#[test]
fn touching_intervals_conflict() {
    let rows = vec![rental(1, 7, 12 * HOUR, 14 * HOUR, "confirmed")];
    let answer = check_availability(
        AvailabilityRequest { product_id: Id::from_bits(7), start_date: at(10 * HOUR), end_date: at(12 * HOUR) },
        Ok(Some(product(7, 1, "active"))),
        Ok(rows),
    )
    .unwrap();
    assert!(!answer.available);
    assert_eq!(answer.conflicting_rentals.len(), 1);
    assert_eq!(answer.conflicting_rentals[0].rental_id, Id::from_bits(1));
    assert_eq!(answer.conflicting_rentals[0].start_date, at(12 * HOUR));
    assert_eq!(answer.conflicting_rentals[0].end_date, at(14 * HOUR));
    assert_eq!(answer.conflicting_rentals[0].status, "confirmed");
}

#[test]
fn second_overlapping_rental_is_a_conflict() {
    let item = product(7, 1, "active");
    let user_a = Id::from_bits(100);
    let user_b = Id::from_bits(200);
    let mut rows: Vec<RentalRecord> = Vec::new();
    let first = create_rental(user_a, request(7, DAY, 3 * DAY), Ok(Some(item.clone())), Ok(rows.clone())).unwrap();
    assert_eq!(first.status, "requested");
    assert_eq!(first.renter_id, user_a);
    assert_eq!(first.product_id, Id::from_bits(7));
    assert_eq!(first.rental_period_start, at(DAY));
    assert_eq!(first.rental_period_end, at(3 * DAY));
    rows.push(RentalRecord {
        rental_id: first.rental_id,
        product_id: first.product_id,
        renter_id: first.renter_id,
        rental_period_start: first.rental_period_start,
        rental_period_end: first.rental_period_end,
        status: first.status.clone(),
    });
    let second = create_rental(user_b, request(7, 2 * DAY, 4 * DAY), Ok(Some(item)), Ok(rows));
    assert_eq!(second, Err(failure(ErrorKind::Conflict, "Product is not available for the selected dates")));
}

#[test]
fn renting_own_product_is_invalid() {
    let r = create_rental(Id::from_bits(1), request(7, DAY, 2 * DAY), Ok(Some(product(7, 1, "active"))), Ok(vec![]));
    assert_eq!(r, Err(failure(ErrorKind::InvalidState, "Cannot rent your own product")));
}

#[test]
fn inactive_product_is_never_available() {
    let rows = vec![rental(1, 7, DAY, 2 * DAY, "active"), rental(2, 7, 3 * DAY, 4 * DAY, "requested")];
    let answer = check_availability(
        AvailabilityRequest { product_id: Id::from_bits(7), start_date: at(DAY), end_date: at(5 * DAY) },
        Ok(Some(product(7, 1, "inactive"))),
        Ok(rows),
    )
    .unwrap();
    assert!(!answer.available);
    assert!(answer.conflicting_rentals.is_empty());
}

#[test]
fn conflicts_come_sorted_by_start_and_skip_other_rentals() {
    let rows = vec![
        rental(1, 7, 5 * DAY, 6 * DAY, "active"),
        rental(2, 7, 2 * DAY, 3 * DAY, "requested"),
        rental(3, 7, 4 * DAY, 5 * DAY, "completed"),
        rental(4, 8, 2 * DAY, 3 * DAY, "active"),
        rental(5, 7, 2 * DAY, 9 * DAY, "confirmed"),
        rental(6, 7, 1 * DAY, 2 * DAY - 1, "confirmed"),
        rental(7, 7, 3 * DAY, 4 * DAY, "cancelled"),
    ];
    let found = find_conflicts(&rows, Id::from_bits(7), at(2 * DAY), at(5 * DAY));
    let ids: Vec<u128> = found.iter().map(|c| c.rental_id.bits).collect();
    assert_eq!(ids, vec![2, 5, 1]);
}

#[test]
fn create_rental_errors_in_order() {
    let user = Id::from_bits(100);
    let missing = create_rental(user, request(7, DAY, 2 * DAY), Ok(None), Ok(vec![]));
    assert_eq!(missing, Err(failure(ErrorKind::NotFound, "Product not found")));
    let unread = create_rental(user, request(7, DAY, 2 * DAY), Err(DbError {}), Ok(vec![]));
    assert_eq!(unread, Err(failure(ErrorKind::Internal, "Database error")));
    let both_unread = create_rental(user, request(7, DAY, 2 * DAY), Err(DbError {}), Err(DbError {}));
    assert_eq!(both_unread, Err(failure(ErrorKind::Internal, "Database error")));
    let inactive = create_rental(user, request(7, DAY, 2 * DAY), Ok(Some(product(7, 100, "deleted"))), Ok(vec![]));
    assert_eq!(inactive, Err(failure(ErrorKind::InvalidState, "Product is not available for rental")));
    let failed = create_rental(user, request(7, DAY, 2 * DAY), Ok(Some(product(7, 1, "active"))), Err(DbError {}));
    assert_eq!(failed, Err(failure(ErrorKind::Internal, "Failed to check availability")));
    let made = create_rental_as(user, request(7, DAY, 2 * DAY), Ok(Some(product(7, 1, "active"))), Ok(vec![]), Id::from_bits(55)).unwrap();
    assert_eq!(made.rental_id, Id::from_bits(55));
}

#[test]
fn asking_twice_gives_the_same_answer() {
    let rows = vec![
        rental(1, 7, 5 * DAY, 6 * DAY, "active"),
        rental(2, 7, 2 * DAY, 3 * DAY, "requested"),
        rental(3, 7, 2 * DAY, 3 * DAY, "confirmed"),
    ];
    let ask = || {
        check_availability(
            AvailabilityRequest { product_id: Id::from_bits(7), start_date: at(DAY), end_date: at(9 * DAY) },
            Ok(Some(product(7, 1, "active"))),
            Ok(rows.clone()),
        )
    };
    let first = ask().unwrap();
    let second = ask().unwrap();
    assert_eq!(first, second);
    let ids: Vec<u128> = first.conflicting_rentals.iter().map(|c| c.rental_id.bits).collect();
    assert_eq!(ids, vec![2, 3, 1]);
}

#[test]
fn availability_needs_a_product_and_its_rentals() {
    let request = AvailabilityRequest { product_id: Id::from_bits(7), start_date: at(DAY), end_date: at(2 * DAY) };
    assert_eq!(check_availability(request, Ok(None), Ok(vec![])), Err(failure(ErrorKind::NotFound, "Product not found")));
    assert_eq!(
        check_availability(request, Err(DbError {}), Ok(vec![])),
        Err(failure(ErrorKind::Internal, "Database error"))
    );
    assert_eq!(
        check_availability(request, Ok(Some(product(7, 1, "active"))), Err(DbError {})),
        Err(failure(ErrorKind::Internal, "Failed to check availability"))
    );
    let free = check_availability(request, Ok(Some(product(7, 1, "active"))), Ok(vec![])).unwrap();
    assert!(free.available);
    assert!(free.conflicting_rentals.is_empty());
    let unread = check_availability(request, Ok(Some(product(7, 1, "deleted"))), Err(DbError {})).unwrap();
    assert!(!unread.available);
    assert!(unread.conflicting_rentals.is_empty());
}

#[test]
fn accepted_rentals_never_overlap_on_one_product() {
    let item = product(7, 1, "active");
    let mut rows: Vec<RentalRecord> = Vec::new();
    let asked = [(1, 3), (2, 4), (4, 6), (3, 3), (7, 9), (6, 7), (10, 12), (0, 0), (13, 20), (12, 13)];
    let mut accepted = Vec::new();
    for (start, end) in asked {
        let outcome = create_rental(Id::from_bits(100), request(7, start * DAY, end * DAY), Ok(Some(item.clone())), Ok(rows.clone()));
        if let Ok(made) = outcome {
            accepted.push((start, end));
            rows.push(RentalRecord {
                rental_id: made.rental_id,
                product_id: made.product_id,
                renter_id: made.renter_id,
                rental_period_start: made.rental_period_start,
                rental_period_end: made.rental_period_end,
                status: made.status,
            });
        }
    }
    assert_eq!(accepted, vec![(1, 3), (4, 6), (7, 9), (10, 12), (0, 0), (13, 20)]);
    for a in 0..rows.len() {
        for b in (a + 1)..rows.len() {
            let apart = rows[a].rental_period_end.micros < rows[b].rental_period_start.micros
                || rows[b].rental_period_end.micros < rows[a].rental_period_start.micros;
            assert!(apart);
        }
    }
}

#[test]
fn finished_rentals_do_not_block() {
    let rows = vec![rental(1, 7, DAY, 3 * DAY, "completed"), rental(2, 7, DAY, 3 * DAY, "cancelled"), rental(3, 8, DAY, 3 * DAY, "active")];
    let made = create_rental(Id::from_bits(100), request(7, 2 * DAY, 4 * DAY), Ok(Some(product(7, 1, "active"))), Ok(rows));
    assert!(made.is_ok());
}

//! Reviews: of products by those who rented them, and of renters and owners
//! by each other.

use vstd::prelude::*;
use crate::error::{
    database_error_message, database_failure, fail, is_failure, read_or_fail, ApiError, DbError, ErrorKind,
};
use crate::ids::Id;
use crate::pagination::{capped_size, limit_window, LimitWindow, DEFAULT_PAGE_SIZE};
use crate::payment::Stamp;
use crate::text::{decimal, decimal_text, join2, join4, owned, text_eq};
use crate::time::Timestamp;

verus! {

/// A request to review a product, after a rental of it or without one.
#[derive(Clone, Debug, PartialEq, Eq)]
pub struct CreateProductReviewRequest {
    pub product_id: Id,
    pub rental_id: Option<Id>,
    pub rating: i32,
    pub title: Option<String>,
    pub content: Option<String>,
}

/// A request to review the other party of a rental: `renter` when the owner
/// reviews the renter, `owner` when the renter reviews the owner.
#[derive(Clone, Debug, PartialEq, Eq)]
pub struct CreateUserReviewRequest {
    pub reviewed_user_id: Id,
    pub rental_id: Id,
    pub review_type: String,
    pub rating: i32,
    pub title: Option<String>,
    pub content: Option<String>,
}

/// The query of a listing of reviews.
#[derive(Clone, Debug, PartialEq, Eq)]
pub struct ReviewFilters {
    pub product_id: Option<Id>,
    pub reviewed_user_id: Option<Id>,
    pub reviewer_id: Option<Id>,
    pub rating: Option<i32>,
    pub review_type: Option<String>,
    pub status: Option<String>,
    pub limit: Option<i64>,
    pub offset: Option<i64>,
}

/// A recorded review of a product.
#[derive(Clone, Debug, PartialEq, Eq)]
pub struct ProductReviewResponse {
    pub id: Id,
    pub product_id: Id,
    pub reviewer_id: Id,
    pub rental_id: Option<Id>,
    pub rating: i32,
    pub title: Option<String>,
    pub content: Option<String>,
    pub is_verified_rental: bool,
    pub status: String,
    pub created_at: Timestamp,
    pub updated_at: Timestamp,
    pub reviewer_name: Option<String>,
}

/// A recorded review of a user.
#[derive(Clone, Debug, PartialEq, Eq)]
pub struct UserReviewResponse {
    pub id: Id,
    pub reviewed_user_id: Id,
    pub reviewer_id: Id,
    pub rental_id: Id,
    pub review_type: String,
    pub rating: i32,
    pub title: Option<String>,
    pub content: Option<String>,
    pub status: String,
    pub created_at: Timestamp,
    pub updated_at: Timestamp,
    pub reviewer_name: Option<String>,
    pub reviewed_user_name: Option<String>,
}

/// How often a rating was given.
#[derive(Clone, Copy, Debug, PartialEq, Eq, Structural)]
pub struct RatingCount {
    pub rating: i32,
    pub count: i64,
}

/// The statistics of the reviews of a product. `A` is the type of the
/// average rating.
#[derive(Clone, Debug, PartialEq, Eq)]
pub struct ReviewStatsResponse<A> {
    pub average_rating: A,
    pub total_reviews: i64,
    pub rating_distribution: Vec<RatingCount>,
}

/// The statistics as the database gives them: any of them may be absent.
#[derive(Clone, Copy, Debug, PartialEq, Eq)]
pub struct ReviewStats<A> {
    pub avg_rating: Option<A>,
    pub total_reviews: Option<i64>,
    pub rating_1: Option<i64>,
    pub rating_2: Option<i64>,
    pub rating_3: Option<i64>,
    pub rating_4: Option<i64>,
    pub rating_5: Option<i64>,
}

/// The names in a profile, either of which may be absent.
#[derive(Clone, Debug, PartialEq, Eq)]
pub struct ProfileName {
    pub first_name: Option<String>,
    pub last_name: Option<String>,
}

/// A review of a product that was accepted and is to be recorded.
#[derive(Clone, Debug, PartialEq, Eq)]
pub struct NewProductReview {
    pub product_id: Id,
    pub reviewer_id: Id,
    pub rental_id: Option<Id>,
    pub rating: i32,
    pub title: Option<String>,
    pub content: Option<String>,
    pub is_verified_rental: bool,
}

/// A review of a user that was accepted and is to be recorded.
#[derive(Clone, Debug, PartialEq, Eq)]
pub struct NewUserReview {
    pub reviewed_user_id: Id,
    pub reviewer_id: Id,
    pub rental_id: Id,
    pub review_type: String,
    pub rating: i32,
    pub title: Option<String>,
    pub content: Option<String>,
}

/// What a listing of reviews asks the database for.
#[derive(Clone, Debug, PartialEq, Eq)]
pub struct ReviewQuery {
    pub status: String,
    pub window: LimitWindow,
}

/// The lowest rating.
pub const MIN_RATING: i32 = 1;

/// The highest rating.
pub const MAX_RATING: i32 = 5;

// ---------------------------------------------------------------------------
// The model
// ---------------------------------------------------------------------------

/// True for the ratings that can be given: one to five.
pub open spec fn is_rating(rating: i32) -> bool {
    MIN_RATING <= rating <= MAX_RATING
}

/// True for the two kinds of review of a user.
pub open spec fn is_review_type(review_type: Seq<char>) -> bool {
    review_type == "renter"@ || review_type == "owner"@
}

/// True when `user_id` may review `reviewed` for a rental with the given
/// renter and owner: the owner reviews the renter in a review of kind
/// `renter`, the renter reviews the owner in one of kind `owner`.
pub open spec fn may_review(review_type: Seq<char>, user_id: Id, reviewed: Id, renter: Id, owner: Id) -> bool {
    if review_type == "renter"@ {
        owner == user_id && renter == reviewed
    } else if review_type == "owner"@ {
        renter == user_id && owner == reviewed
    } else {
        false
    }
}

/// The name that a review shows: the first name, a space, the last name,
/// with an absent name left empty.
pub open spec fn shown_name(profile: ProfileName) -> Seq<char> {
    (match profile.first_name {
        Some(n) => n@,
        None => Seq::empty(),
    }) + " "@ + (match profile.last_name {
        Some(n) => n@,
        None => Seq::empty(),
    })
}

/// The count, zero where it is absent.
pub open spec fn count_or_zero(count: Option<i64>) -> i64 {
    match count {
        Some(n) => n,
        None => 0,
    }
}

/// How often each rating from one to five was given, in that order.
pub open spec fn distribution_of<A>(stats: ReviewStats<A>) -> Seq<RatingCount> {
    seq![
        RatingCount { rating: 1, count: count_or_zero(stats.rating_1) },
        RatingCount { rating: 2, count: count_or_zero(stats.rating_2) },
        RatingCount { rating: 3, count: count_or_zero(stats.rating_3) },
        RatingCount { rating: 4, count: count_or_zero(stats.rating_4) },
        RatingCount { rating: 5, count: count_or_zero(stats.rating_5) },
    ]
}

// ---------------------------------------------------------------------------
// Reviewing a product
// ---------------------------------------------------------------------------

/// True when the rating can be given.
pub fn valid_rating(rating: i32) -> (r: bool)
    ensures
        r == is_rating(rating),
{
    MIN_RATING <= rating && rating <= MAX_RATING
}

/// True when the review follows a rental of the product by the author:
/// the request names a rental, and the renter that was read for it is the
/// author.
pub open spec fn verified_rental(user_id: Id, rental_id: Option<Id>, renter: Option<Id>) -> bool {
    rental_id is Some && renter == Some(user_id)
}

/// True when `r` is the decision owed to the request of `user_id` to review
/// a product.
///
/// The rating must be from one to five and the product must exist and be
/// active. Where the request names a rental, the renter of that rental of the
/// product is read, and a failure to read it is internal. One review per
/// author, product and rental: a second is a conflict.
pub open spec fn product_review_decided(
    user_id: Id,
    request: CreateProductReviewRequest,
    product: Result<Option<Id>, DbError>,
    renter: Result<Option<Id>, DbError>,
    existing: Result<Option<Id>, DbError>,
    r: Result<NewProductReview, ApiError>,
) -> bool {
    if !is_rating(request.rating) {
        is_failure(r, ErrorKind::InvalidState, "Rating must be between 1 and 5"@)
    } else {
        match product {
            Err(_) => is_failure(r, ErrorKind::Internal, database_error_message()),
            Ok(None) => is_failure(r, ErrorKind::NotFound, "Product not found"@),
            Ok(Some(_)) => if request.rental_id is Some && renter is Err {
                is_failure(r, ErrorKind::Internal, database_error_message())
            } else {
                match existing {
                    Err(_) => is_failure(r, ErrorKind::Internal, database_error_message()),
                    Ok(Some(_)) => is_failure(r, ErrorKind::Conflict, "You have already reviewed this product"@),
                    Ok(None) => r == Ok::<NewProductReview, ApiError>(
                        NewProductReview {
                            product_id: request.product_id,
                            reviewer_id: user_id,
                            rental_id: request.rental_id,
                            rating: request.rating,
                            title: request.title,
                            content: request.content,
                            is_verified_rental: verified_rental(
                                user_id,
                                request.rental_id,
                                match renter {
                                    Ok(found) => found,
                                    Err(_) => None,
                                },
                            ),
                        },
                    ),
                }
            },
        }
    }
}

/// Decides on a request of `user_id` to review a product, as
/// `product_review_decided` lays down.
pub fn create_product_review(
    user_id: Id,
    request: CreateProductReviewRequest,
    product: Result<Option<Id>, DbError>,
    renter: Result<Option<Id>, DbError>,
    existing: Result<Option<Id>, DbError>,
) -> (r: Result<NewProductReview, ApiError>)
    ensures
        product_review_decided(user_id, request, product, renter, existing, r),
{
    if !valid_rating(request.rating) {
        return fail(ErrorKind::InvalidState, "Rating must be between 1 and 5");
    }
    match product {
        Err(_) => {
            return database_failure();
        },
        Ok(None) => {
            return fail(ErrorKind::NotFound, "Product not found");
        },
        Ok(Some(_)) => {},
    }
    let is_verified_rental = match request.rental_id {
        Some(_) => match renter {
            Err(_) => {
                return database_failure();
            },
            Ok(Some(renter_id)) => renter_id == user_id,
            Ok(None) => false,
        },
        None => false,
    };
    match existing {
        Err(_) => database_failure(),
        Ok(Some(_)) => fail(ErrorKind::Conflict, "You have already reviewed this product"),
        Ok(None) => Ok(
            NewProductReview {
                product_id: request.product_id,
                reviewer_id: user_id,
                rental_id: request.rental_id,
                rating: request.rating,
                title: request.title,
                content: request.content,
                is_verified_rental,
            },
        ),
    }
}

/// The name that a review shows for a profile.
pub fn display_name(profile: &ProfileName) -> (r: String)
    ensures
        r@ == shown_name(*profile),
{
    proof {
        reveal_strlit("");
    }
    let first = match &profile.first_name {
        Some(n) => n.as_str(),
        None => "",
    };
    let last = match &profile.last_name {
        Some(n) => n.as_str(),
        None => "",
    };
    assert(first@ =~= match profile.first_name {
        Some(n) => n@,
        None => Seq::empty(),
    });
    assert(last@ =~= match profile.last_name {
        Some(n) => n@,
        None => Seq::empty(),
    });
    let head = join2(first, " ");
    join2(head.as_str(), last)
}

/// The name to show for the profile that was read, if there is one.
pub fn name_of(profile: Result<Option<ProfileName>, DbError>) -> (r: Result<Option<String>, ApiError>)
    ensures
        match profile {
            Err(_) => is_failure(r, ErrorKind::Internal, database_error_message()),
            Ok(None) => r == Ok::<Option<String>, ApiError>(None),
            Ok(Some(p)) => r matches Ok(Some(name)) && name@ == shown_name(p),
        },
{
    match profile {
        Err(_) => database_failure(),
        Ok(None) => Ok(None),
        Ok(Some(p)) => Ok(Some(display_name(&p))),
    }
}

/// The recorded review, active, once it was written and the profile of the
/// author was read.
pub fn product_review_created(
    review: NewProductReview,
    inserted: Result<Stamp, DbError>,
    reviewer: Result<Option<ProfileName>, DbError>,
) -> (r: Result<ProductReviewResponse, ApiError>)
    ensures
        match (inserted, reviewer) {
            (Ok(stamp), Ok(profile)) => {
                &&& r matches Ok(made)
                &&& made.id == stamp.id
                &&& made.product_id == review.product_id
                &&& made.reviewer_id == review.reviewer_id
                &&& made.rental_id == review.rental_id
                &&& made.rating == review.rating
                &&& made.title == review.title
                &&& made.content == review.content
                &&& made.is_verified_rental == review.is_verified_rental
                &&& made.status@ == "active"@
                &&& made.created_at == stamp.created_at
                &&& made.updated_at == stamp.updated_at
                &&& match profile {
                    Some(p) => made.reviewer_name matches Some(name) && name@ == shown_name(p),
                    None => made.reviewer_name is None,
                }
            },
            _ => is_failure(r, ErrorKind::Internal, database_error_message()),
        },
{
    let stamp = match read_or_fail(inserted) {
        Ok(stamp) => stamp,
        Err(e) => {
            return Err(e);
        },
    };
    let reviewer_name = match name_of(reviewer) {
        Ok(name) => name,
        Err(e) => {
            return Err(e);
        },
    };
    Ok(
        ProductReviewResponse {
            id: stamp.id,
            product_id: review.product_id,
            reviewer_id: review.reviewer_id,
            rental_id: review.rental_id,
            rating: review.rating,
            title: review.title,
            content: review.content,
            is_verified_rental: review.is_verified_rental,
            status: owned("active"),
            created_at: stamp.created_at,
            updated_at: stamp.updated_at,
            reviewer_name,
        },
    )
}

// ---------------------------------------------------------------------------
// Reviewing a user
// ---------------------------------------------------------------------------

/// True when `user_id` may review `reviewed` in a review of the given kind.
pub fn can_review(review_type: &str, user_id: Id, reviewed: Id, renter: Id, owner: Id) -> (r: bool)
    ensures
        r == may_review(review_type@, user_id, reviewed, renter, owner),
{
    if text_eq(review_type, "renter") {
        owner == user_id && renter == reviewed
    } else if text_eq(review_type, "owner") {
        renter == user_id && owner == reviewed
    } else {
        false
    }
}

/// True when `r` is the decision owed to the request of `user_id` to review
/// a user, given the renter of the rental, the owner of its product, and the
/// review of that kind that `user_id` already gave for the rental.
pub open spec fn user_review_decided(
    user_id: Id,
    request: CreateUserReviewRequest,
    renter: Result<Option<Id>, DbError>,
    owner: Result<Option<Id>, DbError>,
    existing: Result<Option<Id>, DbError>,
    r: Result<NewUserReview, ApiError>,
) -> bool {
    if !is_rating(request.rating) {
        is_failure(r, ErrorKind::InvalidState, "Rating must be between 1 and 5"@)
    } else if !is_review_type(request.review_type@) {
        is_failure(r, ErrorKind::InvalidState, "Review type must be 'renter' or 'owner'"@)
    } else {
        match renter {
            Err(_) => is_failure(r, ErrorKind::Internal, database_error_message()),
            Ok(None) => is_failure(r, ErrorKind::NotFound, "Rental not found"@),
            Ok(Some(renter_id)) => match owner {
                Ok(Some(owner_id)) => if !may_review(
                    request.review_type@,
                    user_id,
                    request.reviewed_user_id,
                    renter_id,
                    owner_id,
                ) {
                    is_failure(r, ErrorKind::Forbidden, "You are not authorized to review this user"@)
                } else {
                    match existing {
                        Err(_) => is_failure(r, ErrorKind::Internal, database_error_message()),
                        Ok(Some(_)) => is_failure(
                            r,
                            ErrorKind::Conflict,
                            "You have already reviewed this user for this rental"@,
                        ),
                        Ok(None) => r == Ok::<NewUserReview, ApiError>(
                            NewUserReview {
                                reviewed_user_id: request.reviewed_user_id,
                                reviewer_id: user_id,
                                rental_id: request.rental_id,
                                review_type: request.review_type,
                                rating: request.rating,
                                title: request.title,
                                content: request.content,
                            },
                        ),
                    }
                },
                _ => is_failure(r, ErrorKind::Internal, database_error_message()),
            },
        }
    }
}

/// Decides on a request of `user_id` to review a user, as
/// `user_review_decided` lays down.
pub fn create_user_review(
    user_id: Id,
    request: CreateUserReviewRequest,
    renter: Result<Option<Id>, DbError>,
    owner: Result<Option<Id>, DbError>,
    existing: Result<Option<Id>, DbError>,
) -> (r: Result<NewUserReview, ApiError>)
    ensures
        user_review_decided(user_id, request, renter, owner, existing, r),
{
    if !valid_rating(request.rating) {
        return fail(ErrorKind::InvalidState, "Rating must be between 1 and 5");
    }
    let kind = request.review_type.as_str();
    if !(text_eq(kind, "renter") || text_eq(kind, "owner")) {
        return fail(ErrorKind::InvalidState, "Review type must be 'renter' or 'owner'");
    }
    let renter_id = match renter {
        Err(_) => {
            return database_failure();
        },
        Ok(None) => {
            return fail(ErrorKind::NotFound, "Rental not found");
        },
        Ok(Some(renter_id)) => renter_id,
    };
    let owner_id = match owner {
        Ok(Some(owner_id)) => owner_id,
        _ => {
            return database_failure();
        },
    };
    if !can_review(request.review_type.as_str(), user_id, request.reviewed_user_id, renter_id, owner_id) {
        return fail(ErrorKind::Forbidden, "You are not authorized to review this user");
    }
    match existing {
        Err(_) => database_failure(),
        Ok(Some(_)) => fail(ErrorKind::Conflict, "You have already reviewed this user for this rental"),
        Ok(None) => Ok(
            NewUserReview {
                reviewed_user_id: request.reviewed_user_id,
                reviewer_id: user_id,
                rental_id: request.rental_id,
                review_type: request.review_type,
                rating: request.rating,
                title: request.title,
                content: request.content,
            },
        ),
    }
}

/// The recorded review, active, once it was written and the profiles of the
/// two users were read.
pub fn user_review_created(
    review: NewUserReview,
    inserted: Result<Stamp, DbError>,
    reviewer: Result<Option<ProfileName>, DbError>,
    reviewed: Result<Option<ProfileName>, DbError>,
) -> (r: Result<UserReviewResponse, ApiError>)
    ensures
        match (inserted, reviewer, reviewed) {
            (Ok(stamp), Ok(by), Ok(of)) => {
                &&& r matches Ok(made)
                &&& made.id == stamp.id
                &&& made.reviewed_user_id == review.reviewed_user_id
                &&& made.reviewer_id == review.reviewer_id
                &&& made.rental_id == review.rental_id
                &&& made.review_type == review.review_type
                &&& made.rating == review.rating
                &&& made.title == review.title
                &&& made.content == review.content
                &&& made.status@ == "active"@
                &&& made.created_at == stamp.created_at
                &&& made.updated_at == stamp.updated_at
                &&& match by {
                    Some(p) => made.reviewer_name matches Some(name) && name@ == shown_name(p),
                    None => made.reviewer_name is None,
                }
                &&& match of {
                    Some(p) => made.reviewed_user_name matches Some(name) && name@ == shown_name(p),
                    None => made.reviewed_user_name is None,
                }
            },
            _ => is_failure(r, ErrorKind::Internal, database_error_message()),
        },
{
    let stamp = match read_or_fail(inserted) {
        Ok(stamp) => stamp,
        Err(e) => {
            return Err(e);
        },
    };
    let reviewer_name = match name_of(reviewer) {
        Ok(name) => name,
        Err(e) => {
            return Err(e);
        },
    };
    let reviewed_user_name = match name_of(reviewed) {
        Ok(name) => name,
        Err(e) => {
            return Err(e);
        },
    };
    Ok(
        UserReviewResponse {
            id: stamp.id,
            reviewed_user_id: review.reviewed_user_id,
            reviewer_id: review.reviewer_id,
            rental_id: review.rental_id,
            review_type: review.review_type,
            rating: review.rating,
            title: review.title,
            content: review.content,
            status: owned("active"),
            created_at: stamp.created_at,
            updated_at: stamp.updated_at,
            reviewer_name,
            reviewed_user_name,
        },
    )
}

// ---------------------------------------------------------------------------
// Listing and statistics
// ---------------------------------------------------------------------------

/// What a listing of the reviews of products asks for: the active ones
/// unless `filters` names another status, twenty unless it names a limit, and
/// never more than a hundred.
pub fn list_product_reviews(filters: &ReviewFilters) -> (q: ReviewQuery)
    ensures
        q.status@ == match filters.status {
            Some(s) => s@,
            None => "active"@,
        },
        q.window.limit == capped_size(filters.limit, DEFAULT_PAGE_SIZE),
        q.window.offset == match filters.offset {
            Some(o) => o,
            None => 0,
        },
{
    let window = limit_window(filters.limit, filters.offset, DEFAULT_PAGE_SIZE);
    let status = match &filters.status {
        Some(s) => s.clone(),
        None => owned("active"),
    };
    ReviewQuery { status, window }
}

/// The head of the query for reviews of products: everything up to the
/// condition on the status, which is the first parameter.
pub open spec fn review_query_head() -> Seq<char> {
    "SELECT r.id, r.product_id, r.reviewer_id, r.rental_id, r.rating, r.title, r.content, r.is_verified_rental, r.status, r.created_at, r.updated_at, p.first_name, p.last_name FROM review_schema.product_reviews r LEFT JOIN user_schema.user_profiles p ON r.reviewer_id = p.user_id WHERE r.status = $1"@
}

/// The condition that the `n`-th parameter of a query holds `column`.
pub open spec fn condition_text(column: Seq<char>, n: int) -> Seq<char> {
    " AND "@ + column + " = $"@ + decimal_text(n)
}

/// The number of the parameters that the filters on product, author and
/// rating take, after the status.
pub open spec fn filter_count(filters: ReviewFilters) -> int {
    (if filters.product_id is Some { 1int } else { 0 }) + (if filters.reviewer_id is Some { 1int } else { 0 })
        + (if filters.rating is Some { 1int } else { 0 })
}

/// The text of the query for the reviews of products that `filters` asks
/// for. Its parameters are numbered in this order: the status; the product,
/// the author and the rating, each where the filters name it; the limit;
/// the offset.
pub open spec fn review_query_text(filters: ReviewFilters) -> Seq<char> {
    let after_product = if filters.product_id is Some { 2int } else { 1 };
    let after_reviewer = if filters.reviewer_id is Some { after_product + 1 } else { after_product };
    let after_rating = if filters.rating is Some { after_reviewer + 1 } else { after_reviewer };
    review_query_head()
        + (if filters.product_id is Some { condition_text("r.product_id"@, after_product) } else { Seq::empty() })
        + (if filters.reviewer_id is Some { condition_text("r.reviewer_id"@, after_reviewer) } else { Seq::empty() })
        + (if filters.rating is Some { condition_text("r.rating"@, after_rating) } else { Seq::empty() })
        + " ORDER BY r.created_at DESC LIMIT $"@ + decimal_text(after_rating + 1)
        + " OFFSET $"@ + decimal_text(after_rating + 2)
}

/// Appends to `query` the condition that the `n`-th parameter holds `column`.
fn push_condition(query: &mut String, column: &str, n: i64)
    ensures
        final(query)@ == old(query)@ + condition_text(column@, n as int),
{
    let number = decimal(n);
    let condition = join4(" AND ", column, " = $", number.as_str());
    query.append(condition.as_str());
}

/// The text of the query for the reviews of products that `filters` asks
/// for.
pub fn review_query(filters: &ReviewFilters) -> (r: String)
    ensures
        r@ == review_query_text(*filters),
{
    let mut query = owned(
        "SELECT r.id, r.product_id, r.reviewer_id, r.rental_id, r.rating, r.title, r.content, r.is_verified_rental, r.status, r.created_at, r.updated_at, p.first_name, p.last_name FROM review_schema.product_reviews r LEFT JOIN user_schema.user_profiles p ON r.reviewer_id = p.user_id WHERE r.status = $1",
    );
    let mut param_count: i64 = 1;
    if filters.product_id.is_some() {
        param_count = param_count + 1;
        push_condition(&mut query, "r.product_id", param_count);
    }
    if filters.reviewer_id.is_some() {
        param_count = param_count + 1;
        push_condition(&mut query, "r.reviewer_id", param_count);
    }
    if filters.rating.is_some() {
        param_count = param_count + 1;
        push_condition(&mut query, "r.rating", param_count);
    }
    let limit_number = decimal(param_count + 1);
    let offset_number = decimal(param_count + 2);
    let tail = join4(" ORDER BY r.created_at DESC LIMIT $", limit_number.as_str(), " OFFSET $", offset_number.as_str());
    query.append(tail.as_str());
    assert(query@ =~= review_query_text(*filters));
    query
}

/// How often each rating from one to five was given, in that order; a count
/// that is absent is zero.
pub fn rating_distribution<A>(stats: &ReviewStats<A>) -> (r: Vec<RatingCount>)
    ensures
        r@ == distribution_of(*stats),
{
    let mut out: Vec<RatingCount> = Vec::new();
    out.push(RatingCount { rating: 1, count: or_zero(stats.rating_1) });
    out.push(RatingCount { rating: 2, count: or_zero(stats.rating_2) });
    out.push(RatingCount { rating: 3, count: or_zero(stats.rating_3) });
    out.push(RatingCount { rating: 4, count: or_zero(stats.rating_4) });
    out.push(RatingCount { rating: 5, count: or_zero(stats.rating_5) });
    assert(out@ =~= distribution_of(*stats));
    out
}

/// The count, zero where it is absent.
pub fn or_zero(count: Option<i64>) -> (r: i64)
    ensures
        r == count_or_zero(count),
{
    match count {
        Some(n) => n,
        None => 0,
    }
}

/// The statistics of the reviews of a product. Where there is no review the
/// average is `no_average` and every count is zero.
pub fn get_product_review_stats<A>(stats: Result<ReviewStats<A>, DbError>, no_average: A) -> (r: Result<
    ReviewStatsResponse<A>,
    ApiError,
>)
    ensures
        match stats {
            Ok(found) => {
                &&& r matches Ok(shown)
                &&& shown.average_rating == match found.avg_rating {
                    Some(a) => a,
                    None => no_average,
                }
                &&& shown.total_reviews == count_or_zero(found.total_reviews)
                &&& shown.rating_distribution@ == distribution_of(found)
            },
            Err(_) => is_failure(r, ErrorKind::Internal, database_error_message()),
        },
{
    let found = match read_or_fail(stats) {
        Ok(found) => found,
        Err(e) => {
            return Err(e);
        },
    };
    let rating_distribution = rating_distribution(&found);
    let total_reviews = or_zero(found.total_reviews);
    let average_rating = match found.avg_rating {
        Some(a) => a,
        None => no_average,
    };
    Ok(ReviewStatsResponse { average_rating, total_reviews, rating_distribution })
}

/// Nobody can review themselves: in a review that is allowed, the author
/// and the reviewed are the two parties of the rental, so they differ
/// whenever the renter is not the owner.
pub proof fn lemma_review_is_of_the_other_party(review_type: Seq<char>, user_id: Id, reviewed: Id, renter: Id, owner: Id)
    requires
        may_review(review_type, user_id, reviewed, renter, owner),
        renter != owner,
    ensures
        user_id != reviewed,
        is_review_type(review_type),
        (user_id == owner && reviewed == renter) || (user_id == renter && reviewed == owner),
{
}

} // verus!

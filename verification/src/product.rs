//! Products: listing a product for rent, changing and withdrawing it, and the
//! categories that products are filed under.
//!
//! Prices and free-form documents pass through untouched: `P` is the type of
//! a price, `J` that of a document.

use vstd::prelude::*;
use crate::error::{
    database_error_message, database_failure, fail, found_or, is_failure, written_or, ApiError, DbError, ErrorKind,
};
use crate::ids::Id;
use crate::pagination::{capped_size, offset_of, page_of, page_window, PageWindow, DEFAULT_PAGE_SIZE};
use crate::state::{notice, Notice};
use crate::text::{decimal, decimal_text, join2, join4, join_all, joined, owned, views};
use crate::time::Timestamp;

verus! {

/// A request to list a product for rent.
#[derive(Clone, Debug, PartialEq)]
pub struct CreateProductRequest<P, J> {
    pub name: String,
    pub description: Option<String>,
    pub category_id: Id,
    pub daily_price: P,
    pub deposit_amount: Option<P>,
    pub insurance_required: Option<bool>,
    pub specifications: Option<J>,
    pub address: Option<J>,
    pub tags: Option<Vec<String>>,
}

/// The fields of a product that a request may change; an absent field stays.
#[derive(Clone, Debug, PartialEq)]
pub struct UpdateProductRequest<P, J> {
    pub name: Option<String>,
    pub description: Option<String>,
    pub category_id: Option<Id>,
    pub daily_price: Option<P>,
    pub deposit_amount: Option<P>,
    pub insurance_required: Option<bool>,
    pub specifications: Option<J>,
    pub address: Option<J>,
    pub status: Option<String>,
}

/// A product as it is shown. `R` is the type of a rating.
#[derive(Clone, Debug, PartialEq)]
pub struct ProductResponse<P, J, R> {
    pub product_id: Id,
    pub owner_id: Id,
    pub name: String,
    pub description: Option<String>,
    pub category_id: Id,
    pub daily_price: P,
    pub deposit_amount: Option<P>,
    pub insurance_required: bool,
    pub specifications: Option<J>,
    pub address: Option<J>,
    pub avg_rating: Option<R>,
    pub total_reviews: i32,
    pub status: String,
    pub created_at: Timestamp,
    pub tags: Vec<String>,
    pub images: Vec<String>,
}

/// A product as the database gives it: its tags and images may be absent.
#[derive(Clone, Debug, PartialEq)]
pub struct ProductRow<P, J, R> {
    pub product_id: Id,
    pub owner_id: Id,
    pub name: String,
    pub description: Option<String>,
    pub category_id: Id,
    pub daily_price: P,
    pub deposit_amount: Option<P>,
    pub insurance_required: bool,
    pub specifications: Option<J>,
    pub address: Option<J>,
    pub avg_rating: Option<R>,
    pub total_reviews: i32,
    pub status: String,
    pub created_at: Timestamp,
    pub tags: Option<Vec<String>>,
    pub images: Option<Vec<String>>,
}

/// One page of products, with the number of products in all.
#[derive(Clone, Debug, PartialEq)]
pub struct ProductListResponse<T> {
    pub products: Vec<T>,
    pub total: i64,
    pub page: i64,
    pub per_page: i64,
}

/// The query of a listing of products.
#[derive(Clone, Debug, PartialEq)]
pub struct ProductFilters<P> {
    pub category_id: Option<Id>,
    pub min_price: Option<P>,
    pub max_price: Option<P>,
    pub search: Option<String>,
    pub page: Option<i64>,
    pub per_page: Option<i64>,
}

/// A request to add a category.
#[derive(Clone, Debug, PartialEq, Eq)]
pub struct CreateCategoryRequest {
    pub name: String,
    pub description: Option<String>,
    pub parent_category_id: Option<Id>,
}

/// A category as it is shown.
#[derive(Clone, Debug, PartialEq, Eq)]
pub struct CategoryResponse {
    pub category_id: Id,
    pub name: String,
    pub description: Option<String>,
    pub parent_category_id: Option<Id>,
    pub created_at: Timestamp,
}

/// A product that was accepted and is to be recorded, with the tags to file
/// it under.
#[derive(Clone, Debug, PartialEq)]
pub struct NewProduct<P, J> {
    pub product_id: Id,
    pub owner_id: Id,
    pub category_id: Id,
    pub name: String,
    pub description: Option<String>,
    pub daily_price: P,
    pub deposit_amount: Option<P>,
    pub insurance_required: bool,
    pub specifications: Option<J>,
    pub address: Option<J>,
    pub tags: Vec<String>,
}

/// The answer to a request that created a product.
#[derive(Clone, Debug, PartialEq, Eq)]
pub struct ProductCreated {
    pub product_id: Id,
    pub message: String,
}

/// A category that is to be recorded.
#[derive(Clone, Debug, PartialEq, Eq)]
pub struct NewCategory {
    pub category_id: Id,
    pub name: String,
    pub description: Option<String>,
    pub parent_category_id: Option<Id>,
}

/// The answer to a request that created a category.
#[derive(Clone, Debug, PartialEq, Eq)]
pub struct CategoryCreated {
    pub category_id: Id,
    pub message: String,
}

// ---------------------------------------------------------------------------
// Listing a product for rent
// ---------------------------------------------------------------------------

/// True when `r` is the decision owed to the request of `user_id` to list a
/// product under the identifier `product_id`: the category must exist, and a
/// failure to read it is an internal failure. Insurance is not required
/// unless the request says so, and a request without tags has none.
pub open spec fn product_decided<P, J>(
    user_id: Id,
    request: CreateProductRequest<P, J>,
    category: Result<Option<Id>, DbError>,
    product_id: Id,
    r: Result<NewProduct<P, J>, ApiError>,
) -> bool {
    match category {
        Ok(Some(_)) => {
            &&& r matches Ok(product)
            &&& product.product_id == product_id
            &&& product.owner_id == user_id
            &&& product.category_id == request.category_id
            &&& product.name == request.name
            &&& product.description == request.description
            &&& product.daily_price == request.daily_price
            &&& product.deposit_amount == request.deposit_amount
            &&& product.insurance_required == (request.insurance_required == Some(true))
            &&& product.specifications == request.specifications
            &&& product.address == request.address
            &&& match request.tags {
                Some(tags) => product.tags == tags,
                None => product.tags@.len() == 0,
            }
        },
        Ok(None) => is_failure(r, ErrorKind::InvalidState, "Invalid category_id"@),
        Err(_) => is_failure(r, ErrorKind::Internal, database_error_message()),
    }
}

/// Decides on a request of `user_id` to list a product under the identifier
/// `product_id`, as `product_decided` lays down.
pub fn create_product_as<P, J>(
    user_id: Id,
    request: CreateProductRequest<P, J>,
    category: Result<Option<Id>, DbError>,
    product_id: Id,
) -> (r: Result<NewProduct<P, J>, ApiError>)
    ensures
        product_decided(user_id, request, category, product_id, r),
{
    match category {
        Ok(Some(_)) => {},
        Ok(None) => {
            return fail(ErrorKind::InvalidState, "Invalid category_id");
        },
        Err(_) => {
            return database_failure();
        },
    }
    let insurance_required = match request.insurance_required {
        Some(flag) => flag,
        None => false,
    };
    let tags = match request.tags {
        Some(tags) => tags,
        None => Vec::new(),
    };
    Ok(
        NewProduct {
            product_id,
            owner_id: user_id,
            category_id: request.category_id,
            name: request.name,
            description: request.description,
            daily_price: request.daily_price,
            deposit_amount: request.deposit_amount,
            insurance_required,
            specifications: request.specifications,
            address: request.address,
            tags,
        },
    )
}

/// Decides on a request of `user_id` to list a product, under a fresh random
/// identifier.
pub fn create_product<P, J>(user_id: Id, request: CreateProductRequest<P, J>, category: Result<Option<Id>, DbError>) -> (r:
    Result<NewProduct<P, J>, ApiError>)
    ensures
        match r {
            Ok(product) => product_decided(user_id, request, category, product.product_id, r),
            Err(_) => match category {
                Ok(Some(_)) => false,
                Ok(None) => is_failure(r, ErrorKind::InvalidState, "Invalid category_id"@),
                Err(_) => is_failure(r, ErrorKind::Internal, database_error_message()),
            },
        },
{
    let product_id = Id::random();
    create_product_as(user_id, request, category, product_id)
}

/// The answer to the request once the product was written, or was not.
pub fn product_created(product_id: Id, written: Result<(), DbError>) -> (r: Result<ProductCreated, ApiError>)
    ensures
        match written {
            Ok(_) => r matches Ok(made) && made.product_id == product_id && made.message@
                == "Product created successfully"@,
            Err(_) => is_failure(r, ErrorKind::Internal, "Failed to create product"@),
        },
{
    match written_or(written, "Failed to create product") {
        Ok(_) => Ok(ProductCreated { product_id, message: owned("Product created successfully") }),
        Err(e) => Err(e),
    }
}

// ---------------------------------------------------------------------------
// Showing products
// ---------------------------------------------------------------------------

/// The list, empty where it is absent.
pub fn or_empty(list: Option<Vec<String>>) -> (r: Vec<String>)
    ensures
        match list {
            Some(items) => r == items,
            None => r@.len() == 0,
        },
{
    match list {
        Some(items) => items,
        None => Vec::new(),
    }
}

/// True when `shown` is the product `row` as it is shown: every field as it
/// was read, without tags or images where it has none.
pub open spec fn shows<P, J, R>(row: ProductRow<P, J, R>, shown: ProductResponse<P, J, R>) -> bool {
    &&& shown.product_id == row.product_id
    &&& shown.owner_id == row.owner_id
    &&& shown.name == row.name
    &&& shown.description == row.description
    &&& shown.category_id == row.category_id
    &&& shown.daily_price == row.daily_price
    &&& shown.deposit_amount == row.deposit_amount
    &&& shown.insurance_required == row.insurance_required
    &&& shown.specifications == row.specifications
    &&& shown.address == row.address
    &&& shown.avg_rating == row.avg_rating
    &&& shown.total_reviews == row.total_reviews
    &&& shown.status == row.status
    &&& shown.created_at == row.created_at
    &&& match row.tags {
        Some(tags) => shown.tags == tags,
        None => shown.tags@.len() == 0,
    }
    &&& match row.images {
        Some(images) => shown.images == images,
        None => shown.images@.len() == 0,
    }
}

/// A product as it is shown.
pub fn show_product<P, J, R>(row: ProductRow<P, J, R>) -> (shown: ProductResponse<P, J, R>)
    ensures
        shows(row, shown),
{
    ProductResponse {
        product_id: row.product_id,
        owner_id: row.owner_id,
        name: row.name,
        description: row.description,
        category_id: row.category_id,
        daily_price: row.daily_price,
        deposit_amount: row.deposit_amount,
        insurance_required: row.insurance_required,
        specifications: row.specifications,
        address: row.address,
        avg_rating: row.avg_rating,
        total_reviews: row.total_reviews,
        status: row.status,
        created_at: row.created_at,
        tags: or_empty(row.tags),
        images: or_empty(row.images),
    }
}

/// Shows a product; one that is missing is not found, and one that could not
/// be read is an internal failure.
pub fn get_product<P, J, R>(product: Result<Option<ProductRow<P, J, R>>, DbError>) -> (r: Result<
    ProductResponse<P, J, R>,
    ApiError,
>)
    ensures
        match product {
            Ok(Some(row)) => r matches Ok(shown) && shows(row, shown),
            Ok(None) => is_failure(r, ErrorKind::NotFound, "Product not found"@),
            Err(_) => is_failure(r, ErrorKind::Internal, database_error_message()),
        },
{
    match found_or(product, ErrorKind::NotFound, "Product not found") {
        Ok(row) => Ok(show_product(row)),
        Err(e) => Err(e),
    }
}

/// The window of the page of products that `filters` asks for: the first page
/// and twenty products where it names none, never more than a hundred. A
/// page whose offset no 64-bit count can hold is refused as invalid.
pub fn list_products<P>(filters: &ProductFilters<P>) -> (r: Result<PageWindow, ApiError>)
    ensures
        match r {
            Ok(w) => {
                &&& w.page == page_of(filters.page)
                &&& w.per_page == capped_size(filters.per_page, DEFAULT_PAGE_SIZE)
                &&& w.offset == offset_of(filters.page, filters.per_page)
            },
            Err(e) => {
                &&& !(i64::MIN <= offset_of(filters.page, filters.per_page) <= i64::MAX)
                &&& e.kind == ErrorKind::InvalidState
                &&& e.message@ == "Invalid page"@
            },
        },
{
    match page_window(filters.page, filters.per_page) {
        Some(w) => Ok(w),
        None => fail(ErrorKind::InvalidState, "Invalid page"),
    }
}

/// The page of products that was read for `window`. Where the products or
/// their count could not be read the request fails; a count that the
/// database leaves empty is zero.
pub fn product_page<T>(window: PageWindow, products: Result<Vec<T>, DbError>, total: Result<Option<i64>, DbError>) -> (r:
    Result<ProductListResponse<T>, ApiError>)
    ensures
        match (products, total) {
            (Ok(rows), Ok(count)) => r == Ok::<ProductListResponse<T>, ApiError>(
                ProductListResponse {
                    products: rows,
                    total: match count {
                        Some(n) => n,
                        None => 0,
                    },
                    page: window.page,
                    per_page: window.per_page,
                },
            ),
            _ => is_failure(r, ErrorKind::Internal, "Failed to fetch products"@),
        },
{
    let rows = match written_or(products, "Failed to fetch products") {
        Ok(rows) => rows,
        Err(e) => {
            return Err(e);
        },
    };
    let count: i64 = match total {
        Ok(Some(n)) => n,
        Ok(None) => 0,
        Err(_) => {
            return fail(ErrorKind::Internal, "Failed to fetch products");
        },
    };
    Ok(ProductListResponse { products: rows, total: count, page: window.page, per_page: window.per_page })
}

/// The pattern that finds `search` anywhere in a text.
pub fn search_pattern(search: &str) -> (r: String)
    ensures
        r@ == "%"@ + search@ + "%"@,
{
    let head = join2("%", search);
    join2(head.as_str(), "%")
}

/// The head of the query for products: everything up to the condition that
/// the product is active.
pub open spec fn product_query_head() -> Seq<char> {
    "SELECT p.*, array_agg(DISTINCT t.name) FILTER (WHERE t.name IS NOT NULL) as tags, array_agg(DISTINCT pi.image_url) FILTER (WHERE pi.image_url IS NOT NULL) as images FROM product_schema.products p LEFT JOIN product_schema.product_tags pt ON p.product_id = pt.product_id LEFT JOIN product_schema.tags t ON pt.tag_id = t.tag_id LEFT JOIN product_schema.product_images pi ON p.product_id = pi.product_id WHERE p.status = 'active'"@
}

/// The condition that finds the `n`-th parameter in the name of a product or
/// in its description.
pub open spec fn search_condition(n: int) -> Seq<char> {
    "(p.name ILIKE $"@ + decimal_text(n) + " OR p.description ILIKE $"@ + decimal_text(n) + ")"@
}

/// The conditions that `filters` puts on a product, each on a parameter of
/// its own, numbered from one in this order: the category, the lowest price,
/// the highest price, the text to search for.
pub open spec fn product_conditions<P>(filters: ProductFilters<P>) -> Seq<Seq<char>> {
    let with_category = if filters.category_id is Some {
        seq!["p.category_id = $"@ + decimal_text(1)]
    } else {
        Seq::<Seq<char>>::empty()
    };
    let with_min = if filters.min_price is Some {
        with_category.push("p.daily_price >= $"@ + decimal_text(with_category.len() as int + 1))
    } else {
        with_category
    };
    let with_max = if filters.max_price is Some {
        with_min.push("p.daily_price <= $"@ + decimal_text(with_min.len() as int + 1))
    } else {
        with_min
    };
    if filters.search is Some {
        with_max.push(search_condition(with_max.len() as int + 1))
    } else {
        with_max
    }
}

/// The text of the query for the products that `filters` asks for, in the
/// window given: the active products that meet every condition, newest
/// first.
pub open spec fn product_query_text<P>(filters: ProductFilters<P>, per_page: i64, offset: i64) -> Seq<char> {
    let conditions = product_conditions(filters);
    product_query_head() + (if conditions.len() == 0 {
        Seq::<char>::empty()
    } else {
        " AND "@ + joined(conditions, " AND "@)
    }) + " GROUP BY p.product_id ORDER BY p.created_at DESC LIMIT "@ + decimal_text(per_page as int) + " OFFSET "@
        + decimal_text(offset as int)
}

/// The text of the query for the products that `filters` asks for, in the
/// window given.
pub fn product_query<P>(filters: &ProductFilters<P>, per_page: i64, offset: i64) -> (r: String)
    ensures
        r@ == product_query_text(*filters, per_page, offset),
{
    let mut conditions: Vec<String> = Vec::new();
    let mut param_count: i64 = 0;
    if filters.category_id.is_some() {
        param_count = param_count + 1;
        let number = decimal(param_count);
        conditions.push(join2("p.category_id = $", number.as_str()));
    }
    assert(views(conditions@) =~= if filters.category_id is Some {
        seq!["p.category_id = $"@ + decimal_text(1)]
    } else {
        Seq::<Seq<char>>::empty()
    });
    let ghost with_category = views(conditions@);
    if filters.min_price.is_some() {
        param_count = param_count + 1;
        let number = decimal(param_count);
        conditions.push(join2("p.daily_price >= $", number.as_str()));
        assert(views(conditions@) =~= with_category.push("p.daily_price >= $"@ + decimal_text(with_category.len() as int + 1)));
    }
    let ghost with_min = views(conditions@);
    if filters.max_price.is_some() {
        param_count = param_count + 1;
        let number = decimal(param_count);
        conditions.push(join2("p.daily_price <= $", number.as_str()));
        assert(views(conditions@) =~= with_min.push("p.daily_price <= $"@ + decimal_text(with_min.len() as int + 1)));
    }
    let ghost with_max = views(conditions@);
    if filters.search.is_some() {
        param_count = param_count + 1;
        let number = decimal(param_count);
        let head = join4("(p.name ILIKE $", number.as_str(), " OR p.description ILIKE $", number.as_str());
        conditions.push(join2(head.as_str(), ")"));
        assert(views(conditions@) =~= with_max.push(search_condition(with_max.len() as int + 1)));
    }
    assert(views(conditions@) == product_conditions(*filters));
    let mut query = owned(
        "SELECT p.*, array_agg(DISTINCT t.name) FILTER (WHERE t.name IS NOT NULL) as tags, array_agg(DISTINCT pi.image_url) FILTER (WHERE pi.image_url IS NOT NULL) as images FROM product_schema.products p LEFT JOIN product_schema.product_tags pt ON p.product_id = pt.product_id LEFT JOIN product_schema.tags t ON pt.tag_id = t.tag_id LEFT JOIN product_schema.product_images pi ON p.product_id = pi.product_id WHERE p.status = 'active'",
    );
    if conditions.len() != 0 {
        query.append(" AND ");
        let all = join_all(&conditions, " AND ");
        query.append(all.as_str());
    }
    let size = decimal(per_page);
    let start = decimal(offset);
    let tail = join4(
        " GROUP BY p.product_id ORDER BY p.created_at DESC LIMIT ",
        size.as_str(),
        " OFFSET ",
        start.as_str(),
    );
    query.append(tail.as_str());
    assert(query@ =~= product_query_text(*filters, per_page, offset));
    query
}

// ---------------------------------------------------------------------------
// Changing and withdrawing a product
// ---------------------------------------------------------------------------

/// Lets the owner of a product change it, and nobody else. A product that is
/// missing is not found; one that could not be read is an internal failure.
pub fn update_product(user_id: Id, owner: Result<Option<Id>, DbError>) -> (r: Result<(), ApiError>)
    ensures
        match owner {
            Ok(Some(owner_id)) => if owner_id == user_id {
                r is Ok
            } else {
                is_failure(r, ErrorKind::Forbidden, "Not authorized to update this product"@)
            },
            Ok(None) => is_failure(r, ErrorKind::NotFound, "Product not found"@),
            Err(_) => is_failure(r, ErrorKind::Internal, database_error_message()),
        },
{
    let owner_id = match found_or(owner, ErrorKind::NotFound, "Product not found") {
        Ok(owner_id) => owner_id,
        Err(e) => {
            return Err(e);
        },
    };
    if owner_id != user_id {
        return fail(ErrorKind::Forbidden, "Not authorized to update this product");
    }
    Ok(())
}

/// The answer to the request once the changes were written, or were not.
pub fn product_updated(written: Result<(), DbError>) -> (r: Result<Notice, ApiError>)
    ensures
        match written {
            Ok(_) => r matches Ok(n) && n.message@ == "Product updated successfully"@,
            Err(_) => is_failure(r, ErrorKind::Internal, "Failed to update product"@),
        },
{
    match written_or(written, "Failed to update product") {
        Ok(_) => Ok(notice("Product updated successfully")),
        Err(e) => Err(e),
    }
}

/// Lets the owner of a product withdraw it, and nobody else. The product is
/// kept, in status `deleted`. A product that is missing is not found; one
/// that could not be read is an internal failure.
pub fn delete_product(user_id: Id, owner: Result<Option<Id>, DbError>) -> (r: Result<String, ApiError>)
    ensures
        match owner {
            Ok(Some(owner_id)) => if owner_id == user_id {
                r matches Ok(status) && status@ == "deleted"@
            } else {
                is_failure(r, ErrorKind::Forbidden, "Not authorized to delete this product"@)
            },
            Ok(None) => is_failure(r, ErrorKind::NotFound, "Product not found"@),
            Err(_) => is_failure(r, ErrorKind::Internal, database_error_message()),
        },
{
    let owner_id = match found_or(owner, ErrorKind::NotFound, "Product not found") {
        Ok(owner_id) => owner_id,
        Err(e) => {
            return Err(e);
        },
    };
    if owner_id != user_id {
        return fail(ErrorKind::Forbidden, "Not authorized to delete this product");
    }
    Ok(owned("deleted"))
}

/// The answer to the request once the product was marked as deleted, or was
/// not.
pub fn product_deleted(written: Result<(), DbError>) -> (r: Result<Notice, ApiError>)
    ensures
        match written {
            Ok(_) => r matches Ok(n) && n.message@ == "Product deleted successfully"@,
            Err(_) => is_failure(r, ErrorKind::Internal, "Failed to delete product"@),
        },
{
    match written_or(written, "Failed to delete product") {
        Ok(_) => Ok(notice("Product deleted successfully")),
        Err(e) => Err(e),
    }
}

// ---------------------------------------------------------------------------
// Categories
// ---------------------------------------------------------------------------

/// The category that `request` adds, under a fresh random identifier.
pub fn create_category(request: CreateCategoryRequest) -> (r: NewCategory)
    ensures
        r.name == request.name,
        r.description == request.description,
        r.parent_category_id == request.parent_category_id,
{
    NewCategory {
        category_id: Id::random(),
        name: request.name,
        description: request.description,
        parent_category_id: request.parent_category_id,
    }
}

/// The answer to the request once the category was written, or was not.
pub fn category_created(category_id: Id, written: Result<(), DbError>) -> (r: Result<CategoryCreated, ApiError>)
    ensures
        match written {
            Ok(_) => r matches Ok(made) && made.category_id == category_id && made.message@
                == "Category created successfully"@,
            Err(_) => is_failure(r, ErrorKind::Internal, "Failed to create category"@),
        },
{
    match written_or(written, "Failed to create category") {
        Ok(_) => Ok(CategoryCreated { category_id, message: owned("Category created successfully") }),
        Err(e) => Err(e),
    }
}

/// The categories that were read, or the failure to read them.
pub fn list_categories(categories: Result<Vec<CategoryResponse>, DbError>) -> (r: Result<
    Vec<CategoryResponse>,
    ApiError,
>)
    ensures
        match categories {
            Ok(rows) => r == Ok::<Vec<CategoryResponse>, ApiError>(rows),
            Err(_) => is_failure(r, ErrorKind::Internal, "Failed to fetch categories"@),
        },
{
    written_or(categories, "Failed to fetch categories")
}

} // verus!

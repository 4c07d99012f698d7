use vstd::prelude::*;
use crate::domain::ProductView;

verus! {

/// Marks the values that handlers return.
pub trait Response {}

/// A product as callers see it.
pub struct ProductResponse {
    pub id: String,
    pub name: String,
    pub price_cents: i64,
    pub description: String,
    pub available_inventory: u32,
    pub reserved_inventory: u32,
    pub stars: u8,
    pub number_of_reviews: u32,
}

/// `r` shows the product `p`.
pub open spec fn shows(r: ProductResponse, p: ProductView) -> bool {
    &&& r.id@ == p.id
    &&& r.name@ == p.name
    &&& r.price_cents == p.price_cents
    &&& r.description@ == p.description
    &&& r.available_inventory == p.available_inventory
    &&& r.reserved_inventory == p.reserved_inventory
    &&& r.stars == p.stars
    &&& r.number_of_reviews == p.number_of_reviews
}

/// `rs` shows the products `ps`, one for one and in order.
pub open spec fn shows_all(rs: Seq<ProductResponse>, ps: Seq<ProductView>) -> bool {
    &&& rs.len() == ps.len()
    &&& forall|i: int| 0 <= i < rs.len() ==> shows(#[trigger] rs[i], ps[i])
}

pub struct GetProductsResponse {
    pub products: Vec<ProductResponse>,
}

impl Response for GetProductsResponse {}

pub struct CreateProductResponse {
    pub id: String,
}

impl Response for CreateProductResponse {}

pub struct ApiError {
    pub error: String,
}

impl Response for ApiError {}

pub struct EmptyResponse {}

impl Response for EmptyResponse {}

} // verus!

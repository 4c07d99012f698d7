use vstd::prelude::*;

verus! {

/// The catalog's one aggregate. Prices are held in cents so that every
/// rule on them is exact integer arithmetic.
pub struct Product {
    pub id: String,
    pub name: String,
    pub price_cents: i64,
    pub description: String,
    pub available_inventory: u32,
    pub reserved_inventory: u32,
    pub stars: u8,
    pub number_of_reviews: u32,
    pub created_at_utc: i64,
    pub updated_at_utc: i64,
    pub version: u32,
}

/// What a product is, with its text as character sequences.
pub struct ProductView {
    pub id: Seq<char>,
    pub name: Seq<char>,
    pub price_cents: int,
    pub description: Seq<char>,
    pub available_inventory: nat,
    pub reserved_inventory: nat,
    pub stars: nat,
    pub number_of_reviews: nat,
    pub created_at_utc: int,
    pub updated_at_utc: int,
    pub version: nat,
}

impl View for Product {
    type V = ProductView;

    open spec fn view(&self) -> ProductView {
        ProductView {
            id: self.id@,
            name: self.name@,
            price_cents: self.price_cents as int,
            description: self.description@,
            available_inventory: self.available_inventory as nat,
            reserved_inventory: self.reserved_inventory as nat,
            stars: self.stars as nat,
            number_of_reviews: self.number_of_reviews as nat,
            created_at_utc: self.created_at_utc as int,
            updated_at_utc: self.updated_at_utc as int,
            version: self.version as nat,
        }
    }
}

impl Clone for Product {
    fn clone(&self) -> (r: Product)
        ensures
            r == *self,
    {
        Product {
            id: self.id.clone(),
            name: self.name.clone(),
            price_cents: self.price_cents,
            description: self.description.clone(),
            available_inventory: self.available_inventory,
            reserved_inventory: self.reserved_inventory,
            stars: self.stars,
            number_of_reviews: self.number_of_reviews,
            created_at_utc: self.created_at_utc,
            updated_at_utc: self.updated_at_utc,
            version: self.version,
        }
    }
}

} // verus!

//! The raw shape of the restaurant service's location response, as plain
//! values. The application decodes the JSON body into these before handing
//! it to the verified directory logic.

use vstd::prelude::*;

verus! {

/// Raw response from the restaurant service.
pub struct Response {
    pub data: Vec<Location>,
}

/// Raw location data from the restaurant service.
pub struct Location {
    pub id: i32,
    pub addresses: Vec<Address>,
}

/// Raw address data from the restaurant service.
pub struct Address {
    pub postal_code: Option<String>,
    pub country_code: String,
}

} // verus!

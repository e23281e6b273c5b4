use vstd::prelude::*;
use vstd::string::StringExecFns;

use crate::wire::Request;
use crate::wire::Status;

verus! {

/// One product in the catalogue.
#[derive(Clone, Debug)]
pub struct Product {
    pub id: String,
    pub name: String,
}

/// The answer to a catalogue query.
#[derive(Clone, Debug)]
pub struct ListProductsResponse {
    pub products: Vec<Product>,
}

/// The demo catalogue service: answers every request with the same two
/// products.
#[derive(Clone, Copy, Debug, Default)]
pub struct Products {}

impl Products {
    /// The product catalogue.
    pub fn list_products(&self, _request: Request) -> (r: Result<ListProductsResponse, Status>)
        ensures
            r matches Ok(resp) && ({
                let ps = resp.products@;
                &&& ps.len() == 2
                &&& ps[0].id@ == "p001"@
                &&& ps[0].name@ == "phone"@
                &&& ps[1].id@ == "p002"@
                &&& ps[1].name@ == "tablet"@
            }),
    {
        let mut products: Vec<Product> = Vec::new();
        products.push(Product { id: String::from_str("p001"), name: String::from_str("phone") });
        products.push(Product { id: String::from_str("p002"), name: String::from_str("tablet") });
        Ok(ListProductsResponse { products })
    }
}

} // verus!

//! The fixed endpoint table of the vendor API, as verified URL builders.

use vstd::prelude::*;
use vstd::string::*;

verus! {

/// The single-product endpoint with the id appended as a path segment.
pub fn product_url(id: &str) -> (r: String)
    ensures
        r@ == "https://api-extern.systembolaget.se/product/v1/product/"@ + id@,
{
    let mut out = String::from_str("https://api-extern.systembolaget.se/product/v1/product/");
    out.append(id);
    out
}

/// The full-product-list endpoint.
pub fn all_products_url() -> (r: String)
    ensures
        r@ == "https://api-extern.systembolaget.se/product/v1/product"@,
{
    String::from_str("https://api-extern.systembolaget.se/product/v1/product")
}

/// The store-availability endpoint.
pub fn products_with_store_url() -> (r: String)
    ensures
        r@ == "https://api-extern.systembolaget.se/product/v1/getproductswithstore"@,
{
    String::from_str("https://api-extern.systembolaget.se/product/v1/getproductswithstore")
}

/// The search endpoint.
pub fn search_url() -> (r: String)
    ensures
        r@ == "https://api-extern.systembolaget.se/product/v1/search"@,
{
    String::from_str("https://api-extern.systembolaget.se/product/v1/search")
}

/// The header that carries the subscription key on every request.
pub fn api_key_header() -> (r: &'static str)
    ensures
        r@ == "Ocp-Apim-Subscription-Key"@,
{
    "Ocp-Apim-Subscription-Key"
}

} // verus!

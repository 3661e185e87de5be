//! Verified decoding of response payloads, and the tri-state classifier
//! that tells a success body from an API-error body and a malformed one.
//!
//! Every contract here is stated over the document model of `jsonio`: which
//! wire key feeds which field, that a decode succeeds exactly when the
//! required fields are present with the right types, and that the classifier
//! is a function of the body text alone.

use vstd::prelude::*;
use vstd::string::*;
use crate::date::{CalendarDate, parse_wire_date, spec_parse_date};
use crate::jsonio::{
    JsonV, arr_elems, get_field, json_as_array, json_as_bool, json_as_i64, json_as_str, json_get,
    json_is_null, json_model, json_number_text, parse_json, spec_parse_json,
};
use crate::num::{JsonNum, is_json_number};
use crate::records::{ApiError, Error, Product, ProductWithStore, ProductsWithStore};
use crate::search::opt_str_view;

verus! {

// --- Field semantics over the document model.
//
// Each `spec_*_f` function says what reading one field of an object model
// yields: `None` is a field-level failure, `Some` carries the decoded value
// (itself an `Option` for a field that may be absent or null).

pub open spec fn spec_opt_str_f(j: JsonV, k: Seq<char>) -> Option<Option<Seq<char>>> {
    match get_field(j, k) {
        None => Some(None),
        Some(f) => match f {
            JsonV::Null => Some(None),
            JsonV::Str(s) => Some(Some(s)),
            _ => None,
        },
    }
}

pub open spec fn spec_opt_bool_f(j: JsonV, k: Seq<char>) -> Option<Option<bool>> {
    match get_field(j, k) {
        None => Some(None),
        Some(f) => match f {
            JsonV::Null => Some(None),
            JsonV::Bool(b) => Some(Some(b)),
            _ => None,
        },
    }
}

pub open spec fn spec_req_str_f(j: JsonV, k: Seq<char>) -> Option<Seq<char>> {
    match get_field(j, k) {
        Some(JsonV::Str(s)) => Some(s),
        _ => None,
    }
}

pub open spec fn spec_req_bool_f(j: JsonV, k: Seq<char>) -> Option<bool> {
    match get_field(j, k) {
        Some(JsonV::Bool(b)) => Some(b),
        _ => None,
    }
}

/// A required integer field: the tokenizer must hold the number as an
/// integer, and it must fit the record's integer width.
pub open spec fn spec_req_int_f(j: JsonV, k: Seq<char>) -> Option<int> {
    match get_field(j, k) {
        Some(JsonV::Num { text, int_val }) => match int_val {
            Some(n) => if i32::MIN <= n <= i32::MAX {
                Some(n)
            } else {
                None
            },
            None => None,
        },
        _ => None,
    }
}

/// A required numeric field: its decimal rendering, which must be a JSON
/// number literal.
pub open spec fn spec_req_num_f(j: JsonV, k: Seq<char>) -> Option<Seq<char>> {
    match get_field(j, k) {
        Some(JsonV::Num { text, int_val }) => if is_json_number(text) {
            Some(text)
        } else {
            None
        },
        _ => None,
    }
}

/// A required date field: a string in the fixed wire pattern.
pub open spec fn spec_req_date_f(j: JsonV, k: Seq<char>) -> Option<CalendarDate> {
    match get_field(j, k) {
        Some(JsonV::Str(s)) => spec_parse_date(s),
        _ => None,
    }
}

fn field_err(key: &str) -> (r: String)
    ensures
        r@ == "missing or invalid field '"@ + key@ + "'"@,
{
    let mut out = String::from_str("missing or invalid field '");
    out.append(key);
    out.append("'");
    proof {
        assert(out@ =~= "missing or invalid field '"@ + key@ + "'"@);
    }
    out
}

/// An optional string field: absent or null is unset; any other non-string
/// value is a field-level failure naming the key.
fn opt_string_field(v: &serde_json::Value, key: &str) -> (r: Result<Option<String>, String>)
    ensures
        r matches Ok(o) ==> spec_opt_str_f(json_model(*v), key@) == Some(opt_str_view(o)),
        r is Err <==> spec_opt_str_f(json_model(*v), key@) is None,
{
    match json_get(v, key) {
        None => Ok(None),
        Some(f) => {
            if json_is_null(f) {
                Ok(None)
            } else {
                match json_as_str(f) {
                    Some(s) => Ok(Some(s)),
                    None => Err(field_err(key)),
                }
            }
        },
    }
}

/// An optional boolean field: absent or null is unset.
fn opt_bool_field(v: &serde_json::Value, key: &str) -> (r: Result<Option<bool>, String>)
    ensures
        r matches Ok(o) ==> spec_opt_bool_f(json_model(*v), key@) == Some(o),
        r is Err <==> spec_opt_bool_f(json_model(*v), key@) is None,
{
    match json_get(v, key) {
        None => Ok(None),
        Some(f) => {
            if json_is_null(f) {
                Ok(None)
            } else {
                match json_as_bool(f) {
                    Some(b) => Ok(Some(b)),
                    None => Err(field_err(key)),
                }
            }
        },
    }
}

/// A required string field.
fn req_string_field(v: &serde_json::Value, key: &str) -> (r: Result<String, String>)
    ensures
        r matches Ok(s) ==> spec_req_str_f(json_model(*v), key@) == Some(s@),
        r is Err <==> spec_req_str_f(json_model(*v), key@) is None,
{
    match json_get(v, key) {
        Some(f) => match json_as_str(f) {
            Some(s) => Ok(s),
            None => Err(field_err(key)),
        },
        None => Err(field_err(key)),
    }
}

/// A required boolean field.
fn req_bool_field(v: &serde_json::Value, key: &str) -> (r: Result<bool, String>)
    ensures
        r matches Ok(b) ==> spec_req_bool_f(json_model(*v), key@) == Some(b),
        r is Err <==> spec_req_bool_f(json_model(*v), key@) is None,
{
    match json_get(v, key) {
        Some(f) => match json_as_bool(f) {
            Some(b) => Ok(b),
            None => Err(field_err(key)),
        },
        None => Err(field_err(key)),
    }
}

/// A required integer field that must fit the record's integer width.
fn req_i32_field(v: &serde_json::Value, key: &str) -> (r: Result<i32, String>)
    ensures
        r matches Ok(x) ==> spec_req_int_f(json_model(*v), key@) == Some(x as int),
        r is Err <==> spec_req_int_f(json_model(*v), key@) is None,
{
    match json_get(v, key) {
        Some(f) => match json_as_i64(f) {
            Some(n) => {
                if i32::MIN as i64 <= n && n <= i32::MAX as i64 {
                    Ok(n as i32)
                } else {
                    Err(field_err(key))
                }
            },
            None => Err(field_err(key)),
        },
        None => Err(field_err(key)),
    }
}

/// A required numeric field, kept as its JSON number literal.
fn req_num_field(v: &serde_json::Value, key: &str) -> (r: Result<JsonNum, String>)
    ensures
        r matches Ok(n) ==> spec_req_num_f(json_model(*v), key@) == Some(n@),
        r is Err <==> spec_req_num_f(json_model(*v), key@) is None,
{
    match json_get(v, key) {
        Some(f) => match json_number_text(f) {
            Some(t) => match JsonNum::new(t) {
                Some(n) => Ok(n),
                None => Err(field_err(key)),
            },
            None => Err(field_err(key)),
        },
        None => Err(field_err(key)),
    }
}

fn date_err(key: &str, text: &str) -> (r: String)
    ensures
        r@ == "field '"@ + key@ + "' holds an invalid date: '"@ + text@ + "'"@,
{
    let mut out = String::from_str("field '");
    out.append(key);
    out.append("' holds an invalid date: '");
    out.append(text);
    out.append("'");
    proof {
        assert(out@ =~= "field '"@ + key@ + "' holds an invalid date: '"@ + text@ + "'"@);
    }
    out
}

/// A required date field in the fixed wire pattern; a failure names the
/// offending string.
fn req_date_field(v: &serde_json::Value, key: &str) -> (r: Result<CalendarDate, String>)
    ensures
        r matches Ok(d) ==> d.wf() && spec_req_date_f(json_model(*v), key@) == Some(d),
        r is Err <==> spec_req_date_f(json_model(*v), key@) is None,
{
    match json_get(v, key) {
        Some(f) => match json_as_str(f) {
            Some(s) => match parse_wire_date(s.as_str()) {
                Some(d) => Ok(d),
                None => Err(date_err(key, s.as_str())),
            },
            None => Err(field_err(key)),
        },
        None => Err(field_err(key)),
    }
}

// --- The record shapes, as predicates on the document model.

/// The document is an object holding every required Product field with the
/// right type, and whatever optional fields it holds have the right type.
/// Unknown keys are unconstrained: they are ignored.
pub open spec fn spec_product_shape_ok(j: JsonV) -> bool {
    &&& spec_req_num_f(j, "AlcoholPercentage"@) is Some
    &&& spec_opt_str_f(j, "Assortment"@) is Some
    &&& spec_opt_str_f(j, "AssortmentText"@) is Some
    &&& spec_opt_str_f(j, "BeverageDescriptionShort"@) is Some
    &&& spec_opt_str_f(j, "BottleTextShort"@) is Some
    &&& spec_opt_str_f(j, "Category"@) is Some
    &&& spec_opt_str_f(j, "Country"@) is Some
    &&& spec_opt_str_f(j, "EthicalLabel"@) is Some
    &&& spec_req_bool_f(j, "IsCompletelyOutOfStock"@) is Some
    &&& spec_req_bool_f(j, "IsEthical"@) is Some
    &&& spec_opt_str_f(j, "IsInStoreSearchAssortment"@) is Some
    &&& spec_req_bool_f(j, "IsKosher"@) is Some
    &&& spec_req_bool_f(j, "IsManufacturingCountry"@) is Some
    &&& spec_req_bool_f(j, "IsNews"@) is Some
    &&& spec_req_bool_f(j, "IsOrganic"@) is Some
    &&& spec_req_bool_f(j, "IsRegionalRestricted"@) is Some
    &&& spec_opt_bool_f(j, "IsTemporarilyOutOfStock"@) is Some
    &&& spec_req_bool_f(j, "IsWebLaunch"@) is Some
    &&& spec_opt_str_f(j, "Type"@) is Some
    &&& spec_opt_str_f(j, "OriginLevel1"@) is Some
    &&& spec_opt_str_f(j, "OriginLevel2"@) is Some
    &&& spec_req_num_f(j, "Price"@) is Some
    &&& spec_opt_str_f(j, "ProducerName"@) is Some
    &&& spec_req_str_f(j, "ProductId"@) is Some
    &&& spec_req_str_f(j, "ProductNameBold"@) is Some
    &&& spec_opt_str_f(j, "ProductNameThin"@) is Some
    &&& spec_opt_str_f(j, "ProductNumberShort"@) is Some
    &&& spec_req_str_f(j, "ProductNumber"@) is Some
    &&& spec_req_num_f(j, "RecycleFee"@) is Some
    &&& spec_req_int_f(j, "RestrictedParcelQuantity"@) is Some
    &&& spec_opt_str_f(j, "Seal"@) is Some
    &&& spec_req_date_f(j, "SellStartDate"@) is Some
    &&& spec_opt_str_f(j, "Style"@) is Some
    &&& spec_opt_str_f(j, "SubCategory"@) is Some
    &&& spec_opt_str_f(j, "SupplierName"@) is Some
    &&& spec_opt_str_f(j, "Taste"@) is Some
    &&& spec_opt_str_f(j, "Usage"@) is Some
    &&& spec_req_int_f(j, "Vintage"@) is Some
    &&& spec_req_num_f(j, "Volume"@) is Some
}

/// Every internal field of `p` equals the content of its wire key in `j`:
/// the capitalized wire names feed the snake-case fields, `Type` feeds
/// `kind`, and absent optional fields are unset, never a sentinel.
pub open spec fn spec_product_matches(j: JsonV, p: Product) -> bool {
    &&& spec_req_num_f(j, "AlcoholPercentage"@) == Some(p.alcohol_percentage@)
    &&& spec_opt_str_f(j, "Assortment"@) == Some(opt_str_view(p.assortment))
    &&& spec_opt_str_f(j, "AssortmentText"@) == Some(opt_str_view(p.assortment_text))
    &&& spec_opt_str_f(j, "BeverageDescriptionShort"@) == Some(
        opt_str_view(p.beverage_description_short),
    )
    &&& spec_opt_str_f(j, "BottleTextShort"@) == Some(opt_str_view(p.bottle_text_short))
    &&& spec_opt_str_f(j, "Category"@) == Some(opt_str_view(p.category))
    &&& spec_opt_str_f(j, "Country"@) == Some(opt_str_view(p.country))
    &&& spec_opt_str_f(j, "EthicalLabel"@) == Some(opt_str_view(p.ethical_label))
    &&& spec_req_bool_f(j, "IsCompletelyOutOfStock"@) == Some(p.is_completely_out_of_stock)
    &&& spec_req_bool_f(j, "IsEthical"@) == Some(p.is_ethical)
    &&& spec_opt_str_f(j, "IsInStoreSearchAssortment"@) == Some(
        opt_str_view(p.is_in_store_search_assortment),
    )
    &&& spec_req_bool_f(j, "IsKosher"@) == Some(p.is_kosher)
    &&& spec_req_bool_f(j, "IsManufacturingCountry"@) == Some(p.is_manufacturing_country)
    &&& spec_req_bool_f(j, "IsNews"@) == Some(p.is_news)
    &&& spec_req_bool_f(j, "IsOrganic"@) == Some(p.is_organic)
    &&& spec_req_bool_f(j, "IsRegionalRestricted"@) == Some(p.is_regional_restricted)
    &&& spec_opt_bool_f(j, "IsTemporarilyOutOfStock"@) == Some(p.is_temporarily_out_of_stock)
    &&& spec_req_bool_f(j, "IsWebLaunch"@) == Some(p.is_web_launch)
    &&& spec_opt_str_f(j, "Type"@) == Some(opt_str_view(p.kind))
    &&& spec_opt_str_f(j, "OriginLevel1"@) == Some(opt_str_view(p.origin_level_1))
    &&& spec_opt_str_f(j, "OriginLevel2"@) == Some(opt_str_view(p.origin_level_2))
    &&& spec_req_num_f(j, "Price"@) == Some(p.price@)
    &&& spec_opt_str_f(j, "ProducerName"@) == Some(opt_str_view(p.producer_name))
    &&& spec_req_str_f(j, "ProductId"@) == Some(p.product_id@)
    &&& spec_req_str_f(j, "ProductNameBold"@) == Some(p.product_name_bold@)
    &&& spec_opt_str_f(j, "ProductNameThin"@) == Some(opt_str_view(p.product_name_thin))
    &&& spec_opt_str_f(j, "ProductNumberShort"@) == Some(opt_str_view(p.product_number_short))
    &&& spec_req_str_f(j, "ProductNumber"@) == Some(p.product_number@)
    &&& spec_req_num_f(j, "RecycleFee"@) == Some(p.recycle_fee@)
    &&& spec_req_int_f(j, "RestrictedParcelQuantity"@) == Some(p.restricted_parcel_quantity as int)
    &&& spec_opt_str_f(j, "Seal"@) == Some(opt_str_view(p.seal))
    &&& spec_req_date_f(j, "SellStartDate"@) == Some(p.sell_start_date)
    &&& spec_opt_str_f(j, "Style"@) == Some(opt_str_view(p.style))
    &&& spec_opt_str_f(j, "SubCategory"@) == Some(opt_str_view(p.sub_category))
    &&& spec_opt_str_f(j, "SupplierName"@) == Some(opt_str_view(p.supplier_name))
    &&& spec_opt_str_f(j, "Taste"@) == Some(opt_str_view(p.taste))
    &&& spec_opt_str_f(j, "Usage"@) == Some(opt_str_view(p.usage))
    &&& spec_req_int_f(j, "Vintage"@) == Some(p.vintage as int)
    &&& spec_req_num_f(j, "Volume"@) == Some(p.volume@)
}

/// The document is an array whose every element has the Product shape.
pub open spec fn spec_products_ok(j: JsonV) -> bool {
    match j {
        JsonV::Arr(es) => forall|i: int| 0 <= i < es.len() ==> spec_product_shape_ok(es[i]),
        _ => false,
    }
}

/// The decoded records equal the array's elements, in body order.
pub open spec fn spec_products_match(j: JsonV, ps: Seq<Product>) -> bool {
    &&& j is Arr
    &&& ps.len() == arr_elems(j).len()
    &&& forall|i: int| 0 <= i < ps.len() ==> spec_product_matches(arr_elems(j)[i], ps[i])
}

pub open spec fn spec_api_error_ok(j: JsonV) -> bool {
    &&& spec_req_str_f(j, "Error"@) is Some
    &&& spec_req_str_f(j, "Message"@) is Some
}

pub open spec fn spec_api_error_matches(j: JsonV, e: ApiError) -> bool {
    &&& spec_req_str_f(j, "Error"@) == Some(e.error@)
    &&& spec_req_str_f(j, "Message"@) == Some(e.message@)
}

/// The document is an array whose every element is a code/message object.
pub open spec fn spec_api_errors_ok(j: JsonV) -> bool {
    match j {
        JsonV::Arr(es) => forall|i: int| 0 <= i < es.len() ==> spec_api_error_ok(es[i]),
        _ => false,
    }
}

/// The decoded entries equal the array's elements, order and count kept.
pub open spec fn spec_api_errors_match(j: JsonV, es: Seq<ApiError>) -> bool {
    &&& j is Arr
    &&& es.len() == arr_elems(j).len()
    &&& forall|i: int| 0 <= i < es.len() ==> spec_api_error_matches(arr_elems(j)[i], es[i])
}

pub open spec fn spec_stub_ok(j: JsonV) -> bool {
    &&& spec_req_str_f(j, "ProductId"@) is Some
    &&& spec_req_str_f(j, "ProductNumber"@) is Some
}

pub open spec fn spec_stub_matches(j: JsonV, s: ProductWithStore) -> bool {
    &&& spec_req_str_f(j, "ProductId"@) == Some(s.product_id@)
    &&& spec_req_str_f(j, "ProductNumber"@) == Some(s.product_number@)
}

/// The stub array under a store's `Products` key.
pub open spec fn spec_store_products(j: JsonV) -> Seq<JsonV> {
    match get_field(j, "Products"@) {
        Some(f) => arr_elems(f),
        None => Seq::empty(),
    }
}

pub open spec fn spec_store_ok(j: JsonV) -> bool {
    &&& spec_req_str_f(j, "SiteId"@) is Some
    &&& (get_field(j, "Products"@) matches Some(f) && f is Arr)
    &&& forall|k: int|
        0 <= k < spec_store_products(j).len() ==> spec_stub_ok(spec_store_products(j)[k])
}

pub open spec fn spec_store_matches(j: JsonV, st: ProductsWithStore) -> bool {
    &&& spec_req_str_f(j, "SiteId"@) == Some(st.site_id@)
    &&& st.products@.len() == spec_store_products(j).len()
    &&& forall|k: int|
        0 <= k < st.products@.len() ==> spec_stub_matches(spec_store_products(j)[k], st.products@[k])
}

/// The document is an array whose every element is a well-shaped store.
pub open spec fn spec_stores_ok(j: JsonV) -> bool {
    match j {
        JsonV::Arr(es) => forall|i: int| 0 <= i < es.len() ==> spec_store_ok(es[i]),
        _ => false,
    }
}

/// The decoded stores equal the array's elements, in body order.
pub open spec fn spec_stores_match(j: JsonV, sts: Seq<ProductsWithStore>) -> bool {
    &&& j is Arr
    &&& sts.len() == arr_elems(j).len()
    &&& forall|i: int| 0 <= i < sts.len() ==> spec_store_matches(arr_elems(j)[i], sts[i])
}

/// Decodes one catalog item from its wire object: each internal field read
/// under its capitalized wire key, the product type under `Type`, unknown
/// keys ignored. Succeeds exactly when the object has the Product shape,
/// and then every field equals its wire key's content.
#[verifier::rlimit(100)]
pub(crate) fn product_from_json(v: &serde_json::Value) -> (r: Result<Product, String>)
    ensures
        r is Ok <==> spec_product_shape_ok(json_model(*v)),
        r matches Ok(p) ==> p.wf() && spec_product_matches(json_model(*v), p),
{
    let alcohol_percentage = match req_num_field(v, "AlcoholPercentage") {
        Ok(x) => x,
        Err(e) => {
            return Err(e);
        },
    };
    let assortment = match opt_string_field(v, "Assortment") {
        Ok(x) => x,
        Err(e) => {
            return Err(e);
        },
    };
    let assortment_text = match opt_string_field(v, "AssortmentText") {
        Ok(x) => x,
        Err(e) => {
            return Err(e);
        },
    };
    let beverage_description_short = match opt_string_field(v, "BeverageDescriptionShort") {
        Ok(x) => x,
        Err(e) => {
            return Err(e);
        },
    };
    let bottle_text_short = match opt_string_field(v, "BottleTextShort") {
        Ok(x) => x,
        Err(e) => {
            return Err(e);
        },
    };
    let category = match opt_string_field(v, "Category") {
        Ok(x) => x,
        Err(e) => {
            return Err(e);
        },
    };
    let country = match opt_string_field(v, "Country") {
        Ok(x) => x,
        Err(e) => {
            return Err(e);
        },
    };
    let ethical_label = match opt_string_field(v, "EthicalLabel") {
        Ok(x) => x,
        Err(e) => {
            return Err(e);
        },
    };
    let is_completely_out_of_stock = match req_bool_field(v, "IsCompletelyOutOfStock") {
        Ok(x) => x,
        Err(e) => {
            return Err(e);
        },
    };
    let is_ethical = match req_bool_field(v, "IsEthical") {
        Ok(x) => x,
        Err(e) => {
            return Err(e);
        },
    };
    let is_in_store_search_assortment = match opt_string_field(v, "IsInStoreSearchAssortment") {
        Ok(x) => x,
        Err(e) => {
            return Err(e);
        },
    };
    let is_kosher = match req_bool_field(v, "IsKosher") {
        Ok(x) => x,
        Err(e) => {
            return Err(e);
        },
    };
    let is_manufacturing_country = match req_bool_field(v, "IsManufacturingCountry") {
        Ok(x) => x,
        Err(e) => {
            return Err(e);
        },
    };
    let is_news = match req_bool_field(v, "IsNews") {
        Ok(x) => x,
        Err(e) => {
            return Err(e);
        },
    };
    let is_organic = match req_bool_field(v, "IsOrganic") {
        Ok(x) => x,
        Err(e) => {
            return Err(e);
        },
    };
    let is_regional_restricted = match req_bool_field(v, "IsRegionalRestricted") {
        Ok(x) => x,
        Err(e) => {
            return Err(e);
        },
    };
    let is_temporarily_out_of_stock = match opt_bool_field(v, "IsTemporarilyOutOfStock") {
        Ok(x) => x,
        Err(e) => {
            return Err(e);
        },
    };
    let is_web_launch = match req_bool_field(v, "IsWebLaunch") {
        Ok(x) => x,
        Err(e) => {
            return Err(e);
        },
    };
    let kind = match opt_string_field(v, "Type") {
        Ok(x) => x,
        Err(e) => {
            return Err(e);
        },
    };
    let origin_level_1 = match opt_string_field(v, "OriginLevel1") {
        Ok(x) => x,
        Err(e) => {
            return Err(e);
        },
    };
    let origin_level_2 = match opt_string_field(v, "OriginLevel2") {
        Ok(x) => x,
        Err(e) => {
            return Err(e);
        },
    };
    let price = match req_num_field(v, "Price") {
        Ok(x) => x,
        Err(e) => {
            return Err(e);
        },
    };
    let producer_name = match opt_string_field(v, "ProducerName") {
        Ok(x) => x,
        Err(e) => {
            return Err(e);
        },
    };
    let product_id = match req_string_field(v, "ProductId") {
        Ok(x) => x,
        Err(e) => {
            return Err(e);
        },
    };
    let product_name_bold = match req_string_field(v, "ProductNameBold") {
        Ok(x) => x,
        Err(e) => {
            return Err(e);
        },
    };
    let product_name_thin = match opt_string_field(v, "ProductNameThin") {
        Ok(x) => x,
        Err(e) => {
            return Err(e);
        },
    };
    let product_number_short = match opt_string_field(v, "ProductNumberShort") {
        Ok(x) => x,
        Err(e) => {
            return Err(e);
        },
    };
    let product_number = match req_string_field(v, "ProductNumber") {
        Ok(x) => x,
        Err(e) => {
            return Err(e);
        },
    };
    let recycle_fee = match req_num_field(v, "RecycleFee") {
        Ok(x) => x,
        Err(e) => {
            return Err(e);
        },
    };
    let restricted_parcel_quantity = match req_i32_field(v, "RestrictedParcelQuantity") {
        Ok(x) => x,
        Err(e) => {
            return Err(e);
        },
    };
    let seal = match opt_string_field(v, "Seal") {
        Ok(x) => x,
        Err(e) => {
            return Err(e);
        },
    };
    let sell_start_date = match req_date_field(v, "SellStartDate") {
        Ok(x) => x,
        Err(e) => {
            return Err(e);
        },
    };
    let style = match opt_string_field(v, "Style") {
        Ok(x) => x,
        Err(e) => {
            return Err(e);
        },
    };
    let sub_category = match opt_string_field(v, "SubCategory") {
        Ok(x) => x,
        Err(e) => {
            return Err(e);
        },
    };
    let supplier_name = match opt_string_field(v, "SupplierName") {
        Ok(x) => x,
        Err(e) => {
            return Err(e);
        },
    };
    let taste = match opt_string_field(v, "Taste") {
        Ok(x) => x,
        Err(e) => {
            return Err(e);
        },
    };
    let usage = match opt_string_field(v, "Usage") {
        Ok(x) => x,
        Err(e) => {
            return Err(e);
        },
    };
    let vintage = match req_i32_field(v, "Vintage") {
        Ok(x) => x,
        Err(e) => {
            return Err(e);
        },
    };
    let volume = match req_num_field(v, "Volume") {
        Ok(x) => x,
        Err(e) => {
            return Err(e);
        },
    };
    Ok(
        Product {
            alcohol_percentage,
            assortment,
            assortment_text,
            beverage_description_short,
            bottle_text_short,
            category,
            country,
            ethical_label,
            is_completely_out_of_stock,
            is_ethical,
            is_in_store_search_assortment,
            is_kosher,
            is_manufacturing_country,
            is_news,
            is_organic,
            is_regional_restricted,
            is_temporarily_out_of_stock,
            is_web_launch,
            kind,
            origin_level_1,
            origin_level_2,
            price,
            producer_name,
            product_id,
            product_name_bold,
            product_name_thin,
            product_number_short,
            product_number,
            recycle_fee,
            restricted_parcel_quantity,
            seal,
            sell_start_date,
            style,
            sub_category,
            supplier_name,
            taste,
            usage,
            vintage,
            volume,
        },
    )
}

/// Decodes a whole page of catalog items, in body order.
pub(crate) fn products_from_json(v: &serde_json::Value) -> (r: Result<Vec<Product>, String>)
    ensures
        r is Ok <==> spec_products_ok(json_model(*v)),
        r matches Ok(ps) ==> spec_products_match(json_model(*v), ps@) && forall|i: int|
            0 <= i < ps@.len() ==> ps@[i].wf(),
{
    let ghost j = json_model(*v);
    let arr = match json_as_array(v) {
        Some(a) => a,
        None => {
            return Err(String::from_str("expected an array of products"));
        },
    };
    let mut out: Vec<Product> = Vec::new();
    let n = arr.len();
    let mut i: usize = 0;
    while i < n
        invariant
            i <= n,
            n == arr@.len(),
            j == json_model(*v),
            j is Arr,
            arr_elems(j).len() == n,
            forall|t: int| 0 <= t < n ==> json_model(arr@[t]) == arr_elems(j)[t],
            out@.len() == i,
            forall|t: int| 0 <= t < i ==> spec_product_shape_ok(arr_elems(j)[t]),
            forall|t: int|
                0 <= t < i ==> out@[t].wf() && spec_product_matches(arr_elems(j)[t], out@[t]),
        decreases n - i,
    {
        match product_from_json(&arr[i]) {
            Ok(p) => out.push(p),
            Err(e) => {
                proof {
                    assert(!spec_product_shape_ok(arr_elems(j)[i as int]));
                }
                return Err(e);
            },
        }
        i = i + 1;
    }
    Ok(out)
}

/// Decodes the API's error payload: an array of `Error`/`Message` objects,
/// order and count preserved.
pub(crate) fn api_errors_from_json(v: &serde_json::Value) -> (r: Result<Vec<ApiError>, String>)
    ensures
        r is Ok <==> spec_api_errors_ok(json_model(*v)),
        r matches Ok(es) ==> spec_api_errors_match(json_model(*v), es@),
{
    let ghost j = json_model(*v);
    let arr = match json_as_array(v) {
        Some(a) => a,
        None => {
            return Err(String::from_str("expected an array of errors"));
        },
    };
    let mut out: Vec<ApiError> = Vec::new();
    let n = arr.len();
    let mut i: usize = 0;
    while i < n
        invariant
            i <= n,
            n == arr@.len(),
            j == json_model(*v),
            j is Arr,
            arr_elems(j).len() == n,
            forall|t: int| 0 <= t < n ==> json_model(arr@[t]) == arr_elems(j)[t],
            out@.len() == i,
            forall|t: int| 0 <= t < i ==> spec_api_error_ok(arr_elems(j)[t]),
            forall|t: int| 0 <= t < i ==> spec_api_error_matches(arr_elems(j)[t], out@[t]),
        decreases n - i,
    {
        let error = match req_string_field(&arr[i], "Error") {
            Ok(s) => s,
            Err(e) => {
                proof {
                    assert(!spec_api_error_ok(arr_elems(j)[i as int]));
                }
                return Err(e);
            },
        };
        let message = match req_string_field(&arr[i], "Message") {
            Ok(s) => s,
            Err(e) => {
                proof {
                    assert(!spec_api_error_ok(arr_elems(j)[i as int]));
                }
                return Err(e);
            },
        };
        out.push(ApiError { error, message });
        i = i + 1;
    }
    Ok(out)
}

fn product_with_store_from_json(v: &serde_json::Value) -> (r: Result<ProductWithStore, String>)
    ensures
        r is Ok <==> spec_stub_ok(json_model(*v)),
        r matches Ok(s) ==> spec_stub_matches(json_model(*v), s),
{
    let product_id = match req_string_field(v, "ProductId") {
        Ok(s) => s,
        Err(e) => {
            return Err(e);
        },
    };
    let product_number = match req_string_field(v, "ProductNumber") {
        Ok(s) => s,
        Err(e) => {
            return Err(e);
        },
    };
    Ok(ProductWithStore { product_id, product_number })
}

/// Decodes the store-availability payload: an array of stores, each a site
/// identifier with its ordered product stubs.
pub(crate) fn products_with_store_from_json(v: &serde_json::Value) -> (r: Result<
    Vec<ProductsWithStore>,
    String,
>)
    ensures
        r is Ok <==> spec_stores_ok(json_model(*v)),
        r matches Ok(sts) ==> spec_stores_match(json_model(*v), sts@),
{
    let ghost j = json_model(*v);
    let arr = match json_as_array(v) {
        Some(a) => a,
        None => {
            return Err(String::from_str("expected an array of stores"));
        },
    };
    let mut out: Vec<ProductsWithStore> = Vec::new();
    let n = arr.len();
    let mut i: usize = 0;
    while i < n
        invariant
            i <= n,
            n == arr@.len(),
            j == json_model(*v),
            j is Arr,
            arr_elems(j).len() == n,
            forall|t: int| 0 <= t < n ==> json_model(arr@[t]) == arr_elems(j)[t],
            out@.len() == i,
            forall|t: int| 0 <= t < i ==> spec_store_ok(arr_elems(j)[t]),
            forall|t: int| 0 <= t < i ==> spec_store_matches(arr_elems(j)[t], out@[t]),
        decreases n - i,
    {
        let ghost je = arr_elems(j)[i as int];
        let site_id = match req_string_field(&arr[i], "SiteId") {
            Ok(s) => s,
            Err(e) => {
                proof {
                    assert(!spec_store_ok(je));
                }
                return Err(e);
            },
        };
        let products_val = match json_get(&arr[i], "Products") {
            Some(f) => f,
            None => {
                proof {
                    assert(!spec_store_ok(je));
                }
                return Err(field_err("Products"));
            },
        };
        let stubs = match json_as_array(products_val) {
            Some(a) => a,
            None => {
                proof {
                    assert(!spec_store_ok(je));
                }
                return Err(field_err("Products"));
            },
        };
        proof {
            assert(spec_store_products(je) == arr_elems(json_model(*products_val)));
        }
        let mut products: Vec<ProductWithStore> = Vec::new();
        let m = stubs.len();
        let mut k: usize = 0;
        while k < m
            invariant
                k <= m,
                m == stubs@.len(),
                je == arr_elems(json_model(*v))[i as int],
                0 <= i < arr_elems(json_model(*v)).len(),
                spec_store_products(je).len() == m,
                forall|t: int|
                    0 <= t < m ==> json_model(stubs@[t]) == spec_store_products(je)[t],
                products@.len() == k,
                forall|t: int| 0 <= t < k ==> spec_stub_ok(spec_store_products(je)[t]),
                forall|t: int|
                    0 <= t < k ==> spec_stub_matches(spec_store_products(je)[t], products@[t]),
            decreases m - k,
        {
            match product_with_store_from_json(&stubs[k]) {
                Ok(p) => products.push(p),
                Err(e) => {
                    proof {
                        assert(!spec_stub_ok(spec_store_products(je)[k as int]));
                        assert(!spec_store_ok(je));
                    }
                    return Err(e);
                },
            }
            k = k + 1;
        }
        out.push(ProductsWithStore { site_id, products });
        proof {
            assert(spec_store_ok(je));
            assert(spec_store_matches(je, out@[i as int]));
        }
        i = i + 1;
    }
    Ok(out)
}

/// The classifier's precedence rule, over the outcomes of the two shape
/// parses: a success parse wins outright, even over a body that also fits
/// the error shape; otherwise a clean error-shape parse is an API failure,
/// discarding the success-parse diagnostic; otherwise a parse failure
/// carrying the success-parse diagnostic and the raw body verbatim.
pub fn classify<T>(
    primary: Result<T, String>,
    fallback: Result<Vec<ApiError>, String>,
    body: String,
) -> (r: Result<T, Error>)
    ensures
        primary matches Ok(t) ==> r == Ok::<T, Error>(t),
        primary matches Err(e) ==> (fallback matches Ok(es) ==> r == Err::<T, Error>(
            Error::Api(es),
        )),
        primary matches Err(e) ==> (fallback matches Err(f) ==> r == Err::<T, Error>(
            Error::Parse { err: e, body },
        )),
{
    match primary {
        Ok(t) => Ok(t),
        Err(e) => match fallback {
            Ok(es) => Err(Error::Api(es)),
            Err(_) => Err(Error::Parse { err: e, body }),
        },
    }
}

/// Classifies a single-product response body. The outcome is a function of
/// the body text alone: success exactly when the body parses as a Product
/// object, and then every field holds its wire key's content; else an API
/// failure exactly when the body parses as an error array, its entries in
/// body order; else a parse failure carrying the body verbatim.
pub fn classify_product_response(body: &str) -> (r: Result<Product, Error>)
    ensures
        r is Ok <==> (spec_parse_json(body@) matches Some(j) && spec_product_shape_ok(j)),
        r matches Ok(p) ==> p.wf() && spec_product_matches(spec_parse_json(body@)->0, p),
        r matches Err(e) ==> match e {
            Error::Api(es) => spec_parse_json(body@) matches Some(j) && !spec_product_shape_ok(j)
                && spec_api_errors_ok(j) && spec_api_errors_match(j, es@),
            Error::Parse { err, body: b } => b@ == body@ && !(spec_parse_json(body@) matches Some(
                j,
            ) && (spec_product_shape_ok(j) || spec_api_errors_ok(j))),
            Error::Transport(m) => false,
        },
{
    let owned = body.to_owned();
    match parse_json(body) {
        Err(e) => {
            let second = String::from_str("body is not JSON");
            classify::<Product>(Err(e), Err(second), owned)
        },
        Ok(v) => classify(product_from_json(&v), api_errors_from_json(&v), owned),
    }
}

/// Classifies a product-list response body; records come in body order.
pub fn classify_product_list_response(body: &str) -> (r: Result<Vec<Product>, Error>)
    ensures
        r is Ok <==> (spec_parse_json(body@) matches Some(j) && spec_products_ok(j)),
        r matches Ok(ps) ==> spec_products_match(spec_parse_json(body@)->0, ps@) && forall|i: int|
            0 <= i < ps@.len() ==> ps@[i].wf(),
        r matches Err(e) ==> match e {
            Error::Api(es) => spec_parse_json(body@) matches Some(j) && !spec_products_ok(j)
                && spec_api_errors_ok(j) && spec_api_errors_match(j, es@),
            Error::Parse { err, body: b } => b@ == body@ && !(spec_parse_json(body@) matches Some(
                j,
            ) && (spec_products_ok(j) || spec_api_errors_ok(j))),
            Error::Transport(m) => false,
        },
{
    let owned = body.to_owned();
    match parse_json(body) {
        Err(e) => {
            let second = String::from_str("body is not JSON");
            classify::<Vec<Product>>(Err(e), Err(second), owned)
        },
        Ok(v) => classify(products_from_json(&v), api_errors_from_json(&v), owned),
    }
}

/// Classifies a store-availability response body; stores and their stubs
/// come in body order.
pub fn classify_products_with_store_response(body: &str) -> (r: Result<
    Vec<ProductsWithStore>,
    Error,
>)
    ensures
        r is Ok <==> (spec_parse_json(body@) matches Some(j) && spec_stores_ok(j)),
        r matches Ok(sts) ==> spec_stores_match(spec_parse_json(body@)->0, sts@),
        r matches Err(e) ==> match e {
            Error::Api(es) => spec_parse_json(body@) matches Some(j) && !spec_stores_ok(j)
                && spec_api_errors_ok(j) && spec_api_errors_match(j, es@),
            Error::Parse { err, body: b } => b@ == body@ && !(spec_parse_json(body@) matches Some(
                j,
            ) && (spec_stores_ok(j) || spec_api_errors_ok(j))),
            Error::Transport(m) => false,
        },
{
    let owned = body.to_owned();
    match parse_json(body) {
        Err(e) => {
            let second = String::from_str("body is not JSON");
            classify::<Vec<ProductsWithStore>>(Err(e), Err(second), owned)
        },
        Ok(v) => classify(products_with_store_from_json(&v), api_errors_from_json(&v), owned),
    }
}

} // verus!

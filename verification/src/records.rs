//! Domain records of the product catalog, and the library's error union.

use vstd::prelude::*;
use vstd::string::*;
use crate::date::CalendarDate;
use crate::num::JsonNum;

verus! {

/// Sort order for a search, serialized as a small integer.
#[derive(PartialEq, Eq, Structural, Clone, Copy, Debug)]
pub enum SortDirection {
    Ascending,
    Descending,
}

impl SortDirection {
    /// The stable wire integer of each variant.
    pub open spec fn spec_wire(self) -> int {
        match self {
            SortDirection::Ascending => 0,
            SortDirection::Descending => 1,
        }
    }

    pub open spec fn spec_from_wire(v: int) -> Option<SortDirection> {
        if v == 0 {
            Some(SortDirection::Ascending)
        } else if v == 1 {
            Some(SortDirection::Descending)
        } else {
            None
        }
    }

    pub fn wire_value(&self) -> (r: i32)
        ensures
            r as int == self.spec_wire(),
    {
        match self {
            SortDirection::Ascending => 0,
            SortDirection::Descending => 1,
        }
    }

    pub fn from_wire(v: i32) -> (r: Option<SortDirection>)
        ensures
            r == SortDirection::spec_from_wire(v as int),
    {
        match v {
            0 => Some(SortDirection::Ascending),
            1 => Some(SortDirection::Descending),
            _ => None,
        }
    }

    /// The wire integer of a direction decodes back to that direction.
    pub proof fn lemma_wire_round_trip(self)
        ensures
            SortDirection::spec_from_wire(self.spec_wire()) == Some(self),
    {
    }
}

/// Sort key for a search, serialized as a small integer.
#[derive(PartialEq, Eq, Structural, Clone, Copy, Debug)]
pub enum SortKey {
    Price,
    Name,
    Volume,
    Vintage,
    Rank,
    City,
    SellStartDate,
    DisplayName,
}

impl SortKey {
    /// The stable wire integer of each variant.
    pub open spec fn spec_wire(self) -> int {
        match self {
            SortKey::Price => 0,
            SortKey::Name => 1,
            SortKey::Volume => 2,
            SortKey::Vintage => 3,
            SortKey::Rank => 4,
            SortKey::City => 5,
            SortKey::SellStartDate => 6,
            SortKey::DisplayName => 7,
        }
    }

    pub open spec fn spec_from_wire(v: int) -> Option<SortKey> {
        if v == 0 {
            Some(SortKey::Price)
        } else if v == 1 {
            Some(SortKey::Name)
        } else if v == 2 {
            Some(SortKey::Volume)
        } else if v == 3 {
            Some(SortKey::Vintage)
        } else if v == 4 {
            Some(SortKey::Rank)
        } else if v == 5 {
            Some(SortKey::City)
        } else if v == 6 {
            Some(SortKey::SellStartDate)
        } else if v == 7 {
            Some(SortKey::DisplayName)
        } else {
            None
        }
    }

    pub fn wire_value(&self) -> (r: i32)
        ensures
            r as int == self.spec_wire(),
    {
        match self {
            SortKey::Price => 0,
            SortKey::Name => 1,
            SortKey::Volume => 2,
            SortKey::Vintage => 3,
            SortKey::Rank => 4,
            SortKey::City => 5,
            SortKey::SellStartDate => 6,
            SortKey::DisplayName => 7,
        }
    }

    pub fn from_wire(v: i32) -> (r: Option<SortKey>)
        ensures
            r == SortKey::spec_from_wire(v as int),
    {
        match v {
            0 => Some(SortKey::Price),
            1 => Some(SortKey::Name),
            2 => Some(SortKey::Volume),
            3 => Some(SortKey::Vintage),
            4 => Some(SortKey::Rank),
            5 => Some(SortKey::City),
            6 => Some(SortKey::SellStartDate),
            7 => Some(SortKey::DisplayName),
            _ => None,
        }
    }

    /// The wire integer of a key decodes back to that key.
    pub proof fn lemma_wire_round_trip(self)
        ensures
            SortKey::spec_from_wire(self.spec_wire()) == Some(self),
    {
    }
}

/// One API-reported error: a machine-readable code and a human message.
#[derive(Debug)]
pub struct ApiError {
    pub error: String,
    pub message: String,
}

/// Display text of a single API error.
pub open spec fn api_error_text(e: ApiError) -> Seq<char> {
    "error code: "@ + e.error@ + ", message: "@ + e.message@
}

/// One entry of the many-errors display form: the entry parenthesized.
pub open spec fn paren_text(e: ApiError) -> Seq<char> {
    "("@ + api_error_text(e) + ")"@
}

/// The parenthesized entries joined with `, `.
pub open spec fn joined_text(es: Seq<ApiError>) -> Seq<char>
    decreases es.len(),
{
    if es.len() == 0 {
        Seq::empty()
    } else if es.len() == 1 {
        paren_text(es[0])
    } else {
        joined_text(es.drop_last()) + ", "@ + paren_text(es.last())
    }
}

/// Display text of an API error sequence: a fixed generic message for zero
/// entries, the single entry's form for one, and the joined forms for many.
pub open spec fn api_list_text(es: Seq<ApiError>) -> Seq<char> {
    if es.len() == 0 {
        "API error: Got error response from API, but no error code or message"@
    } else if es.len() == 1 {
        "API error: "@ + api_error_text(es[0])
    } else {
        "API errors: "@ + joined_text(es)
    }
}

impl ApiError {
    /// Renders `error code: <code>, message: <message>`.
    pub fn render(&self) -> (r: String)
        ensures
            r@ == api_error_text(*self),
    {
        let mut out = String::from_str("error code: ");
        out.append(self.error.as_str());
        out.append(", message: ");
        out.append(self.message.as_str());
        proof {
            assert(out@ =~= api_error_text(*self));
        }
        out
    }
}

/// The three disjoint failure kinds of an operation.
#[derive(Debug)]
pub enum Error {
    /// The body matched neither the success shape nor the error shape; carries
    /// the diagnostic of the failed success-parse and the raw body verbatim.
    Parse { err: String, body: String },
    /// The server answered with a well-formed error payload, order and count
    /// preserved.
    Api(Vec<ApiError>),
    /// The underlying request/response exchange failed; carries the transport
    /// diagnostic.
    Transport(String),
}

/// Display text of the error union.
pub open spec fn error_text(e: Error) -> Seq<char> {
    match e {
        Error::Parse { err, body } => "Serialization/deserialization error: "@ + err@
            + ". Response body: '"@ + body@ + "'"@,
        Error::Api(errors) => api_list_text(errors@),
        Error::Transport(msg) => "Network error: "@ + msg@,
    }
}

impl From<Vec<ApiError>> for Error {
    /// Wraps an error payload as the API failure kind.
    fn from(errors: Vec<ApiError>) -> (r: Error)
        ensures
            r == Error::Api(errors),
    {
        Error::Api(errors)
    }
}

impl vstd::std_specs::convert::FromSpecImpl<Vec<ApiError>> for Error {
    open spec fn obeys_from_spec() -> bool {
        true
    }

    open spec fn from_spec(errors: Vec<ApiError>) -> Error {
        Error::Api(errors)
    }
}

fn render_api_list(es: &Vec<ApiError>) -> (r: String)
    ensures
        r@ == api_list_text(es@),
{
    if es.len() == 0 {
        String::from_str("API error: Got error response from API, but no error code or message")
    } else if es.len() == 1 {
        let mut out = String::from_str("API error: ");
        let entry = es[0].render();
        out.append(entry.as_str());
        proof {
            assert(out@ =~= api_list_text(es@));
        }
        out
    } else {
        let mut out = String::from_str("API errors: ");
        proof {
            assert(es@.take(0) =~= Seq::<ApiError>::empty());
            assert(out@ =~= "API errors: "@ + joined_text(es@.take(0)));
        }
        let n = es.len();
        let mut i: usize = 0;
        while i < n
            invariant
                2 <= n == es@.len(),
                i <= n,
                out@ == "API errors: "@ + joined_text(es@.take(i as int)),
            decreases n - i,
        {
            if i > 0 {
                out.append(", ");
            }
            out.append("(");
            let entry = es[i].render();
            out.append(entry.as_str());
            out.append(")");
            proof {
                let prev = es@.take(i as int);
                let cur = es@.take(i as int + 1);
                assert(cur.last() == es@[i as int]);
                assert(cur.drop_last() =~= prev);
                if i == 0 {
                    assert(joined_text(cur) == paren_text(es@[0]));
                    assert(out@ =~= "API errors: "@ + joined_text(cur));
                } else {
                    assert(joined_text(cur) == joined_text(prev) + ", "@ + paren_text(
                        es@[i as int],
                    ));
                    assert(out@ =~= "API errors: "@ + joined_text(cur));
                }
            }
            i = i + 1;
        }
        proof {
            assert(es@.take(n as int) =~= es@);
        }
        out
    }
}

impl Error {
    /// Renders the error for diagnostics, adapting the API-error form to the
    /// zero, one, or many entries it carries.
    pub fn render(&self) -> (r: String)
        ensures
            r@ == error_text(*self),
    {
        match self {
            Error::Parse { err, body } => {
                let mut out = String::from_str("Serialization/deserialization error: ");
                out.append(err.as_str());
                out.append(". Response body: '");
                out.append(body.as_str());
                out.append("'");
                proof {
                    assert(out@ =~= error_text(*self));
                }
                out
            },
            Error::Api(errors) => render_api_list(errors),
            Error::Transport(msg) => {
                let mut out = String::from_str("Network error: ");
                out.append(msg.as_str());
                proof {
                    assert(out@ =~= error_text(*self));
                }
                out
            },
        }
    }
}

/// One catalog item. Optional fields are unset when the response omits them;
/// required numeric, boolean, and date fields are always present in a
/// well-formed response.
#[derive(Debug)]
pub struct Product {
    pub alcohol_percentage: JsonNum,
    pub assortment: Option<String>,
    pub assortment_text: Option<String>,
    pub beverage_description_short: Option<String>,
    pub bottle_text_short: Option<String>,
    pub category: Option<String>,
    pub country: Option<String>,
    pub ethical_label: Option<String>,
    pub is_completely_out_of_stock: bool,
    pub is_ethical: bool,
    pub is_in_store_search_assortment: Option<String>,
    pub is_kosher: bool,
    pub is_manufacturing_country: bool,
    pub is_news: bool,
    pub is_organic: bool,
    pub is_regional_restricted: bool,
    pub is_temporarily_out_of_stock: Option<bool>,
    pub is_web_launch: bool,
    /// Carried under the wire key `Type`, which is a reserved word here.
    pub kind: Option<String>,
    pub origin_level_1: Option<String>,
    pub origin_level_2: Option<String>,
    pub price: JsonNum,
    pub producer_name: Option<String>,
    pub product_id: String,
    pub product_name_bold: String,
    pub product_name_thin: Option<String>,
    pub product_number_short: Option<String>,
    pub product_number: String,
    pub recycle_fee: JsonNum,
    pub restricted_parcel_quantity: i32,
    pub seal: Option<String>,
    pub sell_start_date: CalendarDate,
    pub style: Option<String>,
    pub sub_category: Option<String>,
    pub supplier_name: Option<String>,
    pub taste: Option<String>,
    pub usage: Option<String>,
    pub vintage: i32,
    pub volume: JsonNum,
}

impl Product {
    /// Well-formedness: the sell-start date names a real calendar day.
    pub open spec fn wf(self) -> bool {
        self.sell_start_date.wf()
    }
}

/// A store stub: product id and product number without full detail.
#[derive(Debug)]
pub struct ProductWithStore {
    pub product_id: String,
    pub product_number: String,
}

/// A store identifier paired with its ordered product stubs.
#[derive(Debug)]
pub struct ProductsWithStore {
    pub site_id: String,
    pub products: Vec<ProductWithStore>,
}

} // verus!

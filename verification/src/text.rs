//! Verified JSON text output: string escaping, integer printing, and the
//! serialized request body in which every field appears, unset ones as
//! explicit nulls.

use vstd::prelude::*;
use vstd::string::*;
use crate::date::{CalendarDate, date_text, digit_char, push_digit};
use crate::num::JsonNum;
use crate::records::{Product, SortDirection, SortKey};
use crate::search::{
    FieldV, SearchRequest, SearchRequestV, field_of_date, field_of_num, field_of_page,
    field_of_sort_direction, field_of_sort_key, field_of_str, opt_num_view, opt_str_view,
};

verus! {

pub open spec fn hex_char(d: int) -> char {
    if d < 10 {
        digit_char(d)
    } else if d == 10 {
        'a'
    } else if d == 11 {
        'b'
    } else if d == 12 {
        'c'
    } else if d == 13 {
        'd'
    } else if d == 14 {
        'e'
    } else {
        'f'
    }
}

/// The escaped form of one character inside a JSON string: quote and
/// backslash get a backslash escape, control characters a `\u00XX` escape,
/// and every other character stands as itself.
pub open spec fn escaped_char(c: char) -> Seq<char> {
    if c == '"' {
        seq!['\\', '"']
    } else if c == '\\' {
        seq!['\\', '\\']
    } else if (c as u32) < 32 {
        seq!['\\', 'u', '0', '0', hex_char((c as u32) as int / 16), hex_char(
            (c as u32) as int % 16,
        )]
    } else {
        seq![c]
    }
}

/// The escaped form of a whole text.
pub open spec fn spec_escape(s: Seq<char>) -> Seq<char>
    decreases s.len(),
{
    if s.len() == 0 {
        Seq::empty()
    } else {
        spec_escape(s.drop_last()) + escaped_char(s.last())
    }
}

/// A JSON string token: the escaped text between quotes.
pub open spec fn json_str_text(s: Seq<char>) -> Seq<char> {
    "\""@ + spec_escape(s) + "\""@
}

fn push_hex(out: &mut String, d: u8)
    requires
        d < 16,
    ensures
        final(out)@ == old(out)@.push(hex_char(d as int)),
{
    if d < 10 {
        push_digit(out, d);
    } else {
        match d {
            10 => {
                out.append("a");
                proof {
                    reveal_strlit("a");
                    assert(out@ =~= old(out)@.push('a'));
                }
            },
            11 => {
                out.append("b");
                proof {
                    reveal_strlit("b");
                    assert(out@ =~= old(out)@.push('b'));
                }
            },
            12 => {
                out.append("c");
                proof {
                    reveal_strlit("c");
                    assert(out@ =~= old(out)@.push('c'));
                }
            },
            13 => {
                out.append("d");
                proof {
                    reveal_strlit("d");
                    assert(out@ =~= old(out)@.push('d'));
                }
            },
            14 => {
                out.append("e");
                proof {
                    reveal_strlit("e");
                    assert(out@ =~= old(out)@.push('e'));
                }
            },
            _ => {
                out.append("f");
                proof {
                    reveal_strlit("f");
                    assert(out@ =~= old(out)@.push('f'));
                }
            },
        }
    }
}

/// Appends a quoted, escaped JSON string token for `s`.
fn push_json_string(out: &mut String, s: &str)
    ensures
        final(out)@ == old(out)@ + json_str_text(s@),
{
    out.append("\"");
    let n = s.unicode_len();
    let mut i: usize = 0;
    while i < n
        invariant
            i <= n,
            n == s@.len(),
            out@ == old(out)@ + "\""@ + spec_escape(s@.take(i as int)),
        decreases n - i,
    {
        let c = s.get_char(i);
        proof {
            assert(s@.take(i as int + 1).drop_last() =~= s@.take(i as int));
            assert(s@.take(i as int + 1).last() == s@[i as int]);
        }
        if c == '"' {
            out.append("\\\"");
            proof {
                reveal_strlit("\\\"");
                assert(out@ =~= old(out)@ + "\""@ + spec_escape(s@.take(i as int + 1)));
            }
        } else if c == '\\' {
            out.append("\\\\");
            proof {
                reveal_strlit("\\\\");
                assert(out@ =~= old(out)@ + "\""@ + spec_escape(s@.take(i as int + 1)));
            }
        } else if (c as u32) < 32 {
            let u = c as u32;
            out.append("\\u00");
            push_hex(out, (u / 16) as u8);
            push_hex(out, (u % 16) as u8);
            proof {
                reveal_strlit("\\u00");
                assert(out@ =~= old(out)@ + "\""@ + spec_escape(s@.take(i as int + 1)));
            }
        } else {
            let piece = s.substring_char(i, i + 1);
            out.append(piece);
            proof {
                assert(piece@ =~= seq![s@[i as int]]);
                assert(out@ =~= old(out)@ + "\""@ + spec_escape(s@.take(i as int + 1)));
            }
        }
        i = i + 1;
    }
    out.append("\"");
    proof {
        assert(s@.take(n as int) =~= s@);
        assert(out@ =~= old(out)@ + json_str_text(s@));
    }
}

/// Decimal digits of a non-negative integer.
pub open spec fn nat_digits(n: int) -> Seq<char>
    decreases n,
{
    if n < 10 {
        seq![digit_char(n)]
    } else {
        nat_digits(n / 10) + seq![digit_char(n % 10)]
    }
}

/// Decimal text of an integer, with a leading minus sign when negative.
pub open spec fn int_text(i: int) -> Seq<char> {
    if i < 0 {
        "-"@ + nat_digits(-i)
    } else {
        nat_digits(i)
    }
}

fn push_u32(out: &mut String, n: u32)
    ensures
        final(out)@ == old(out)@ + nat_digits(n as int),
    decreases n,
{
    if n < 10 {
        push_digit(out, n as u8);
        proof {
            assert(out@ =~= old(out)@ + nat_digits(n as int));
        }
    } else {
        push_u32(out, n / 10);
        push_digit(out, (n % 10) as u8);
        proof {
            assert(out@ =~= old(out)@ + nat_digits(n as int));
        }
    }
}

/// Appends the decimal text of a signed integer.
fn push_i32(out: &mut String, v: i32)
    ensures
        final(out)@ == old(out)@ + int_text(v as int),
{
    if v < 0 {
        out.append("-");
        let m = (-(v as i64)) as u32;
        push_u32(out, m);
        proof {
            assert(out@ =~= old(out)@ + int_text(v as int));
        }
    } else {
        push_u32(out, v as u32);
    }
}

/// Text of one serialized field value.
pub open spec fn value_text(f: FieldV) -> Seq<char> {
    match f {
        FieldV::Null => "null"@,
        FieldV::Str(s) => json_str_text(s),
        FieldV::Int(i) => int_text(i),
        FieldV::Num(s) => s,
        FieldV::Date(d) => "\""@ + date_text(d) + "\""@,
    }
}

/// Text of one `"key":value` member.
pub open spec fn field_text(key: Seq<char>, f: FieldV) -> Seq<char> {
    "\""@ + key + "\":"@ + value_text(f)
}

fn push_key(out: &mut String, key: &str)
    ensures
        final(out)@ == old(out)@ + "\""@ + key@ + "\":"@,
{
    out.append("\"");
    out.append(key);
    out.append("\":");
    proof {
        assert(out@ =~= old(out)@ + "\""@ + key@ + "\":"@);
    }
}

fn push_str_field(out: &mut String, key: &str, o: &Option<String>)
    ensures
        final(out)@ == old(out)@ + field_text(key@, field_of_str(opt_str_view(*o))),
{
    push_key(out, key);
    match o {
        None => {
            out.append("null");
        },
        Some(s) => {
            push_json_string(out, s.as_str());
        },
    }
    proof {
        assert(out@ =~= old(out)@ + field_text(key@, field_of_str(opt_str_view(*o))));
    }
}

fn push_num_field(out: &mut String, key: &str, o: &Option<JsonNum>)
    ensures
        final(out)@ == old(out)@ + field_text(key@, field_of_num(opt_num_view(*o))),
{
    push_key(out, key);
    match o {
        None => {
            out.append("null");
        },
        Some(n) => {
            out.append(n.as_text());
        },
    }
    proof {
        assert(out@ =~= old(out)@ + field_text(key@, field_of_num(opt_num_view(*o))));
    }
}

fn push_date_field(out: &mut String, key: &str, o: &Option<CalendarDate>)
    requires
        o matches Some(d) ==> d.wf(),
    ensures
        final(out)@ == old(out)@ + field_text(key@, field_of_date(*o)),
{
    push_key(out, key);
    match o {
        None => {
            out.append("null");
        },
        Some(d) => {
            out.append("\"");
            let t = d.to_wire();
            out.append(t.as_str());
            out.append("\"");
        },
    }
    proof {
        assert(out@ =~= old(out)@ + field_text(key@, field_of_date(*o)));
    }
}

fn push_page_field(out: &mut String, key: &str, o: &Option<i32>)
    ensures
        final(out)@ == old(out)@ + field_text(key@, field_of_page(*o)),
{
    push_key(out, key);
    match o {
        None => {
            out.append("null");
        },
        Some(i) => {
            push_i32(out, *i);
        },
    }
    proof {
        assert(out@ =~= old(out)@ + field_text(key@, field_of_page(*o)));
    }
}

fn push_sort_key_field(out: &mut String, key: &str, o: &Option<SortKey>)
    ensures
        final(out)@ == old(out)@ + field_text(key@, field_of_sort_key(*o)),
{
    push_key(out, key);
    match o {
        None => {
            out.append("null");
        },
        Some(k) => {
            let w = k.wire_value();
            push_i32(out, w);
        },
    }
    proof {
        assert(out@ =~= old(out)@ + field_text(key@, field_of_sort_key(*o)));
    }
}

fn push_sort_direction_field(out: &mut String, key: &str, o: &Option<SortDirection>)
    ensures
        final(out)@ == old(out)@ + field_text(key@, field_of_sort_direction(*o)),
{
    push_key(out, key);
    match o {
        None => {
            out.append("null");
        },
        Some(d) => {
            let w = d.wire_value();
            push_i32(out, w);
        },
    }
    proof {
        assert(out@ =~= old(out)@ + field_text(key@, field_of_sort_direction(*o)));
    }
}

/// The serialized request body: one JSON object holding all 23 fields in
/// declaration order, the product-type criterion under the wire key `type`.
pub open spec fn spec_body(v: SearchRequestV) -> Seq<char> {
    "{"@ + field_text("alcohol_percentage_max"@, field_of_num(v.alcohol_percentage_max)) + ","@
        + field_text("alcohol_percentage_min"@, field_of_num(v.alcohol_percentage_min)) + ","@
        + field_text("assortment_text"@, field_of_str(v.assortment_text)) + ","@ + field_text(
        "bottle_type_group"@,
        field_of_str(v.bottle_type_group),
    ) + ","@ + field_text("country"@, field_of_str(v.country)) + ","@ + field_text(
        "csr"@,
        field_of_str(v.csr),
    ) + ","@ + field_text("type"@, field_of_str(v.kind)) + ","@ + field_text(
        "news"@,
        field_of_str(v.news),
    ) + ","@ + field_text("origin_level_1"@, field_of_str(v.origin_level_1)) + ","@ + field_text(
        "origin_level_2"@,
        field_of_str(v.origin_level_2),
    ) + ","@ + field_text("other_selections"@, field_of_str(v.other_selections)) + ","@
        + field_text("page"@, field_of_page(v.page)) + ","@ + field_text(
        "price_max"@,
        field_of_num(v.price_max),
    ) + ","@ + field_text("price_min"@, field_of_num(v.price_min)) + ","@ + field_text(
        "seal"@,
        field_of_str(v.seal),
    ) + ","@ + field_text("search_query"@, field_of_str(v.search_query)) + ","@ + field_text(
        "sell_start_date_from"@,
        field_of_date(v.sell_start_date_from),
    ) + ","@ + field_text("sell_start_date_to"@, field_of_date(v.sell_start_date_to)) + ","@
        + field_text("sort_by"@, field_of_sort_key(v.sort_by)) + ","@ + field_text(
        "sort_direction"@,
        field_of_sort_direction(v.sort_direction),
    ) + ","@ + field_text("style"@, field_of_str(v.style)) + ","@ + field_text(
        "sub_category"@,
        field_of_str(v.sub_category),
    ) + ","@ + field_text("vintage"@, field_of_str(v.vintage)) + "}"@
}

impl SearchRequest {
    /// Serializes the request as its JSON body text.
    #[verifier::rlimit(60)]
    pub fn to_body(&self) -> (r: String)
        requires
            self.sell_start_date_from matches Some(d) ==> d.wf(),
            self.sell_start_date_to matches Some(d) ==> d.wf(),
        ensures
            r@ == spec_body(self@),
    {
        let mut out = String::from_str("{");
        push_num_field(&mut out, "alcohol_percentage_max", &self.alcohol_percentage_max);
        out.append(",");
        push_num_field(&mut out, "alcohol_percentage_min", &self.alcohol_percentage_min);
        out.append(",");
        push_str_field(&mut out, "assortment_text", &self.assortment_text);
        out.append(",");
        push_str_field(&mut out, "bottle_type_group", &self.bottle_type_group);
        out.append(",");
        push_str_field(&mut out, "country", &self.country);
        out.append(",");
        push_str_field(&mut out, "csr", &self.csr);
        out.append(",");
        push_str_field(&mut out, "type", &self.kind);
        out.append(",");
        push_str_field(&mut out, "news", &self.news);
        out.append(",");
        push_str_field(&mut out, "origin_level_1", &self.origin_level_1);
        out.append(",");
        push_str_field(&mut out, "origin_level_2", &self.origin_level_2);
        out.append(",");
        push_str_field(&mut out, "other_selections", &self.other_selections);
        out.append(",");
        push_page_field(&mut out, "page", &self.page);
        out.append(",");
        push_num_field(&mut out, "price_max", &self.price_max);
        out.append(",");
        push_num_field(&mut out, "price_min", &self.price_min);
        out.append(",");
        push_str_field(&mut out, "seal", &self.seal);
        out.append(",");
        push_str_field(&mut out, "search_query", &self.search_query);
        out.append(",");
        push_date_field(&mut out, "sell_start_date_from", &self.sell_start_date_from);
        out.append(",");
        push_date_field(&mut out, "sell_start_date_to", &self.sell_start_date_to);
        out.append(",");
        push_sort_key_field(&mut out, "sort_by", &self.sort_by);
        out.append(",");
        push_sort_direction_field(&mut out, "sort_direction", &self.sort_direction);
        out.append(",");
        push_str_field(&mut out, "style", &self.style);
        out.append(",");
        push_str_field(&mut out, "sub_category", &self.sub_category);
        out.append(",");
        push_str_field(&mut out, "vintage", &self.vintage);
        out.append("}");
        proof {
            assert(out@ =~= spec_body(self@));
        }
        out
    }
}

// --- Serialization of a catalog item back to its wire object ---

pub open spec fn member_opt_str(key: Seq<char>, o: Option<Seq<char>>) -> Seq<char> {
    "\""@ + key + "\":"@ + match o {
        None => "null"@,
        Some(s) => json_str_text(s),
    }
}

pub open spec fn member_str(key: Seq<char>, s: Seq<char>) -> Seq<char> {
    "\""@ + key + "\":"@ + json_str_text(s)
}

pub open spec fn bool_text(b: bool) -> Seq<char> {
    if b {
        "true"@
    } else {
        "false"@
    }
}

pub open spec fn member_bool(key: Seq<char>, b: bool) -> Seq<char> {
    "\""@ + key + "\":"@ + bool_text(b)
}

pub open spec fn member_opt_bool(key: Seq<char>, o: Option<bool>) -> Seq<char> {
    "\""@ + key + "\":"@ + match o {
        None => "null"@,
        Some(b) => bool_text(b),
    }
}

pub open spec fn member_num(key: Seq<char>, s: Seq<char>) -> Seq<char> {
    "\""@ + key + "\":"@ + s
}

pub open spec fn member_i32(key: Seq<char>, i: int) -> Seq<char> {
    "\""@ + key + "\":"@ + int_text(i)
}

pub open spec fn member_date(key: Seq<char>, d: CalendarDate) -> Seq<char> {
    "\""@ + key + "\":"@ + "\""@ + date_text(d) + "\""@
}

fn push_member_opt_str(out: &mut String, key: &str, o: &Option<String>)
    ensures
        final(out)@ == old(out)@ + member_opt_str(key@, opt_str_view(*o)),
{
    push_key(out, key);
    match o {
        None => {
            out.append("null");
        },
        Some(s) => {
            push_json_string(out, s.as_str());
        },
    }
    proof {
        assert(out@ =~= old(out)@ + member_opt_str(key@, opt_str_view(*o)));
    }
}

fn push_member_str(out: &mut String, key: &str, s: &String)
    ensures
        final(out)@ == old(out)@ + member_str(key@, s@),
{
    push_key(out, key);
    push_json_string(out, s.as_str());
    proof {
        assert(out@ =~= old(out)@ + member_str(key@, s@));
    }
}

fn push_member_bool(out: &mut String, key: &str, b: bool)
    ensures
        final(out)@ == old(out)@ + member_bool(key@, b),
{
    push_key(out, key);
    if b {
        out.append("true");
    } else {
        out.append("false");
    }
    proof {
        assert(out@ =~= old(out)@ + member_bool(key@, b));
    }
}

fn push_member_opt_bool(out: &mut String, key: &str, o: &Option<bool>)
    ensures
        final(out)@ == old(out)@ + member_opt_bool(key@, *o),
{
    push_key(out, key);
    match o {
        None => {
            out.append("null");
        },
        Some(b) => {
            if *b {
                out.append("true");
            } else {
                out.append("false");
            }
        },
    }
    proof {
        assert(out@ =~= old(out)@ + member_opt_bool(key@, *o));
    }
}

fn push_member_num(out: &mut String, key: &str, n: &JsonNum)
    ensures
        final(out)@ == old(out)@ + member_num(key@, n@),
{
    push_key(out, key);
    out.append(n.as_text());
    proof {
        assert(out@ =~= old(out)@ + member_num(key@, n@));
    }
}

fn push_member_i32(out: &mut String, key: &str, v: i32)
    ensures
        final(out)@ == old(out)@ + member_i32(key@, v as int),
{
    push_key(out, key);
    push_i32(out, v);
    proof {
        assert(out@ =~= old(out)@ + member_i32(key@, v as int));
    }
}

fn push_member_date(out: &mut String, key: &str, d: &CalendarDate)
    requires
        d.wf(),
    ensures
        final(out)@ == old(out)@ + member_date(key@, *d),
{
    push_key(out, key);
    out.append("\"");
    let t = d.to_wire();
    out.append(t.as_str());
    out.append("\"");
    proof {
        assert(out@ =~= old(out)@ + member_date(key@, *d));
    }
}

/// The wire object of a catalog item: every field under its capitalized
/// wire key in declaration order, the product type under `Type`.
pub open spec fn spec_product_json(p: Product) -> Seq<char> {
    "{"@ + member_num("AlcoholPercentage"@, p.alcohol_percentage@) + ","@ + member_opt_str(
        "Assortment"@,
        opt_str_view(p.assortment),
    ) + ","@ + member_opt_str("AssortmentText"@, opt_str_view(p.assortment_text)) + ","@
        + member_opt_str("BeverageDescriptionShort"@, opt_str_view(p.beverage_description_short))
        + ","@ + member_opt_str("BottleTextShort"@, opt_str_view(p.bottle_text_short)) + ","@
        + member_opt_str("Category"@, opt_str_view(p.category)) + ","@ + member_opt_str(
        "Country"@,
        opt_str_view(p.country),
    ) + ","@ + member_opt_str("EthicalLabel"@, opt_str_view(p.ethical_label)) + ","@ + member_bool(
        "IsCompletelyOutOfStock"@,
        p.is_completely_out_of_stock,
    ) + ","@ + member_bool("IsEthical"@, p.is_ethical) + ","@ + member_opt_str(
        "IsInStoreSearchAssortment"@,
        opt_str_view(p.is_in_store_search_assortment),
    ) + ","@ + member_bool("IsKosher"@, p.is_kosher) + ","@ + member_bool(
        "IsManufacturingCountry"@,
        p.is_manufacturing_country,
    ) + ","@ + member_bool("IsNews"@, p.is_news) + ","@ + member_bool("IsOrganic"@, p.is_organic)
        + ","@ + member_bool("IsRegionalRestricted"@, p.is_regional_restricted) + ","@
        + member_opt_bool("IsTemporarilyOutOfStock"@, p.is_temporarily_out_of_stock) + ","@
        + member_bool("IsWebLaunch"@, p.is_web_launch) + ","@ + member_opt_str(
        "Type"@,
        opt_str_view(p.kind),
    ) + ","@ + member_opt_str("OriginLevel1"@, opt_str_view(p.origin_level_1)) + ","@
        + member_opt_str("OriginLevel2"@, opt_str_view(p.origin_level_2)) + ","@ + member_num(
        "Price"@,
        p.price@,
    ) + ","@ + member_opt_str("ProducerName"@, opt_str_view(p.producer_name)) + ","@ + member_str(
        "ProductId"@,
        p.product_id@,
    ) + ","@ + member_str("ProductNameBold"@, p.product_name_bold@) + ","@ + member_opt_str(
        "ProductNameThin"@,
        opt_str_view(p.product_name_thin),
    ) + ","@ + member_opt_str("ProductNumberShort"@, opt_str_view(p.product_number_short)) + ","@
        + member_str("ProductNumber"@, p.product_number@) + ","@ + member_num(
        "RecycleFee"@,
        p.recycle_fee@,
    ) + ","@ + member_i32("RestrictedParcelQuantity"@, p.restricted_parcel_quantity as int) + ","@
        + member_opt_str("Seal"@, opt_str_view(p.seal)) + ","@ + member_date(
        "SellStartDate"@,
        p.sell_start_date,
    ) + ","@ + member_opt_str("Style"@, opt_str_view(p.style)) + ","@ + member_opt_str(
        "SubCategory"@,
        opt_str_view(p.sub_category),
    ) + ","@ + member_opt_str("SupplierName"@, opt_str_view(p.supplier_name)) + ","@
        + member_opt_str("Taste"@, opt_str_view(p.taste)) + ","@ + member_opt_str(
        "Usage"@,
        opt_str_view(p.usage),
    ) + ","@ + member_i32("Vintage"@, p.vintage as int) + ","@ + member_num("Volume"@, p.volume@)
        + "}"@
}

impl Product {
    /// Serializes the item back to its wire object.
    #[verifier::rlimit(100)]
    pub fn to_wire_json(&self) -> (r: String)
        requires
            self.wf(),
        ensures
            r@ == spec_product_json(*self),
    {
        let mut out = String::from_str("{");
        push_member_num(&mut out, "AlcoholPercentage", &self.alcohol_percentage);
        out.append(",");
        push_member_opt_str(&mut out, "Assortment", &self.assortment);
        out.append(",");
        push_member_opt_str(&mut out, "AssortmentText", &self.assortment_text);
        out.append(",");
        push_member_opt_str(&mut out, "BeverageDescriptionShort", &self.beverage_description_short);
        out.append(",");
        push_member_opt_str(&mut out, "BottleTextShort", &self.bottle_text_short);
        out.append(",");
        push_member_opt_str(&mut out, "Category", &self.category);
        out.append(",");
        push_member_opt_str(&mut out, "Country", &self.country);
        out.append(",");
        push_member_opt_str(&mut out, "EthicalLabel", &self.ethical_label);
        out.append(",");
        push_member_bool(&mut out, "IsCompletelyOutOfStock", self.is_completely_out_of_stock);
        out.append(",");
        push_member_bool(&mut out, "IsEthical", self.is_ethical);
        out.append(",");
        push_member_opt_str(
            &mut out,
            "IsInStoreSearchAssortment",
            &self.is_in_store_search_assortment,
        );
        out.append(",");
        push_member_bool(&mut out, "IsKosher", self.is_kosher);
        out.append(",");
        push_member_bool(&mut out, "IsManufacturingCountry", self.is_manufacturing_country);
        out.append(",");
        push_member_bool(&mut out, "IsNews", self.is_news);
        out.append(",");
        push_member_bool(&mut out, "IsOrganic", self.is_organic);
        out.append(",");
        push_member_bool(&mut out, "IsRegionalRestricted", self.is_regional_restricted);
        out.append(",");
        push_member_opt_bool(&mut out, "IsTemporarilyOutOfStock", &self.is_temporarily_out_of_stock);
        out.append(",");
        push_member_bool(&mut out, "IsWebLaunch", self.is_web_launch);
        out.append(",");
        push_member_opt_str(&mut out, "Type", &self.kind);
        out.append(",");
        push_member_opt_str(&mut out, "OriginLevel1", &self.origin_level_1);
        out.append(",");
        push_member_opt_str(&mut out, "OriginLevel2", &self.origin_level_2);
        out.append(",");
        push_member_num(&mut out, "Price", &self.price);
        out.append(",");
        push_member_opt_str(&mut out, "ProducerName", &self.producer_name);
        out.append(",");
        push_member_str(&mut out, "ProductId", &self.product_id);
        out.append(",");
        push_member_str(&mut out, "ProductNameBold", &self.product_name_bold);
        out.append(",");
        push_member_opt_str(&mut out, "ProductNameThin", &self.product_name_thin);
        out.append(",");
        push_member_opt_str(&mut out, "ProductNumberShort", &self.product_number_short);
        out.append(",");
        push_member_str(&mut out, "ProductNumber", &self.product_number);
        out.append(",");
        push_member_num(&mut out, "RecycleFee", &self.recycle_fee);
        out.append(",");
        push_member_i32(&mut out, "RestrictedParcelQuantity", self.restricted_parcel_quantity);
        out.append(",");
        push_member_opt_str(&mut out, "Seal", &self.seal);
        out.append(",");
        push_member_date(&mut out, "SellStartDate", &self.sell_start_date);
        out.append(",");
        push_member_opt_str(&mut out, "Style", &self.style);
        out.append(",");
        push_member_opt_str(&mut out, "SubCategory", &self.sub_category);
        out.append(",");
        push_member_opt_str(&mut out, "SupplierName", &self.supplier_name);
        out.append(",");
        push_member_opt_str(&mut out, "Taste", &self.taste);
        out.append(",");
        push_member_opt_str(&mut out, "Usage", &self.usage);
        out.append(",");
        push_member_i32(&mut out, "Vintage", self.vintage);
        out.append(",");
        push_member_num(&mut out, "Volume", &self.volume);
        out.append("}");
        proof {
            assert(out@ =~= spec_product_json(*self));
        }
        out
    }
}

} // verus!

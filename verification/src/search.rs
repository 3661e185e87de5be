//! The search-query builder: ~20 independently optional filter and sort
//! criteria, accumulated through chained setters and serialized as one JSON
//! object in which every field appears, unset ones as explicit nulls.

use vstd::prelude::*;
use vstd::string::*;
use crate::date::CalendarDate;
use crate::num::{JsonNum, is_json_number};
use crate::records::{SortDirection, SortKey};

verus! {

/// The mathematical value of a search request: each criterion either unset
/// or carrying its plain value.
#[verifier::ext_equal]
pub struct SearchRequestV {
    pub alcohol_percentage_max: Option<Seq<char>>,
    pub alcohol_percentage_min: Option<Seq<char>>,
    pub assortment_text: Option<Seq<char>>,
    pub bottle_type_group: Option<Seq<char>>,
    pub country: Option<Seq<char>>,
    pub csr: Option<Seq<char>>,
    pub kind: Option<Seq<char>>,
    pub news: Option<Seq<char>>,
    pub origin_level_1: Option<Seq<char>>,
    pub origin_level_2: Option<Seq<char>>,
    pub other_selections: Option<Seq<char>>,
    pub page: Option<i32>,
    pub price_max: Option<Seq<char>>,
    pub price_min: Option<Seq<char>>,
    pub seal: Option<Seq<char>>,
    pub search_query: Option<Seq<char>>,
    pub sell_start_date_from: Option<CalendarDate>,
    pub sell_start_date_to: Option<CalendarDate>,
    pub sort_by: Option<SortKey>,
    pub sort_direction: Option<SortDirection>,
    pub style: Option<Seq<char>>,
    pub sub_category: Option<Seq<char>>,
    pub vintage: Option<Seq<char>>,
}

pub open spec fn opt_str_view(o: Option<String>) -> Option<Seq<char>> {
    match o {
        Some(s) => Some(s@),
        None => None,
    }
}

pub open spec fn opt_num_view(o: Option<JsonNum>) -> Option<Seq<char>> {
    match o {
        Some(n) => Some(n@),
        None => None,
    }
}

impl SearchRequestV {
    /// The all-unset default state.
    pub open spec fn unset() -> SearchRequestV {
        SearchRequestV {
            alcohol_percentage_max: None,
            alcohol_percentage_min: None,
            assortment_text: None,
            bottle_type_group: None,
            country: None,
            csr: None,
            kind: None,
            news: None,
            origin_level_1: None,
            origin_level_2: None,
            other_selections: None,
            page: None,
            price_max: None,
            price_min: None,
            seal: None,
            search_query: None,
            sell_start_date_from: None,
            sell_start_date_to: None,
            sort_by: None,
            sort_direction: None,
            style: None,
            sub_category: None,
            vintage: None,
        }
    }

    /// Well-formedness: set dates name real calendar days and set numeric
    /// bounds are JSON number literals.
    pub open spec fn wf(self) -> bool {
        &&& (self.alcohol_percentage_max matches Some(s) ==> is_json_number(s))
        &&& (self.alcohol_percentage_min matches Some(s) ==> is_json_number(s))
        &&& (self.price_max matches Some(s) ==> is_json_number(s))
        &&& (self.price_min matches Some(s) ==> is_json_number(s))
        &&& (self.sell_start_date_from matches Some(d) ==> d.wf())
        &&& (self.sell_start_date_to matches Some(d) ==> d.wf())
    }
}

/// A search request under construction. Every field starts unset; setters
/// update one field and leave the others untouched.
#[derive(Debug)]
pub struct SearchRequest {
    pub alcohol_percentage_max: Option<JsonNum>,
    pub alcohol_percentage_min: Option<JsonNum>,
    pub assortment_text: Option<String>,
    pub bottle_type_group: Option<String>,
    pub country: Option<String>,
    pub csr: Option<String>,
    /// Carried under the wire key `type`, which is a reserved word here.
    pub kind: Option<String>,
    pub news: Option<String>,
    pub origin_level_1: Option<String>,
    pub origin_level_2: Option<String>,
    pub other_selections: Option<String>,
    pub page: Option<i32>,
    pub price_max: Option<JsonNum>,
    pub price_min: Option<JsonNum>,
    pub seal: Option<String>,
    pub search_query: Option<String>,
    pub sell_start_date_from: Option<CalendarDate>,
    pub sell_start_date_to: Option<CalendarDate>,
    pub sort_by: Option<SortKey>,
    pub sort_direction: Option<SortDirection>,
    pub style: Option<String>,
    pub sub_category: Option<String>,
    pub vintage: Option<String>,
}

impl View for SearchRequest {
    type V = SearchRequestV;

    open spec fn view(&self) -> SearchRequestV {
        SearchRequestV {
            alcohol_percentage_max: opt_num_view(self.alcohol_percentage_max),
            alcohol_percentage_min: opt_num_view(self.alcohol_percentage_min),
            assortment_text: opt_str_view(self.assortment_text),
            bottle_type_group: opt_str_view(self.bottle_type_group),
            country: opt_str_view(self.country),
            csr: opt_str_view(self.csr),
            kind: opt_str_view(self.kind),
            news: opt_str_view(self.news),
            origin_level_1: opt_str_view(self.origin_level_1),
            origin_level_2: opt_str_view(self.origin_level_2),
            other_selections: opt_str_view(self.other_selections),
            page: self.page,
            price_max: opt_num_view(self.price_max),
            price_min: opt_num_view(self.price_min),
            seal: opt_str_view(self.seal),
            search_query: opt_str_view(self.search_query),
            sell_start_date_from: self.sell_start_date_from,
            sell_start_date_to: self.sell_start_date_to,
            sort_by: self.sort_by,
            sort_direction: self.sort_direction,
            style: opt_str_view(self.style),
            sub_category: opt_str_view(self.sub_category),
            vintage: opt_str_view(self.vintage),
        }
    }
}

impl Default for SearchRequest {
    /// The all-unset default state.
    fn default() -> (r: SearchRequest)
        ensures
            r@ == SearchRequestV::unset(),
    {
        SearchRequest::new()
    }
}

impl SearchRequest {
    /// A request with every criterion unset.
    pub fn new() -> (r: SearchRequest)
        ensures
            r@ == SearchRequestV::unset(),
    {
        let r = SearchRequest {
            alcohol_percentage_max: None,
            alcohol_percentage_min: None,
            assortment_text: None,
            bottle_type_group: None,
            country: None,
            csr: None,
            kind: None,
            news: None,
            origin_level_1: None,
            origin_level_2: None,
            other_selections: None,
            page: None,
            price_max: None,
            price_min: None,
            seal: None,
            search_query: None,
            sell_start_date_from: None,
            sell_start_date_to: None,
            sort_by: None,
            sort_direction: None,
            style: None,
            sub_category: None,
            vintage: None,
        };
        proof {
            assert(r@ =~= SearchRequestV::unset());
        }
        r
    }

    /// Reports whether the accumulated state differs from the all-unset
    /// default, as a guard against sending an empty query.
    pub fn validate(&self) -> (r: bool)
        ensures
            r == (self@ != SearchRequestV::unset()),
    {
        let unset = self.alcohol_percentage_max.is_none() && self.alcohol_percentage_min.is_none()
            && self.assortment_text.is_none() && self.bottle_type_group.is_none()
            && self.country.is_none() && self.csr.is_none() && self.kind.is_none()
            && self.news.is_none() && self.origin_level_1.is_none()
            && self.origin_level_2.is_none() && self.other_selections.is_none()
            && self.page.is_none() && self.price_max.is_none() && self.price_min.is_none()
            && self.seal.is_none() && self.search_query.is_none()
            && self.sell_start_date_from.is_none() && self.sell_start_date_to.is_none()
            && self.sort_by.is_none() && self.sort_direction.is_none() && self.style.is_none()
            && self.sub_category.is_none() && self.vintage.is_none();
        proof {
            if unset {
                assert(self@ =~= SearchRequestV::unset());
            }
        }
        !unset
    }

    pub fn alcohol_percentage_max(self, alcohol_percentage_max: Option<JsonNum>) -> (r:
        SearchRequest)
        ensures
            r@ == (SearchRequestV {
                alcohol_percentage_max: opt_num_view(alcohol_percentage_max),
                ..self@
            }),
    {
        SearchRequest { alcohol_percentage_max, ..self }
    }

    pub fn alcohol_percentage_min(self, alcohol_percentage_min: Option<JsonNum>) -> (r:
        SearchRequest)
        ensures
            r@ == (SearchRequestV {
                alcohol_percentage_min: opt_num_view(alcohol_percentage_min),
                ..self@
            }),
    {
        SearchRequest { alcohol_percentage_min, ..self }
    }

    pub fn assortment_text(self, assortment_text: Option<String>) -> (r: SearchRequest)
        ensures
            r@ == (SearchRequestV { assortment_text: opt_str_view(assortment_text), ..self@ }),
    {
        SearchRequest { assortment_text, ..self }
    }

    pub fn bottle_type_group(self, bottle_type_group: Option<String>) -> (r: SearchRequest)
        ensures
            r@ == (SearchRequestV { bottle_type_group: opt_str_view(bottle_type_group), ..self@ }),
    {
        SearchRequest { bottle_type_group, ..self }
    }

    pub fn country(self, country: Option<String>) -> (r: SearchRequest)
        ensures
            r@ == (SearchRequestV { country: opt_str_view(country), ..self@ }),
    {
        SearchRequest { country, ..self }
    }

    pub fn csr(self, csr: Option<String>) -> (r: SearchRequest)
        ensures
            r@ == (SearchRequestV { csr: opt_str_view(csr), ..self@ }),
    {
        SearchRequest { csr, ..self }
    }

    /// Sets the product type criterion, carried under the wire key `type`.
    pub fn kind(self, kind: Option<String>) -> (r: SearchRequest)
        ensures
            r@ == (SearchRequestV { kind: opt_str_view(kind), ..self@ }),
    {
        SearchRequest { kind, ..self }
    }

    pub fn news(self, news: Option<String>) -> (r: SearchRequest)
        ensures
            r@ == (SearchRequestV { news: opt_str_view(news), ..self@ }),
    {
        SearchRequest { news, ..self }
    }

    pub fn origin_level_1(self, origin_level_1: Option<String>) -> (r: SearchRequest)
        ensures
            r@ == (SearchRequestV { origin_level_1: opt_str_view(origin_level_1), ..self@ }),
    {
        SearchRequest { origin_level_1, ..self }
    }

    pub fn origin_level_2(self, origin_level_2: Option<String>) -> (r: SearchRequest)
        ensures
            r@ == (SearchRequestV { origin_level_2: opt_str_view(origin_level_2), ..self@ }),
    {
        SearchRequest { origin_level_2, ..self }
    }

    pub fn other_selections(self, other_selections: Option<String>) -> (r: SearchRequest)
        ensures
            r@ == (SearchRequestV { other_selections: opt_str_view(other_selections), ..self@ }),
    {
        SearchRequest { other_selections, ..self }
    }

    pub fn page(self, page: Option<i32>) -> (r: SearchRequest)
        ensures
            r@ == (SearchRequestV { page, ..self@ }),
    {
        SearchRequest { page, ..self }
    }

    pub fn price_max(self, price_max: Option<JsonNum>) -> (r: SearchRequest)
        ensures
            r@ == (SearchRequestV { price_max: opt_num_view(price_max), ..self@ }),
    {
        SearchRequest { price_max, ..self }
    }

    pub fn price_min(self, price_min: Option<JsonNum>) -> (r: SearchRequest)
        ensures
            r@ == (SearchRequestV { price_min: opt_num_view(price_min), ..self@ }),
    {
        SearchRequest { price_min, ..self }
    }

    pub fn seal(self, seal: Option<String>) -> (r: SearchRequest)
        ensures
            r@ == (SearchRequestV { seal: opt_str_view(seal), ..self@ }),
    {
        SearchRequest { seal, ..self }
    }

    pub fn search_query(self, search_query: Option<String>) -> (r: SearchRequest)
        ensures
            r@ == (SearchRequestV { search_query: opt_str_view(search_query), ..self@ }),
    {
        SearchRequest { search_query, ..self }
    }

    pub fn sell_start_date_from(self, sell_start_date_from: Option<CalendarDate>) -> (r:
        SearchRequest)
        ensures
            r@ == (SearchRequestV { sell_start_date_from, ..self@ }),
    {
        SearchRequest { sell_start_date_from, ..self }
    }

    pub fn sell_start_date_to(self, sell_start_date_to: Option<CalendarDate>) -> (r: SearchRequest)
        ensures
            r@ == (SearchRequestV { sell_start_date_to, ..self@ }),
    {
        SearchRequest { sell_start_date_to, ..self }
    }

    pub fn sort_by(self, sort_by: Option<SortKey>) -> (r: SearchRequest)
        ensures
            r@ == (SearchRequestV { sort_by, ..self@ }),
    {
        SearchRequest { sort_by, ..self }
    }

    pub fn sort_direction(self, sort_direction: Option<SortDirection>) -> (r: SearchRequest)
        ensures
            r@ == (SearchRequestV { sort_direction, ..self@ }),
    {
        SearchRequest { sort_direction, ..self }
    }

    pub fn style(self, style: Option<String>) -> (r: SearchRequest)
        ensures
            r@ == (SearchRequestV { style: opt_str_view(style), ..self@ }),
    {
        SearchRequest { style, ..self }
    }

    pub fn sub_category(self, sub_category: Option<String>) -> (r: SearchRequest)
        ensures
            r@ == (SearchRequestV { sub_category: opt_str_view(sub_category), ..self@ }),
    {
        SearchRequest { sub_category, ..self }
    }

    pub fn vintage(self, vintage: Option<String>) -> (r: SearchRequest)
        ensures
            r@ == (SearchRequestV { vintage: opt_str_view(vintage), ..self@ }),
    {
        SearchRequest { vintage, ..self }
    }
}

// --- The field-level serialization model ---

/// One serialized field value: JSON null, a JSON string, a JSON integer, a
/// JSON number literal, or a date rendered as a wire-pattern string.
pub enum FieldV {
    Null,
    Str(Seq<char>),
    Int(int),
    Num(Seq<char>),
    Date(CalendarDate),
}

pub open spec fn field_of_str(o: Option<Seq<char>>) -> FieldV {
    match o {
        None => FieldV::Null,
        Some(s) => FieldV::Str(s),
    }
}

pub open spec fn field_of_num(o: Option<Seq<char>>) -> FieldV {
    match o {
        None => FieldV::Null,
        Some(s) => FieldV::Num(s),
    }
}

pub open spec fn field_of_date(o: Option<CalendarDate>) -> FieldV {
    match o {
        None => FieldV::Null,
        Some(d) => FieldV::Date(d),
    }
}

pub open spec fn field_of_page(o: Option<i32>) -> FieldV {
    match o {
        None => FieldV::Null,
        Some(i) => FieldV::Int(i as int),
    }
}

pub open spec fn field_of_sort_key(o: Option<SortKey>) -> FieldV {
    match o {
        None => FieldV::Null,
        Some(k) => FieldV::Int(k.spec_wire()),
    }
}

pub open spec fn field_of_sort_direction(o: Option<SortDirection>) -> FieldV {
    match o {
        None => FieldV::Null,
        Some(d) => FieldV::Int(d.spec_wire()),
    }
}

/// The serialized form of a request: its 23 fields in declaration order,
/// unset ones as explicit nulls.
pub open spec fn spec_fields(v: SearchRequestV) -> Seq<FieldV> {
    seq![
        field_of_num(v.alcohol_percentage_max),
        field_of_num(v.alcohol_percentage_min),
        field_of_str(v.assortment_text),
        field_of_str(v.bottle_type_group),
        field_of_str(v.country),
        field_of_str(v.csr),
        field_of_str(v.kind),
        field_of_str(v.news),
        field_of_str(v.origin_level_1),
        field_of_str(v.origin_level_2),
        field_of_str(v.other_selections),
        field_of_page(v.page),
        field_of_num(v.price_max),
        field_of_num(v.price_min),
        field_of_str(v.seal),
        field_of_str(v.search_query),
        field_of_date(v.sell_start_date_from),
        field_of_date(v.sell_start_date_to),
        field_of_sort_key(v.sort_by),
        field_of_sort_direction(v.sort_direction),
        field_of_str(v.style),
        field_of_str(v.sub_category),
        field_of_str(v.vintage),
    ]
}

pub open spec fn unfield_str(f: FieldV) -> Option<Option<Seq<char>>> {
    match f {
        FieldV::Null => Some(None),
        FieldV::Str(s) => Some(Some(s)),
        _ => None,
    }
}

pub open spec fn unfield_num(f: FieldV) -> Option<Option<Seq<char>>> {
    match f {
        FieldV::Null => Some(None),
        FieldV::Num(s) => if is_json_number(s) {
            Some(Some(s))
        } else {
            None
        },
        _ => None,
    }
}

pub open spec fn unfield_date(f: FieldV) -> Option<Option<CalendarDate>> {
    match f {
        FieldV::Null => Some(None),
        FieldV::Date(d) => if d.wf() {
            Some(Some(d))
        } else {
            None
        },
        _ => None,
    }
}

pub open spec fn unfield_page(f: FieldV) -> Option<Option<i32>> {
    match f {
        FieldV::Null => Some(None),
        FieldV::Int(i) => if i32::MIN <= i <= i32::MAX {
            Some(Some(i as i32))
        } else {
            None
        },
        _ => None,
    }
}

pub open spec fn unfield_sort_key(f: FieldV) -> Option<Option<SortKey>> {
    match f {
        FieldV::Null => Some(None),
        FieldV::Int(i) => match SortKey::spec_from_wire(i) {
            Some(k) => Some(Some(k)),
            None => None,
        },
        _ => None,
    }
}

pub open spec fn unfield_sort_direction(f: FieldV) -> Option<Option<SortDirection>> {
    match f {
        FieldV::Null => Some(None),
        FieldV::Int(i) => match SortDirection::spec_from_wire(i) {
            Some(d) => Some(Some(d)),
            None => None,
        },
        _ => None,
    }
}

/// Deserialization at the field level: rejects a field list whose length,
/// positions, or values do not fit the request shape.
pub open spec fn spec_request_of(fs: Seq<FieldV>) -> Option<SearchRequestV> {
    if fs.len() == 23 && unfield_num(fs[0]) is Some && unfield_num(fs[1]) is Some && unfield_str(
        fs[2],
    ) is Some && unfield_str(fs[3]) is Some && unfield_str(fs[4]) is Some && unfield_str(
        fs[5],
    ) is Some && unfield_str(fs[6]) is Some && unfield_str(fs[7]) is Some && unfield_str(
        fs[8],
    ) is Some && unfield_str(fs[9]) is Some && unfield_str(fs[10]) is Some && unfield_page(
        fs[11],
    ) is Some && unfield_num(fs[12]) is Some && unfield_num(fs[13]) is Some && unfield_str(
        fs[14],
    ) is Some && unfield_str(fs[15]) is Some && unfield_date(fs[16]) is Some && unfield_date(
        fs[17],
    ) is Some && unfield_sort_key(fs[18]) is Some && unfield_sort_direction(fs[19]) is Some
        && unfield_str(fs[20]) is Some && unfield_str(fs[21]) is Some && unfield_str(
        fs[22],
    ) is Some {
        Some(
            SearchRequestV {
                alcohol_percentage_max: unfield_num(fs[0])->0,
                alcohol_percentage_min: unfield_num(fs[1])->0,
                assortment_text: unfield_str(fs[2])->0,
                bottle_type_group: unfield_str(fs[3])->0,
                country: unfield_str(fs[4])->0,
                csr: unfield_str(fs[5])->0,
                kind: unfield_str(fs[6])->0,
                news: unfield_str(fs[7])->0,
                origin_level_1: unfield_str(fs[8])->0,
                origin_level_2: unfield_str(fs[9])->0,
                other_selections: unfield_str(fs[10])->0,
                page: unfield_page(fs[11])->0,
                price_max: unfield_num(fs[12])->0,
                price_min: unfield_num(fs[13])->0,
                seal: unfield_str(fs[14])->0,
                search_query: unfield_str(fs[15])->0,
                sell_start_date_from: unfield_date(fs[16])->0,
                sell_start_date_to: unfield_date(fs[17])->0,
                sort_by: unfield_sort_key(fs[18])->0,
                sort_direction: unfield_sort_direction(fs[19])->0,
                style: unfield_str(fs[20])->0,
                sub_category: unfield_str(fs[21])->0,
                vintage: unfield_str(fs[22])->0,
            },
        )
    } else {
        None
    }
}

/// Round trip: serializing any well-formed request to its field list and
/// deserializing that list reproduces the same field values, unset ones
/// having passed through as explicit nulls.
#[verifier::rlimit(60)]
pub proof fn lemma_search_round_trip(v: SearchRequestV)
    requires
        v.wf(),
    ensures
        spec_request_of(spec_fields(v)) == Some(v),
{
    if let Some(k) = v.sort_by {
        k.lemma_wire_round_trip();
    }
    if let Some(d) = v.sort_direction {
        d.lemma_wire_round_trip();
    }
    let fs = spec_fields(v);
    assert(fs.len() == 23);
    assert(unfield_num(fs[0]) == Some(v.alcohol_percentage_max));
    assert(unfield_num(fs[1]) == Some(v.alcohol_percentage_min));
    assert(unfield_str(fs[2]) == Some(v.assortment_text));
    assert(unfield_str(fs[3]) == Some(v.bottle_type_group));
    assert(unfield_str(fs[4]) == Some(v.country));
    assert(unfield_str(fs[5]) == Some(v.csr));
    assert(unfield_str(fs[6]) == Some(v.kind));
    assert(unfield_str(fs[7]) == Some(v.news));
    assert(unfield_str(fs[8]) == Some(v.origin_level_1));
    assert(unfield_str(fs[9]) == Some(v.origin_level_2));
    assert(unfield_str(fs[10]) == Some(v.other_selections));
    assert(unfield_page(fs[11]) == Some(v.page));
    assert(unfield_num(fs[12]) == Some(v.price_max));
    assert(unfield_num(fs[13]) == Some(v.price_min));
    assert(unfield_str(fs[14]) == Some(v.seal));
    assert(unfield_str(fs[15]) == Some(v.search_query));
    assert(unfield_date(fs[16]) == Some(v.sell_start_date_from));
    assert(unfield_date(fs[17]) == Some(v.sell_start_date_to));
    assert(unfield_sort_key(fs[18]) == Some(v.sort_by));
    assert(unfield_sort_direction(fs[19]) == Some(v.sort_direction));
    assert(unfield_str(fs[20]) == Some(v.style));
    assert(unfield_str(fs[21]) == Some(v.sub_category));
    assert(unfield_str(fs[22]) == Some(v.vintage));
    assert(spec_request_of(fs)->0 =~= v);
}

} // verus!

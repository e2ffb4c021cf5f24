use vstd::prelude::*;

use crate::datefmt::{
    date_label, days_before_year, days_of_secs, label_chars, valid_date, date_to_days,
};
use crate::fields::FieldRoles;

verus! {

/// A stored field value of a retrieved document, reduced to what projection
/// reads: free text, a count of seconds since the epoch, or something else.
pub enum StoredValue {
    Text(String),
    Temporal(i64),
    Other,
}

/// A display-ready record. A role is empty when the document lacks its
/// field, the stored value has the wrong type, or a date lies outside the
/// rendered range; projection never fails.
pub struct Page {
    pub title: Option<String>,
    pub description: Option<String>,
    pub link: Option<String>,
    pub date: Option<String>,
}

/// The first value a document stores under field `id`, if any.
pub open spec fn first_value(fields: Seq<(u32, StoredValue)>, id: u32) -> Option<StoredValue>
    decreases fields.len(),
{
    if fields.len() == 0 {
        None
    } else if fields.first().0 == id {
        Some(fields.first().1)
    } else {
        first_value(fields.drop_first(), id)
    }
}

/// The text a role yields: the first value of its field, when that value is
/// text; empty when the role or the field is absent or the value is not text.
pub open spec fn text_role(fields: Seq<(u32, StoredValue)>, role: Option<u32>) -> Option<
    Seq<char>,
> {
    match role {
        None => None,
        Some(id) => match first_value(fields, id) {
            Some(StoredValue::Text(s)) => Some(s@),
            _ => None,
        },
    }
}

/// The seconds count a role yields, when its field's first value is temporal.
pub open spec fn temporal_role(fields: Seq<(u32, StoredValue)>, role: Option<u32>) -> Option<
    i64,
> {
    match role {
        None => None,
        Some(id) => match first_value(fields, id) {
            Some(StoredValue::Temporal(t)) => Some(t),
            _ => None,
        },
    }
}

/// The character content of an optional text.
pub open spec fn view_opt(o: Option<String>) -> Option<Seq<char>> {
    match o {
        Some(s) => Some(s@),
        None => None,
    }
}

/// What a rendered date is for a seconds count: the label of the one civil
/// date the count falls on, present exactly when the count lies in the
/// rendered range.
pub open spec fn label_ok(t: int, r: Option<Seq<char>>) -> bool {
    &&& match r {
        Some(s) => exists|y: int, m: int, d: int|
            valid_date(y, m, d) && date_to_days(y, m, d) == days_of_secs(t) && s == label_chars(
                y,
                m,
                d,
            ),
        None => days_of_secs(t) < 0 || days_of_secs(t) >= days_before_year(10000),
    }
    &&& (0 <= days_of_secs(t) && days_of_secs(t) < days_before_year(10000) ==> r is Some)
    &&& forall|y: int, m: int, d: int|
        (r is Some && valid_date(y, m, d) && #[trigger] date_to_days(y, m, d) == days_of_secs(t))
            ==> r->Some_0 == label_chars(y, m, d)
}

/// What projection yields: each text role equals its field's first text
/// value, and the date role is the rendered label of its field's first
/// temporal value, absent where the role, the field, the expected type or
/// the rendered range fails.
pub open spec fn page_of(fields: Seq<(u32, StoredValue)>, roles: FieldRoles, page: Page) -> bool {
    &&& view_opt(page.title) == text_role(fields, roles.title)
    &&& view_opt(page.description) == text_role(fields, roles.description)
    &&& view_opt(page.link) == text_role(fields, roles.link)
    &&& match temporal_role(fields, roles.date) {
        None => page.date is None,
        Some(t) => label_ok(t as int, view_opt(page.date)),
    }
}

/// Finds the first value a document stores under field `id`.
fn get_first<'a>(fields: &'a Vec<(u32, StoredValue)>, id: u32) -> (r: Option<&'a StoredValue>)
    ensures
        match r {
            Some(v) => first_value(fields@, id) == Some(*v),
            None => first_value(fields@, id) is None,
        },
{
    let n = fields.len();
    proof {
        assert(fields@.skip(0) =~= fields@);
    }
    for i in 0..n
        invariant
            n == fields@.len(),
            first_value(fields@, id) == first_value(fields@.skip(i as int), id),
    {
        proof {
            assert(fields@.skip(i as int).first() == fields@[i as int]);
            assert(fields@.skip(i as int).drop_first() =~= fields@.skip(i + 1));
        }
        if fields[i].0 == id {
            return Some(&fields[i].1);
        }
    }
    proof {
        assert(fields@.skip(n as int) =~= Seq::<(u32, StoredValue)>::empty());
    }
    None
}

/// Extracts a text role, or nothing where the document offers no text there.
fn text_field(fields: &Vec<(u32, StoredValue)>, role: &Option<u32>) -> (r: Option<String>)
    ensures
        view_opt(r) == text_role(fields@, *role),
{
    match role {
        None => None,
        Some(id) => match get_first(fields, *id) {
            Some(StoredValue::Text(s)) => Some(s.clone()),
            _ => None,
        },
    }
}

/// Extracts and renders the date role, or nothing where the document offers
/// no temporal value there or the date lies outside the rendered range.
fn date_field(fields: &Vec<(u32, StoredValue)>, role: &Option<u32>) -> (r: Option<String>)
    ensures
        match temporal_role(fields@, *role) {
            None => r is None,
            Some(t) => label_ok(t as int, view_opt(r)),
        },
{
    match role {
        None => None,
        Some(id) => match get_first(fields, *id) {
            Some(StoredValue::Temporal(t)) => date_label(*t),
            _ => None,
        },
    }
}

/// Projects one retrieved document onto a display-ready record. Total by
/// design: documents come from a less trusted ingestion pipeline, and a
/// malformed one degrades its own fields without disturbing the others or
/// failing the query.
pub fn project(fields: &Vec<(u32, StoredValue)>, roles: &FieldRoles) -> (page: Page)
    ensures
        page_of(fields@, *roles, page),
{
    Page {
        title: text_field(fields, &roles.title),
        description: text_field(fields, &roles.description),
        link: text_field(fields, &roles.link),
        date: date_field(fields, &roles.date),
    }
}

} // verus!

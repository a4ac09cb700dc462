//! The query string of a summary request: the two optional bounds of the
//! interval it asks about.

use crate::text::str_eq;
use vstd::prelude::*;

verus! {

/// A date and a time of day without an offset.
#[derive(Debug, Clone, Copy, PartialEq, Eq, Structural)]
pub struct LocalDateTime {
    pub year: i32,
    pub month: u8,
    pub day: u8,
    pub hour: u8,
    pub minute: u8,
    pub second: u8,
    pub nanosecond: u32,
}

/// The interval that a summary covers. A missing bound leaves that side
/// open.
#[derive(Debug, Clone, Copy, PartialEq, Eq, Structural)]
pub struct SummaryBounds {
    pub from: Option<LocalDateTime>,
    pub to: Option<LocalDateTime>,
}

/// A bound that is there but is no date.
#[derive(Debug, Clone, Copy, PartialEq, Eq, Structural)]
pub enum BoundError {
    InvalidDate,
}

/// The name-value pairs that `form_urlencoded::parse` finds in a query
/// string, percent-decoded, in the order in which they stand.
pub uninterp spec fn form_pairs(query: Seq<char>) -> Seq<(Seq<char>, Seq<char>)>;

/// The date and time that `time::PrimitiveDateTime::parse` reads from a
/// text in the format of RFC 3339, or `None` where it reads none.
pub uninterp spec fn rfc3339_local(text: Seq<char>) -> Option<LocalDateTime>;

/// Splits a query string into its pairs with `form_urlencoded::parse`. The
/// result is a function of the query string alone.
#[verifier::external_body]
fn parse_form(query: &str) -> (pairs: Vec<(String, String)>)
    ensures
        pairs.deep_view() == form_pairs(query@),
{
    form_urlencoded::parse(query.as_bytes()).into_owned().collect()
}

/// Reads a date and time with `time::PrimitiveDateTime::parse` in the
/// format of RFC 3339 and takes its fields. The result is a function of the
/// text alone.
#[verifier::external_body]
fn parse_rfc3339(text: &str) -> (r: Option<LocalDateTime>)
    ensures
        r == rfc3339_local(text@),
{
    match time::PrimitiveDateTime::parse(text, &time::format_description::well_known::Rfc3339) {
        Ok(t) => Some(
            LocalDateTime {
                year: t.year(),
                month: u8::from(t.month()),
                day: t.day(),
                hour: t.hour(),
                minute: t.minute(),
                second: t.second(),
                nanosecond: t.nanosecond(),
            },
        ),
        Err(_) => None,
    }
}

/// The value of a name among the pairs: that of the last pair with the name.
pub open spec fn last_value(pairs: Seq<(Seq<char>, Seq<char>)>, key: Seq<char>) -> Option<
    Seq<char>,
>
    decreases pairs.len(),
{
    if pairs.len() == 0 {
        None
    } else if pairs.last().0 == key {
        Some(pairs.last().1)
    } else {
        last_value(pairs.drop_last(), key)
    }
}

/// The bound that a value of the query string gives: none where the value
/// is missing, a date where it reads as one, an error where it does not.
pub open spec fn bound_of(value: Option<Seq<char>>) -> Result<Option<LocalDateTime>, BoundError> {
    match value {
        None => Ok(None),
        Some(text) => match rfc3339_local(text) {
            Some(at) => Ok(Some(at)),
            None => Err(BoundError::InvalidDate),
        },
    }
}

/// The bounds that the pairs of a query string give.
pub open spec fn bounds_of(pairs: Seq<(Seq<char>, Seq<char>)>) -> Result<
    SummaryBounds,
    BoundError,
> {
    match (bound_of(last_value(pairs, "from"@)), bound_of(last_value(pairs, "to"@))) {
        (Ok(from), Ok(to)) => Ok(SummaryBounds { from, to }),
        _ => Err(BoundError::InvalidDate),
    }
}

/// The pairs of a query string.
pub fn parse_query_params(query: &str) -> (pairs: Vec<(String, String)>)
    ensures
        pairs.deep_view() == form_pairs(query@),
{
    parse_form(query)
}

/// Looks a name up among the pairs. Where a name stands more than once, the
/// last value counts.
pub fn query_value(pairs: &Vec<(String, String)>, key: &str) -> (r: Option<String>)
    ensures
        r.deep_view() == last_value(pairs.deep_view(), key@),
{
    let mut found: Option<String> = None;
    let mut i: usize = 0;
    while i < pairs.len()
        invariant
            i <= pairs@.len(),
            found.deep_view() == last_value(pairs.deep_view().subrange(0, i as int), key@),
        decreases pairs@.len() - i,
    {
        proof {
            let next = pairs.deep_view().subrange(0, (i + 1) as int);
            assert(next.drop_last() =~= pairs.deep_view().subrange(0, i as int));
            assert(next.last() == pairs@[i as int].deep_view());
        }
        if str_eq(pairs[i].0.as_str(), key) {
            found = Some(pairs[i].1.clone());
        }
        i = i + 1;
    }
    assert(pairs.deep_view().subrange(0, pairs@.len() as int) =~= pairs.deep_view());
    found
}

/// Reads one bound.
pub fn parse_bound(value: Option<String>) -> (r: Result<Option<LocalDateTime>, BoundError>)
    ensures
        r == bound_of(value.deep_view()),
{
    match value {
        None => Ok(None),
        Some(text) => match parse_rfc3339(text.as_str()) {
            Some(at) => Ok(Some(at)),
            None => Err(BoundError::InvalidDate),
        },
    }
}

/// Puts two bounds together: both must have been read.
pub fn join_bounds(
    from: Result<Option<LocalDateTime>, BoundError>,
    to: Result<Option<LocalDateTime>, BoundError>,
) -> (r: Result<SummaryBounds, BoundError>)
    ensures
        from is Ok && to is Ok ==> r == Ok::<SummaryBounds, BoundError>(
            SummaryBounds { from: from->Ok_0, to: to->Ok_0 },
        ),
        from is Err || to is Err ==> r == Err::<SummaryBounds, BoundError>(
            BoundError::InvalidDate,
        ),
{
    match (from, to) {
        (Ok(from), Ok(to)) => Ok(SummaryBounds { from, to }),
        _ => Err(BoundError::InvalidDate),
    }
}

/// The interval that a summary request asks about: the values of `from`
/// and `to` in its query string, each a date where it is there.
pub fn summary_bounds(query: &str) -> (r: Result<SummaryBounds, BoundError>)
    ensures
        r == bounds_of(form_pairs(query@)),
{
    let pairs = parse_query_params(query);
    let from = parse_bound(query_value(&pairs, "from"));
    let to = parse_bound(query_value(&pairs, "to"));
    join_bounds(from, to)
}

} // verus!

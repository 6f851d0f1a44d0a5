//! Queries that select, order and page what the API returns.
use vstd::prelude::*;
use crate::settings::schema::JsonValue;

verus! {

/// Enum to be used for sorting the return
#[derive(Debug, Clone, Copy, PartialEq, Eq, Structural)]
pub enum Order {
    /// Ascending order
    ASC,
    /// Descending order
    DESC,
}

/// The number of items per page to fetch and which page to show
#[derive(Debug, Clone, Copy, PartialEq, Eq, Structural)]
pub struct PageQuery {
    /// Number of items per page
    pub page_size: u64,
    /// Which page to fetch
    pub page_num: u64,
}

/// Query related to vectors and arrays
#[derive(Debug)]
pub struct VecQueryWeb {
    /// The column to be comparing against
    pub column: String,
    /// Matches any of items specified
    pub any_of: Option<Vec<JsonValue>>,
    /// Does NOT match any of items specified
    pub none_of: Option<Vec<JsonValue>>,
}

/// Query for ordering the output
#[derive(Debug, Clone)]
pub struct OrderQueryWeb {
    /// The column to sort
    pub column: String,
    /// What order to follow (ASC/DESC)
    pub order: Order,
}

/// Query related to ranges
#[derive(Debug)]
pub struct RangeQueryWeb {
    /// The column to be comparing against
    pub column: String,
    /// Strictly greater than
    pub greater_than: Option<JsonValue>,
    /// Greater than or equal to
    pub greater_than_or_equal: Option<JsonValue>,
    /// Strictly less than
    pub less_than: Option<JsonValue>,
    /// Less than or equal to
    pub less_than_or_equal: Option<JsonValue>,
}

/// Query related to strings
#[derive(Debug, Clone)]
pub struct StringQueryWeb {
    /// The columb to be comparing against
    pub column: String,
    /// 'like' syntax, matches any
    pub like: Option<String>,
    /// Strictly equal to
    pub equal: Option<String>,
    /// Starts with
    pub start: Option<String>,
    /// Ends with
    pub end: Option<String>,
    /// Matches the regex
    pub regex: Option<String>,
}

/// The query submitted to the API
#[derive(Debug)]
pub struct FullQueryWeb {
    /// Page settings
    pub page_query: PageQuery,
    /// Query for vectors
    pub vec_query: Option<VecQueryWeb>,
    /// Ordering of items
    pub order_query: Option<OrderQueryWeb>,
    /// Query for strings
    pub string_query: Option<StringQueryWeb>,
    /// Query for range
    pub range_query: Option<RangeQueryWeb>,
}

impl StringQueryWeb {
    /// The query that selects rows whose `column` is `identifier`: equal to it, or, with
    /// `regex`, matching it as a regular expression.
    pub fn for_identifier(column: String, identifier: &str, regex: bool) -> (q: Self)
        ensures
            q.column@ == column@,
            q.like is None && q.start is None && q.end is None,
            regex ==> (q.equal is None && (q.regex matches Some(r) && r@ == identifier@)),
            !regex ==> (q.regex is None && (q.equal matches Some(e) && e@ == identifier@)),
    {
        StringQueryWeb {
            column,
            like: None,
            equal: if !regex {
                Some(identifier.to_owned())
            } else {
                None
            },
            start: None,
            end: None,
            regex: if regex {
                Some(identifier.to_owned())
            } else {
                None
            },
        }
    }
}

impl FullQueryWeb {
    /// The query for one page of `page_size` items, with no other condition.
    pub fn page(page_size: u64, page_num: u64) -> (q: Self)
        ensures
            q.page_query == (PageQuery { page_size, page_num }),
            q.vec_query is None && q.order_query is None && q.string_query is None
                && q.range_query is None,
    {
        FullQueryWeb {
            page_query: PageQuery { page_size, page_num },
            vec_query: None,
            order_query: None,
            string_query: None,
            range_query: None,
        }
    }
}

} // verus!

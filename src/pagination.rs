//! Page selection for list endpoints.
use vstd::prelude::*;
use crate::decimal::{i64_to_decimal, int_decimal};

verus! {

/// Which page of a listing to ask for, and how many entries a page holds.
#[derive(Debug, Clone, Copy, PartialEq, Eq, Structural)]
pub struct Pagination {
    pub page: i64,
    pub limit: i64,
}

/// The query pairs that select `page` and `limit`, in this order.
pub open spec fn page_query(page: i64, limit: i64) -> Seq<(Seq<char>, Seq<char>)> {
    seq![("page"@, int_decimal(page as int)), ("limit"@, int_decimal(limit as int))]
}

/// The text view of a sequence of string pairs.
pub open spec fn pairs_view(pairs: Seq<(String, String)>) -> Seq<(Seq<char>, Seq<char>)> {
    pairs.map_values(|p: (String, String)| (p.0@, p.1@))
}

impl Pagination {
    pub fn new(page: i64, limit: i64) -> (r: Self)
        ensures
            r.page == page,
            r.limit == limit,
    {
        Self { page, limit }
    }

    /// The query pairs `page=<page>` and `limit=<limit>`, numbers in decimal.
    pub fn to_query(&self) -> (r: [(String, String); 2])
        ensures
            pairs_view(r@) == page_query(self.page, self.limit),
    {
        let page = (String::from_str("page"), i64_to_decimal(self.page));
        let limit = (String::from_str("limit"), i64_to_decimal(self.limit));
        let r = [page, limit];
        assert(pairs_view(r@) =~= page_query(self.page, self.limit));
        r
    }
}

impl Default for Pagination {
    /// The first page, with twenty entries per page.
    fn default() -> (r: Self)
        ensures
            r.page == 1,
            r.limit == 20,
    {
        Pagination { page: 1, limit: 20 }
    }
}

} // verus!

//! Paging: which rows a page of a listing holds, and the queries that fetch
//! them.

use vstd::prelude::*;

verus! {

/// Which page of a listing is asked for, and how many rows a page holds. Pages
/// are counted from 1.
#[derive(Clone, Copy, Debug, PartialEq, Eq, Structural)]
pub struct PagingRequest {
    pub page: u64,
    pub page_size: u64,
}

/// The two queries of a page, and the window that the second one cuts out.
#[derive(Debug)]
pub struct PageQuery {
    /// counts all rows of the listing
    pub count: String,
    /// fetches the rows of the page
    pub select: String,
    /// the most rows that the page holds
    pub page_size: u64,
    /// the number of rows before the page
    pub offset: u64,
}

/// The page that a request without one asks for: the first.
pub fn default_page() -> (page: u64)
    ensures
        page == 1,
{
    1
}

/// The rows of a page where the request does not say: 20.
pub fn default_page_size() -> (size: u64)
    ensures
        size == 20,
{
    20
}

/// The character of a decimal digit.
pub open spec fn digit(d: nat) -> char {
    if d == 0 {
        '0'
    } else if d == 1 {
        '1'
    } else if d == 2 {
        '2'
    } else if d == 3 {
        '3'
    } else if d == 4 {
        '4'
    } else if d == 5 {
        '5'
    } else if d == 6 {
        '6'
    } else if d == 7 {
        '7'
    } else if d == 8 {
        '8'
    } else {
        '9'
    }
}

/// A number written in decimal, without leading zeros.
pub open spec fn decimal(n: nat) -> Seq<char>
    decreases n,
{
    if n < 10 {
        seq![digit(n)]
    } else {
        decimal(n / 10).push(digit(n % 10))
    }
}

/// Writes one decimal digit.
fn digit_text(d: u64) -> (text: &'static str)
    requires
        d < 10,
    ensures
        text@ == seq![digit(d as nat)],
{
    proof {
        reveal_strlit("0");
        reveal_strlit("1");
        reveal_strlit("2");
        reveal_strlit("3");
        reveal_strlit("4");
        reveal_strlit("5");
        reveal_strlit("6");
        reveal_strlit("7");
        reveal_strlit("8");
        reveal_strlit("9");
    }
    let text = if d == 0 {
        "0"
    } else if d == 1 {
        "1"
    } else if d == 2 {
        "2"
    } else if d == 3 {
        "3"
    } else if d == 4 {
        "4"
    } else if d == 5 {
        "5"
    } else if d == 6 {
        "6"
    } else if d == 7 {
        "7"
    } else if d == 8 {
        "8"
    } else {
        "9"
    };
    assert(text@ =~= seq![digit(d as nat)]);
    text
}

/// Writes a number in decimal.
pub fn decimal_text(n: u64) -> (text: String)
    ensures
        text@ == decimal(n as nat),
    decreases n,
{
    if n < 10 {
        digit_text(n).to_owned()
    } else {
        let mut text = decimal_text(n / 10);
        text.append(digit_text(n % 10));
        assert(text@ =~= decimal((n / 10) as nat).push(digit((n % 10) as nat)));
        text
    }
}

/// The query that counts the rows of a listing.
pub open spec fn count_query(query: Seq<char>) -> Seq<char> {
    "SELECT * FROM count(("@ + query + "))"@
}

/// The query that fetches `page_size` rows of a listing behind the first
/// `offset`.
pub open spec fn window_query(query: Seq<char>, page_size: nat, offset: nat) -> Seq<char> {
    query + " LIMIT "@ + decimal(page_size) + " START "@ + decimal(offset)
}

impl PagingRequest {
    /// The number of rows before the page: the pages before it, in full.
    /// There is none for a page 0, nor where the number leaves `u64`.
    pub open spec fn offset(self) -> Option<u64> {
        if self.page >= 1 && (self.page - 1) * self.page_size <= u64::MAX {
            Some(((self.page - 1) * self.page_size) as u64)
        } else {
            None
        }
    }

    /// The queries that fetch this page of the listing `query`, where the
    /// request names a page.
    pub fn execute(self, query: &str) -> (r: Option<PageQuery>)
        ensures
            match self.offset() {
                None => r is None,
                Some(offset) => {
                    &&& r is Some
                    &&& r->Some_0.count@ == count_query(query@)
                    &&& r->Some_0.select@ == window_query(
                        query@,
                        self.page_size as nat,
                        offset as nat,
                    )
                    &&& r->Some_0.page_size == self.page_size
                    &&& r->Some_0.offset == offset
                },
            },
    {
        if self.page < 1 {
            return None;
        }
        let offset = match (self.page - 1).checked_mul(self.page_size) {
            Some(offset) => offset,
            None => { return None; },
        };
        let mut count = "SELECT * FROM count((".to_owned();
        count.append(query);
        count.append("))");
        let mut select = query.to_owned();
        select.append(" LIMIT ");
        select.append(decimal_text(self.page_size).as_str());
        select.append(" START ");
        select.append(decimal_text(offset).as_str());
        Some(PageQuery { count, select, page_size: self.page_size, offset })
    }
}

} // verus!

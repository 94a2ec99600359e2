//! Page numbers: how a query names a page, which window of rows the page
//! is, and how many pages a number of rows makes.

use vstd::prelude::*;
use vstd::string::*;

verus! {

/// The page that a query asks for when it names none.
pub const DEFAULT_PAGE: i64 = 1;

/// The number of rows on a page when a query names none.
pub const DEFAULT_PER_PAGE: i64 = 10;

/// The value of a decimal digit; `None` for any other character.
pub open spec fn digit(c: char) -> Option<int> {
    if 48 <= c as int <= 57 {
        Some(c as int - 48)
    } else {
        None
    }
}

/// The number that a run of decimal digits writes; `None` for the empty
/// run and for a run that holds anything but digits.
pub open spec fn digits(s: Seq<char>) -> Option<int>
    decreases s.len(),
{
    if s.len() == 0 {
        None
    } else {
        match digit(s.last()) {
            None => None,
            Some(d) => if s.len() == 1 {
                Some(d)
            } else {
                match digits(s.drop_last()) {
                    Some(high) => Some(10 * high + d),
                    None => None,
                }
            },
        }
    }
}

/// The 64-bit integer that a text writes: an optional `+` or `-`, then
/// decimal digits and nothing else. `None` for any other text and for a
/// number outside the 64-bit range.
pub open spec fn decimal(s: Seq<char>) -> Option<i64> {
    let negative = s.len() > 0 && s[0] == '-';
    let signed = s.len() > 0 && (s[0] == '-' || s[0] == '+');
    let body = if signed {
        s.skip(1)
    } else {
        s
    };
    match digits(body) {
        Some(v) => {
            let n = if negative {
                -v
            } else {
                v
            };
            if i64::MIN <= n <= i64::MAX {
                Some(n as i64)
            } else {
                None
            }
        },
        None => None,
    }
}

/// A run of digits does not write a negative number.
pub proof fn lemma_digits_nonnegative(s: Seq<char>)
    ensures
        digits(s) matches Some(v) ==> v >= 0,
    decreases s.len(),
{
    if s.len() > 1 {
        lemma_digits_nonnegative(s.drop_last());
    }
}

/// Where a run writes a number, each of its leading parts writes one too,
/// and not a larger one.
pub proof fn lemma_digits_prefix(s: Seq<char>, k: int)
    requires
        0 < k <= s.len(),
    ensures
        digits(s) matches Some(v) ==> (digits(s.take(k)) matches Some(p) && 0 <= p <= v),
    decreases s.len(),
{
    lemma_digits_nonnegative(s);
    if k == s.len() {
        assert(s.take(k) =~= s);
    } else if digits(s) is Some {
        let front = s.drop_last();
        assert(front.take(k) =~= s.take(k));
        lemma_digits_prefix(front, k);
        lemma_digits_nonnegative(front);
    }
}

/// Reads a 64-bit integer from `text`.
pub fn parse_decimal(text: &str) -> (r: Option<i64>)
    ensures
        r == decimal(text@),
{
    let n = text.unicode_len();
    if n == 0 {
        return None;
    }
    let first = text.get_char(0);
    let negative = first == '-';
    let start: usize = if first == '-' || first == '+' {
        1
    } else {
        0
    };
    let ghost body = if start == 1 {
        text@.skip(1)
    } else {
        text@
    };
    if start == n {
        return None;
    }
    let limit: u128 = 0x8000_0000_0000_0000;
    let mut acc: u128 = 0;
    let mut i: usize = start;
    while i < n
        invariant
            start <= i <= n,
            0 < n == text@.len(),
            negative == (text@[0] == '-'),
            start == (if text@[0] == '-' || text@[0] == '+' {
                1int
            } else {
                0int
            }),
            body == (if start == 1 {
                text@.skip(1)
            } else {
                text@
            }),
            limit == 0x8000_0000_0000_0000,
            acc <= limit,
            i == start ==> acc == 0,
            i > start ==> digits(body.take(i - start)) == Some(acc as int),
        decreases n - i,
    {
        let c = text.get_char(i);
        let code = c as u32;
        let ghost seen = body.take(i - start + 1);
        proof {
            assert(seen.last() == c);
            assert(seen.drop_last() =~= body.take(i - start));
            lemma_digits_prefix(body, i - start + 1);
        }
        if code < 48 || code > 57 {
            return None;
        }
        let next = acc * 10 + (code - 48) as u128;
        assert(digits(seen) == Some(next as int));
        if next > limit {
            return None;
        }
        acc = next;
        i += 1;
    }
    assert(body.take(n - start) =~= body);
    if negative {
        if acc == limit {
            Some(i64::MIN)
        } else {
            Some(-(acc as i64))
        }
    } else if acc == limit {
        None
    } else {
        Some(acc as i64)
    }
}

/// The page that a request asks for.
///
/// Neither number is held to be positive: what a query names is what the
/// storage is asked for.
#[derive(Clone, Copy, Debug, PartialEq, Eq, Structural)]
pub struct Pagination {
    pub page: i64,
    pub per_page: i64,
}

/// The number that a query parameter names, when it is there and reads as
/// one.
pub open spec fn named(param: Option<&str>) -> Option<i64> {
    match param {
        Some(text) => decimal(text@),
        None => None,
    }
}

/// The number of pages that `total` rows make with `per_page` rows on
/// each: the quotient rounded up. Nothing makes a page when either number
/// is not positive.
pub open spec fn page_count(total: int, per_page: int) -> int {
    if total <= 0 || per_page <= 0 {
        0
    } else {
        (total + per_page - 1) / per_page
    }
}

impl Pagination {
    /// The page that the two numbers name, with 1 for a missing page and 10
    /// for a missing page size.
    pub open spec fn of(page: Option<i64>, per_page: Option<i64>) -> Pagination {
        Pagination {
            page: match page {
                Some(p) => p,
                None => DEFAULT_PAGE,
            },
            per_page: match per_page {
                Some(p) => p,
                None => DEFAULT_PER_PAGE,
            },
        }
    }

    /// The number of rows that lie before the page.
    pub open spec fn spec_offset(self) -> int {
        (self.page - 1) * self.per_page
    }

    /// The page that the two numbers name; a missing one takes its default.
    pub fn new(page: Option<i64>, per_page: Option<i64>) -> (p: Pagination)
        ensures
            p == Pagination::of(page, per_page),
    {
        Pagination {
            page: match page {
                Some(p) => p,
                None => DEFAULT_PAGE,
            },
            per_page: match per_page {
                Some(p) => p,
                None => DEFAULT_PER_PAGE,
            },
        }
    }

    /// The page that the texts of the two query parameters name. A
    /// parameter that is missing, or that does not read as a 64-bit
    /// integer, takes its default.
    pub fn from_query(page: Option<&str>, per_page: Option<&str>) -> (p: Pagination)
        ensures
            p == Pagination::of(named(page), named(per_page)),
    {
        let page_number = match page {
            Some(text) => parse_decimal(text),
            None => None,
        };
        let size = match per_page {
            Some(text) => parse_decimal(text),
            None => None,
        };
        Pagination::new(page_number, size)
    }

    /// The largest number of rows to fetch.
    pub fn limit(&self) -> (n: i64)
        ensures
            n == self.per_page,
    {
        self.per_page
    }

    /// The number of rows to skip, `(page - 1) * per_page`; `None` when that
    /// number does not fit in 64 bits.
    pub fn offset(&self) -> (r: Option<i64>)
        ensures
            r is Some <==> i64::MIN <= self.spec_offset() <= i64::MAX,
            r matches Some(n) ==> n == self.spec_offset(),
    {
        let before: i128 = self.page as i128 - 1;
        match before.checked_mul(self.per_page as i128) {
            Some(rows) => if rows < i64::MIN as i128 || rows > i64::MAX as i128 {
                None
            } else {
                Some(rows as i64)
            },
            None => None,
        }
    }

    /// The number of pages that `total` rows make.
    pub fn total_pages(&self, total: i64) -> (n: i64)
        ensures
            n == page_count(total as int, self.per_page as int),
    {
        if total <= 0 || self.per_page <= 0 {
            0
        } else {
            let rows = total as u64;
            let size = self.per_page as u64;
            proof {
                lemma_page_count_steps(total as int, self.per_page as int);
            }
            ((rows - 1) / size + 1) as i64
        }
    }
}

/// For positive numbers the rounded-up quotient is one more than the
/// quotient of one row less.
pub proof fn lemma_page_count_steps(total: int, per_page: int)
    requires
        total > 0,
        per_page > 0,
    ensures
        page_count(total, per_page) == (total - 1) / per_page + 1,
        0 <= (total - 1) / per_page <= total - 1,
{
    assert((total - 1 + per_page) / per_page == (total - 1) / per_page + 1) by (nonlinear_arith)
        requires
            per_page > 0,
    ;
    assert(0 <= (total - 1) / per_page <= total - 1) by (nonlinear_arith)
        requires
            per_page > 0,
            total > 0,
    ;
}

/// Whether `q` is the quotient of `total` by `per_page`, rounded up: `q`
/// pages of `per_page` rows hold `total` rows and one page fewer does not.
pub open spec fn is_ceiling(q: int, total: int, per_page: int) -> bool {
    (q - 1) * per_page < total <= q * per_page
}

/// The page count is the quotient rounded up, and nothing else is.
pub proof fn lemma_page_count_is_ceiling(total: int, per_page: int)
    requires
        total >= 0,
        per_page >= 1,
    ensures
        is_ceiling(page_count(total, per_page), total, per_page),
        forall|q: int| #[trigger]
            is_ceiling(q, total, per_page) ==> q == page_count(total, per_page),
{
    let n = page_count(total, per_page);
    if total == 0 {
        assert((n - 1) * per_page < 0) by (nonlinear_arith)
            requires
                n == 0,
                per_page >= 1,
        ;
        assert(n * per_page == 0) by (nonlinear_arith)
            requires
                n == 0,
        ;
    } else {
        lemma_page_count_steps(total, per_page);
        let q0 = (total - 1) / per_page;
        assert(q0 * per_page <= total - 1 < (q0 + 1) * per_page) by (nonlinear_arith)
            requires
                q0 == (total - 1) / per_page,
                per_page >= 1,
        ;
        assert((n - 1) * per_page == q0 * per_page);
    }
    assert forall|q: int| #[trigger] is_ceiling(q, total, per_page) implies q == n by {
        assert(q == n) by (nonlinear_arith)
            requires
                (q - 1) * per_page < total <= q * per_page,
                (n - 1) * per_page < total <= n * per_page,
                per_page >= 1,
        ;
    }
}

/// A page past the last one starts at or after the end of the rows, so no
/// row falls on it.
pub proof fn lemma_page_past_the_end(p: Pagination, total: int)
    requires
        total >= 0,
        p.per_page >= 1,
        p.page > page_count(total, p.per_page as int),
    ensures
        p.spec_offset() >= total,
{
    lemma_page_count_is_ceiling(total, p.per_page as int);
    let n = page_count(total, p.per_page as int);
    assert((p.page - 1) * p.per_page >= n * p.per_page) by (nonlinear_arith)
        requires
            p.page - 1 >= n,
            p.per_page >= 1,
    ;
}

/// One page of rows, with the count of all rows and of all pages.
#[derive(Clone, Debug, PartialEq, Eq)]
pub struct Page<T> {
    pub items: Vec<T>,
    pub total: i64,
    pub total_pages: i64,
    pub current_page: i64,
}

} // verus!

//! Paging, sorting and searching parameters of list requests.

use vstd::prelude::*;
use vstd::std_specs::iter::IteratorSpec;
use vstd::string::*;

use crate::text::opt_view;

verus! {

/// The page size used where a request names none that can be read.
pub const DEFAULT_LIMIT: i64 = 100;

/// The offset used where a request names none that can be read.
pub const DEFAULT_OFFSET: i64 = 0;

/// `c` is one of the ten decimal digits.
pub open spec fn is_digit(c: char) -> bool {
    48 <= c as u32 <= 57
}

/// The value of a decimal digit.
pub open spec fn digit_value(c: char) -> int {
    c as u32 - 48
}

/// Every character of `s` is a decimal digit.
pub open spec fn all_digits(s: Seq<char>) -> bool {
    forall|i: int| 0 <= i < s.len() ==> is_digit(#[trigger] s[i])
}

/// The number that a run of decimal digits writes.
pub open spec fn decimal_value(s: Seq<char>) -> int
    decreases s.len(),
{
    if s.len() == 0 {
        0
    } else {
        10 * decimal_value(s.drop_last()) + digit_value(s.last())
    }
}

/// `s` opens with a sign.
pub open spec fn has_sign(s: Seq<char>) -> bool {
    s.len() > 0 && (s[0] == '-' || s[0] == '+')
}

/// The 64-bit integer that `s` writes in decimal: an optional `+` or `-`
/// and then at least one digit, nothing before or after. `None` for any
/// other text and for a number out of range.
pub open spec fn parse_decimal(s: Seq<char>) -> Option<i64> {
    let digits = if has_sign(s) {
        s.skip(1)
    } else {
        s
    };
    let value = if s.len() > 0 && s[0] == '-' {
        -decimal_value(digits)
    } else {
        decimal_value(digits)
    };
    if digits.len() > 0 && all_digits(digits) && i64::MIN <= value <= i64::MAX {
        Some(value as i64)
    } else {
        None
    }
}

/// Longer runs of digits write larger numbers.
pub proof fn lemma_decimal_value_grows(s: Seq<char>, k: int)
    requires
        all_digits(s),
        0 <= k <= s.len(),
    ensures
        0 <= decimal_value(s.take(k)) <= decimal_value(s),
    decreases s.len(),
{
    if k == s.len() {
        assert(s.take(k) =~= s);
        if s.len() > 0 {
            lemma_decimal_value_grows(s.drop_last(), k - 1);
            assert(is_digit(s[s.len() - 1]));
        }
    } else {
        assert(s.drop_last().take(k) =~= s.take(k));
        lemma_decimal_value_grows(s.drop_last(), k);
        assert(is_digit(s[s.len() - 1]));
    }
}

/// Reads a 64-bit integer written in decimal.
pub fn parse_i64(s: &str) -> (r: Option<i64>)
    ensures
        r == parse_decimal(s@),
{
    broadcast use vstd::string::group_string_axioms;

    let mut rest = s.chars();
    let first = match rest.next() {
        Some(c) => c,
        None => {
            return None;
        },
    };
    let negative = first == '-';
    let signed = first == '-' || first == '+';
    let ghost digits = if signed {
        s@.skip(1)
    } else {
        s@
    };
    let mut acc: i64 = 0;
    let ghost mut seen: int = 0;
    let mut pending: Option<char> = if signed {
        rest.next()
    } else {
        Some(first)
    };
    if pending.is_none() {
        return None;
    }
    while pending.is_some()
        invariant
            s@.len() > 0,
            negative == (s@[0] == '-'),
            signed == has_sign(s@),
            digits == if has_sign(s@) {
                s@.skip(1)
            } else {
                s@
            },
            digits.len() > 0,
            0 <= seen <= digits.len(),
            match pending {
                Some(c) => seen < digits.len() && digits[seen] == c && rest.remaining()
                    == digits.skip(seen + 1),
                None => seen == digits.len(),
            },
            all_digits(digits.take(seen)),
            acc == if negative {
                -decimal_value(digits.take(seen))
            } else {
                decimal_value(digits.take(seen))
            },
        decreases digits.len() - seen,
    {
        let c = pending.unwrap();
        let code: u32 = c as u32;
        let ghost prefix = digits.take(seen);
        let ghost longer = digits.take(seen + 1);
        proof {
            assert(longer.drop_last() =~= prefix);
            assert(longer.last() == c);
        }
        if code < 48 || code > 57 {
            return None;
        }
        let d: i64 = (code - 48) as i64;
        proof {
            assert(decimal_value(longer) == 10 * decimal_value(prefix) + d);
            if all_digits(digits) {
                lemma_decimal_value_grows(digits, seen + 1);
            }
            lemma_decimal_value_grows(prefix, prefix.len() as int);
            assert(prefix.take(prefix.len() as int) =~= prefix);
        }
        let scaled = match acc.checked_mul(10) {
            Some(v) => v,
            None => {
                return None;
            },
        };
        let next = if negative {
            scaled.checked_sub(d)
        } else {
            scaled.checked_add(d)
        };
        acc = match next {
            Some(v) => v,
            None => {
                return None;
            },
        };
        proof {
            assert forall|j: int| 0 <= j < longer.len() implies is_digit(#[trigger] longer[j]) by {
                if j < prefix.len() {
                    assert(prefix[j] == longer[j]);
                }
            }
            assert(digits.skip(seen + 1).len() > 0 ==> digits.skip(seen + 1).drop_first()
                =~= digits.skip(seen + 2));
        }
        pending = rest.next();
        proof {
            seen = seen + 1;
        }
    }
    proof {
        assert(digits.take(seen) =~= digits);
    }
    Some(acc)
}

/// The number that an optional parameter names, or `default` where the
/// parameter is absent or is no number.
pub open spec fn number_or(text: Option<Seq<char>>, default: i64) -> i64 {
    match text {
        Some(t) => match parse_decimal(t) {
            Some(v) => v,
            None => default,
        },
        None => default,
    }
}

fn read_or(text: &Option<String>, default: i64) -> (r: i64)
    ensures
        r == number_or(opt_view(*text), default),
{
    match text {
        Some(t) => match parse_i64(t.as_str()) {
            Some(v) => v,
            None => default,
        },
        None => default,
    }
}

/// The direction of a sort.
#[derive(Debug, Clone, Copy, PartialEq, Eq, Structural)]
pub enum SortDirection {
    Asc,
    Desc,
}

impl SortDirection {
    /// The SQL keyword for the direction.
    pub fn to_sql(&self) -> (r: &'static str)
        ensures
            r@ == match *self {
                SortDirection::Asc => "ASC"@,
                SortDirection::Desc => "DESC"@,
            },
    {
        match self {
            Self::Asc => "ASC",
            Self::Desc => "DESC",
        }
    }
}

/// Paging parameters as the request wrote them.
#[derive(Debug, Default, Clone)]
pub struct PaginationParams {
    pub limit: Option<String>,
    pub offset: Option<String>,
}

impl PaginationParams {
    /// The page size: the number written, or 100.
    pub fn limit(&self) -> (r: i64)
        ensures
            r == number_or(opt_view(self.limit), DEFAULT_LIMIT),
    {
        read_or(&self.limit, DEFAULT_LIMIT)
    }

    /// The offset of the page: the number written, or 0.
    pub fn offset(&self) -> (r: i64)
        ensures
            r == number_or(opt_view(self.offset), DEFAULT_OFFSET),
    {
        read_or(&self.offset, DEFAULT_OFFSET)
    }
}

/// Paging parameters with a sort key of type `T` and a direction.
#[derive(Debug, Default, Clone)]
pub struct SortParams<T> {
    pub pagination: PaginationParams,
    pub sort: Option<T>,
    pub sort_by: Option<SortDirection>,
}

impl<T> SortParams<T> {
    pub fn limit(&self) -> (r: i64)
        ensures
            r == number_or(opt_view(self.pagination.limit), DEFAULT_LIMIT),
    {
        self.pagination.limit()
    }

    pub fn offset(&self) -> (r: i64)
        ensures
            r == number_or(opt_view(self.pagination.offset), DEFAULT_OFFSET),
    {
        self.pagination.offset()
    }

    /// The sort key, if the request named one.
    pub fn sort(&self) -> (r: Option<&T>)
        ensures
            r is Some == self.sort is Some,
            r is Some ==> *r->0 == self.sort->0,
    {
        self.sort.as_ref()
    }

    /// The direction of the sort, ascending unless the request said
    /// otherwise.
    pub fn sort_by(&self) -> (r: SortDirection)
        ensures
            r == match self.sort_by {
                Some(d) => d,
                None => SortDirection::Asc,
            },
    {
        match self.sort_by {
            Some(d) => d,
            None => SortDirection::Asc,
        }
    }
}

/// Sorting and paging parameters with a search term.
#[derive(Debug, Default, Clone)]
pub struct SearchParams<T> {
    pub sortable: SortParams<T>,
    pub search: Option<String>,
}

impl<T> SearchParams<T> {
    pub fn limit(&self) -> (r: i64)
        ensures
            r == number_or(opt_view(self.sortable.pagination.limit), DEFAULT_LIMIT),
    {
        self.sortable.limit()
    }

    pub fn offset(&self) -> (r: i64)
        ensures
            r == number_or(opt_view(self.sortable.pagination.offset), DEFAULT_OFFSET),
    {
        self.sortable.offset()
    }

    pub fn sort(&self) -> (r: Option<&T>)
        ensures
            r is Some == self.sortable.sort is Some,
            r is Some ==> *r->0 == self.sortable.sort->0,
    {
        self.sortable.sort()
    }

    pub fn sort_by(&self) -> (r: SortDirection)
        ensures
            r == match self.sortable.sort_by {
                Some(d) => d,
                None => SortDirection::Asc,
            },
    {
        self.sortable.sort_by()
    }

    /// The pattern that matches every text holding the search term: the
    /// term between two `%`.
    pub fn search_pattern(&self) -> (r: Option<String>)
        ensures
            opt_view(r) == match self.search {
                Some(term) => Some("%"@ + term@ + "%"@),
                None => None,
            },
    {
        match &self.search {
            Some(term) => Some("%".to_owned().concat(term.as_str()).concat("%")),
            None => None,
        }
    }

    /// The search term, if the request named one.
    pub fn search(&self) -> (r: Option<&String>)
        ensures
            r is Some == self.search is Some,
            r is Some ==> *r->0 == self.search->0,
    {
        self.search.as_ref()
    }
}

} // verus!

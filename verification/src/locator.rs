//! Construction of request targets.
//!
//! Search requests go to the fixed host with a query string
//! `?page=<n>&<encoded filter>`; pagination sub-requests append `?p=<n>`
//! to an article's base locator; the full comment listing appends
//! `?hc=1`. Every function here states the produced string exactly,
//! character for character.

use vstd::prelude::*;
use vstd::string::StringExecFns;
use vstd::string::StringSliceAdditionalSpecFns;
use crate::encode::percent_encode;
use crate::encode::push_char;
use crate::encode::spec_percent_encode;

verus! {

/// The character for a single decimal digit.
pub open spec fn spec_decimal_digit(n: nat) -> char
    recommends
        n < 10,
{
    ((0x30 + n) as u8) as char
}

/// The decimal digits of `n`, most significant first, with no leading
/// zero except for `n == 0` itself.
pub open spec fn spec_decimal(n: nat) -> Seq<char>
    decreases n,
{
    if n < 10 {
        seq![spec_decimal_digit(n)]
    } else {
        spec_decimal(n / 10).push(spec_decimal_digit(n % 10))
    }
}

fn push_decimal(s: &mut String, n: usize)
    ensures
        final(s)@ == old(s)@ + spec_decimal(n as nat),
    decreases n,
{
    if n >= 10 {
        push_decimal(s, n / 10);
    }
    push_char(s, ((n % 10) as u8 + 0x30) as char);
    proof {
        if n >= 10 {
            assert(final(s)@ =~= old(s)@ + spec_decimal(n as nat));
        } else {
            assert(final(s)@ =~= old(s)@ + spec_decimal(n as nat));
        }
    }
}

/// The decimal rendering of `n`.
pub fn decimal_string(n: usize) -> (res: String)
    ensures
        res@ == spec_decimal(n as nat),
{
    let mut s = String::new();
    push_decimal(&mut s, n);
    proof {
        assert(s@ =~= spec_decimal(n as nat));
    }
    s
}

/// The search filter for a keyword: `f_search=` followed by the
/// percent-encoded keyword.
pub fn search_query(keyword: &str) -> (res: String)
    ensures
        res@ == "f_search="@ + spec_percent_encode(keyword.spec_bytes()),
{
    let mut s = String::new();
    s.append("f_search=");
    let enc = percent_encode(keyword);
    s.append(enc.as_str());
    proof {
        assert(s@ =~= "f_search="@ + spec_percent_encode(keyword.spec_bytes()));
    }
    s
}

/// The query-string target of search-results page `page` for an
/// already-encoded filter: `?page=<page>&<query>`.
pub fn page_query(page: usize, query: &str) -> (res: String)
    ensures
        res@ == "?page="@ + spec_decimal(page as nat) + "&"@ + query@,
{
    let mut s = String::new();
    s.append("?page=");
    push_decimal(&mut s, page);
    s.append("&");
    s.append(query);
    proof {
        assert(s@ =~= "?page="@ + spec_decimal(page as nat) + "&"@ + query@);
    }
    s
}

/// The locator of pagination sub-page `index` of an article:
/// `<path>?p=<index>`.
pub fn sub_page_locator(path: &str, index: usize) -> (res: String)
    ensures
        res@ == path@ + "?p="@ + spec_decimal(index as nat),
{
    let mut s = String::new();
    s.append(path);
    s.append("?p=");
    push_decimal(&mut s, index);
    proof {
        assert(s@ =~= path@ + "?p="@ + spec_decimal(index as nat));
    }
    s
}

/// The locator of the full comment listing of an article:
/// `<path>?hc=1`.
pub fn all_comments_locator(path: &str) -> (res: String)
    ensures
        res@ == path@ + "?hc=1"@,
{
    let mut s = String::new();
    s.append(path);
    s.append("?hc=1");
    proof {
        assert(s@ =~= path@ + "?hc=1"@);
    }
    s
}

} // verus!

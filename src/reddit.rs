//! The listing of posts that links are read from: the query that asks for
//! them, and which of the returned posts are taken.
use vstd::prelude::*;

use crate::text::concat;

verus! {

/// The listing query for the sample-kit forum, newest first, up to a
/// thousand posts.
pub open spec fn posts_base_url() -> Seq<char> {
    "https://api.pushshift.io/reddit/search/submission/?subreddit=drumkits&sort=desc&sort_type=created_utc&size=1000"@
}

/// `url` with `param` appended after `&`, where there is one.
pub open spec fn with_param(url: Seq<char>, param: Option<Seq<char>>) -> Seq<char> {
    match param {
        Some(p) => url + "&"@ + p,
        None => url,
    }
}

/// The view of an optional string slice.
pub open spec fn opt_str_view(o: Option<&str>) -> Option<Seq<char>> {
    match o {
        Some(s) => Some(s@),
        None => None,
    }
}

/// `url` with `param` appended after `&`, where there is one.
fn append_param(url: String, param: Option<&str>) -> (r: String)
    ensures
        r@ == with_param(url@, opt_str_view(param)),
{
    match param {
        Some(p) => {
            let u = concat(url.as_str(), "&");
            concat(u.as_str(), p)
        },
        None => url,
    }
}

/// The listing query: the base query, then the time period, then the
/// free-form query, each after `&` where given.
pub fn posts_query_url(q: Option<&str>, time_period: Option<&str>) -> (r: String)
    ensures
        r@ == with_param(
            with_param(posts_base_url(), opt_str_view(time_period)),
            opt_str_view(q),
        ),
{
    let base = "https://api.pushshift.io/reddit/search/submission/?subreddit=drumkits&sort=desc&sort_type=created_utc&size=1000".to_owned();
    let with_time = append_param(base, time_period);
    append_param(with_time, q)
}

/// The positions of the posts that are taken out of `len`: every `step`-th,
/// from the first on.
pub fn stepped_indices(len: usize, step: usize) -> (r: Vec<usize>)
    requires
        step > 0,
    ensures
        forall|i: int| 0 <= i < r@.len() ==> #[trigger] r@[i] == i * step && r@[i] < len,
        r@.len() * step >= len,
{
    let mut r: Vec<usize> = Vec::new();
    let mut idx: usize = 0;
    assert(0 * step == 0) by (nonlinear_arith);
    while idx < len
        invariant
            step > 0,
            idx == r@.len() * step,
            forall|i: int| 0 <= i < r@.len() ==> #[trigger] r@[i] == i * step && r@[i] < len,
        decreases len - idx,
    {
        let ghost n = r@.len();
        r.push(idx);
        assert((n + 1) * step == n * step + step) by (nonlinear_arith);
        if step > len - idx {
            assert(r@.len() * step >= len);
            return r;
        }
        idx = idx + step;
    }
    r
}

} // verus!

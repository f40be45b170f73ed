//! Endpoint URL construction: pure string building, with the optional time
//! bounds appended only when supplied, after normalization.

use vstd::prelude::*;

use crate::time::{encode_time, norm_time};

verus! {

/// The view of an optional string.
pub open spec fn opt_view(o: Option<String>) -> Option<Seq<char>> {
    match o {
        Some(s) => Some(s@),
        None => None,
    }
}

/// The stats endpoint URL: service and granularity always present, each time
/// bound present exactly when it was supplied, in normalized form.
pub open spec fn spec_stats_url(
    service: Seq<char>,
    from: Option<Seq<char>>,
    to: Option<Seq<char>>,
    by: Seq<char>,
) -> Seq<char> {
    "https://api.fastly.com/stats/service/"@ + service + "?by="@ + by + (match from {
        Some(f) => "&from="@ + norm_time(f),
        None => Seq::<char>::empty(),
    }) + (match to {
        Some(t) => "&to="@ + norm_time(t),
        None => Seq::<char>::empty(),
    })
}

/// The summary endpoint URL: no query parameters.
pub open spec fn spec_summary_url(service: Seq<char>) -> Seq<char> {
    "https://api.fastly.com/service/"@ + service + "/stats/summary"@
}

/// Builds the stats endpoint URL for a service and granularity, appending
/// `&from=` and `&to=` only for the bounds that were supplied.
pub fn build_stats_url(
    service: &String,
    from: &Option<String>,
    to: &Option<String>,
    by: &String,
) -> (r: String)
    ensures
        r@ == spec_stats_url(service@, opt_view(*from), opt_view(*to), by@),
{
    let mut url = String::from_str("https://api.fastly.com/stats/service/");
    url.append(service.as_str());
    url.append("?by=");
    url.append(by.as_str());
    match from {
        Some(f) => {
            url.append("&from=");
            let nf = encode_time(f);
            url.append(nf.as_str());
        },
        None => {},
    }
    match to {
        Some(t) => {
            url.append("&to=");
            let nt = encode_time(t);
            url.append(nt.as_str());
        },
        None => {},
    }
    proof {
        assert(url@ =~= spec_stats_url(service@, opt_view(*from), opt_view(*to), by@));
    }
    url
}

/// Builds the summary endpoint URL for a service.
pub fn build_summary_url(service: &String) -> (r: String)
    ensures
        r@ == spec_summary_url(service@),
{
    let mut url = String::from_str("https://api.fastly.com/service/");
    url.append(service.as_str());
    url.append("/stats/summary");
    proof {
        assert(url@ =~= spec_summary_url(service@));
    }
    url
}

} // verus!

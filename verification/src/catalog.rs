//! The remote catalog search's request URL.
//!
//! The HTTP call itself and the decoding of the response body happen
//! outside this crate; the records that come back are turned into tracks
//! by [`crate::song::song_from_catalog`].

use vstd::prelude::*;

use vstd::string::StringExecFns;

verus! {

/// The catalog endpoint, with every fixed query parameter already in
/// place; the user's search term is appended last.
pub open spec fn spec_search_prefix() -> Seq<char> {
    "https://api.jamendo.com/v3.0/tracks/?client_id=23d25192&format=json&limit=10&namesearch="@
}

/// Builds the catalog search URL for `query`, exactly the fixed endpoint
/// prefix followed by the raw search term.
pub fn search_url(query: &str) -> (r: String)
    ensures
        r@ == spec_search_prefix() + query@,
{
    String::from_str(
        "https://api.jamendo.com/v3.0/tracks/?client_id=23d25192&format=json&limit=10&namesearch=",
    ).concat(query)
}

} // verus!

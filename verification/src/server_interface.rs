//! Client-side logic for the song catalog service: building the search
//! query URL and picking a result out of the decoded response.  The HTTP
//! requests, the JSON decoding and the listing printout happen outside
//! and hand this module plain values.

use vstd::prelude::*;
use vstd::string::StringExecFns;

verus! {

/// One entry of the catalog's search response.
#[derive(Clone, Debug)]
pub struct SearchResult {
    pub artist: String,
    pub title: String,
    pub genre: Option<String>,
    pub path: String,
}

/// The URL that searches the catalog `server` for `keyword`.
pub fn search_query_url(server: &str, keyword: &str) -> (u: String)
    ensures
        u@ == server@ + "/search?q="@ + keyword@,
{
    let mut u = String::from_str(server);
    u.append("/search?q=");
    u.append(keyword);
    u
}

/// The download URL of the `index`th search result, when there is one:
/// the server followed by the result's path.  `None` exactly when the
/// index is out of bounds.
pub fn pick_result(server: &str, results: &Vec<SearchResult>, index: usize) -> (r: Option<
    String,
>)
    ensures
        match r {
            Option::Some(u) => index < results@.len() && u@ == server@ + "/"@
                + results@[index as int].path@,
            Option::None => index >= results@.len(),
        },
{
    if index < results.len() {
        let mut u = String::from_str(server);
        u.append("/");
        u.append(results[index].path.as_str());
        Some(u)
    } else {
        None
    }
}

} // verus!

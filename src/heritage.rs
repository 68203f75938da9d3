//! The search endpoint: its request parameters and the shape of its response.
use vstd::prelude::*;
use crate::json::{
    array_at, bool_at, decode_str_list, decodes_str_list, field, get_field, is_absent, json_of_text,
    number_at, opt_array_at, opt_str_at, parse_json, read_array, read_bool, read_number, read_opt_str,
    read_str, read_usize, str_at, usize_at, valid_str_list, DecodeError, Json, JsonNumber,
};
use crate::query::{encode_query, encode_text, join_amp, piece, present_pieces, QueryParam};

verus! {

/// The parameters of a call to the search endpoint.
pub struct Params {
    /// The account's API key.
    pub api_key: String,
    /// Where the search is made from, such as "United States".
    pub location: String,
    /// The query text; spaces and punctuation are fine.
    pub q: String,
}

/// The URL of a search for the given key, location and query.
pub open spec fn search_url(api_key: Seq<char>, location: Seq<char>, q: Seq<char>) -> Seq<char> {
    "https://api.scaleserp.com/search?api_key="@ + encode_text(api_key) + "&location="@
        + encode_text(location) + "&q="@ + encode_text(q)
}

impl Params {
    /// Parameters for a search with an explicit key, location and query.
    pub fn new(api_key: &str, location: &str, q: &str) -> (r: Params)
        ensures
            r.api_key@ == api_key@,
            r.location@ == location@,
            r.q@ == q@,
    {
        Params { api_key: api_key.to_owned(), location: location.to_owned(), q: q.to_owned() }
    }

    /// Parameters for a search made from New York City. Searches aimed at a
    /// specific place are more likely to include ads.
    pub fn new_env_nyc(api_key: &str, q: &str) -> (r: Params)
        ensures
            r.api_key@ == api_key@,
            r.location@ == "New York,New York,United States"@,
            r.q@ == q@,
    {
        Params::new(api_key, "New York,New York,United States", q)
    }

    /// Parameters for a search made from within the United States.
    pub fn new_env_usa(api_key: &str, q: &str) -> (r: Params)
        ensures
            r.api_key@ == api_key@,
            r.location@ == "United States"@,
            r.q@ == q@,
    {
        Params::new(api_key, "United States", q)
    }

    /// The URL that performs this search.
    pub fn to_url(&self) -> (r: String)
        ensures
            r@ == search_url(self.api_key@, self.location@, self.q@),
    {
        let mut ps: Vec<QueryParam> = Vec::new();
        ps.push(QueryParam { name: "api_key".to_owned(), value: Some(self.api_key.clone()) });
        ps.push(QueryParam { name: "location".to_owned(), value: Some(self.location.clone()) });
        ps.push(QueryParam { name: "q".to_owned(), value: Some(self.q.clone()) });
        let r = encode_query("https://api.scaleserp.com/search", &ps);
        proof {
            reveal_strlit("https://api.scaleserp.com/search");
            reveal_strlit("https://api.scaleserp.com/search?api_key=");
            reveal_strlit("&location=");
            reveal_strlit("&q=");
            reveal_strlit("api_key");
            reveal_strlit("location");
            reveal_strlit("q");
            let s = ps@;
            let s1 = s.drop_last().drop_last();
            let s2 = s.drop_last();
            assert(s1.drop_last().len() == 0);
            assert(present_pieces(s1.drop_last()) =~= Seq::<Seq<char>>::empty());
            let a = piece("api_key"@, self.api_key@);
            let b = piece("location"@, self.location@);
            let c = piece("q"@, self.q@);
            assert(s1.last() == s[0] && s2.last() == s[1] && s.last() == s[2]);
            assert(s[0].name@ == "api_key"@ && s[0].value == Some(self.api_key));
            assert(s[1].name@ == "location"@ && s[1].value == Some(self.location));
            assert(s[2].name@ == "q"@ && s[2].value == Some(self.q));
            assert(present_pieces(s1) =~= seq![a]);
            assert(present_pieces(s2) =~= seq![a, b]);
            assert(present_pieces(s) =~= seq![a, b, c]);
            assert(seq![a, b, c].drop_last() =~= seq![a, b]);
            assert(seq![a, b].drop_last() =~= seq![a]);
            assert(join_amp(seq![a]) == a);
            assert(join_amp(seq![a, b]) =~= a + seq!['&'] + b);
            assert(join_amp(seq![a, b, c]) =~= a + seq!['&'] + b + seq!['&'] + c);
            assert(r@ =~= search_url(self.api_key@, self.location@, self.q@));
        }
        r
    }
}

/// Accounting facts about the request.
pub struct RequestInfo {
    /// Whether the request succeeded.
    pub success: bool,
    /// Credits used so far in the period.
    pub credits_used: usize,
    /// Credits this request used.
    pub credits_used_this_request: usize,
    /// Credits left in the period.
    pub credits_remaining: usize,
    /// When the credits reset, such as "2021-07-31T01:00:37.000Z".
    pub credits_reset_at: String,
}

/// Whether `j` has the shape of a RequestInfo.
pub open spec fn valid_request_info(j: Json) -> bool {
    &&& bool_at(j, "success"@) is Some
    &&& usize_at(j, "credits_used"@) is Some
    &&& usize_at(j, "credits_used_this_request"@) is Some
    &&& usize_at(j, "credits_remaining"@) is Some
    &&& str_at(j, "credits_reset_at"@) is Some
}

/// Whether `v` holds exactly the fields of `j`.
pub open spec fn decodes_request_info(j: Json, v: RequestInfo) -> bool {
    &&& bool_at(j, "success"@) == Some(v.success)
    &&& usize_at(j, "credits_used"@) == Some(v.credits_used)
    &&& usize_at(j, "credits_used_this_request"@) == Some(v.credits_used_this_request)
    &&& usize_at(j, "credits_remaining"@) == Some(v.credits_remaining)
    &&& str_at(j, "credits_reset_at"@) == Some(v.credits_reset_at)
}

impl RequestInfo {
    /// Decodes RequestInfo from a JSON value; `None` when the value does not have its shape.
    pub fn from_json(j: &Json) -> (r: Option<RequestInfo>)
        ensures
            r is Some == valid_request_info(*j),
            r matches Some(v) ==> decodes_request_info(*j, v),
    {
        let success = match read_bool(j, "success") {
            Some(x) => x,
            None => return None,
        };
        let credits_used = match read_usize(j, "credits_used") {
            Some(x) => x,
            None => return None,
        };
        let credits_used_this_request = match read_usize(j, "credits_used_this_request") {
            Some(x) => x,
            None => return None,
        };
        let credits_remaining = match read_usize(j, "credits_remaining") {
            Some(x) => x,
            None => return None,
        };
        let credits_reset_at = match read_str(j, "credits_reset_at") {
            Some(x) => x,
            None => return None,
        };
        Some(RequestInfo { success, credits_used, credits_used_this_request, credits_remaining, credits_reset_at })
    }
}

/// The query parameters, as the service echoes them.
pub struct SearchParameters {
    /// The location searched from.
    pub location: String,
    /// The query text.
    pub q: String,
}

/// Whether `j` has the shape of a SearchParameters.
pub open spec fn valid_search_parameters(j: Json) -> bool {
    &&& str_at(j, "location"@) is Some
    &&& str_at(j, "q"@) is Some
}

/// Whether `v` holds exactly the fields of `j`.
pub open spec fn decodes_search_parameters(j: Json, v: SearchParameters) -> bool {
    &&& str_at(j, "location"@) == Some(v.location)
    &&& str_at(j, "q"@) == Some(v.q)
}

impl SearchParameters {
    /// Decodes SearchParameters from a JSON value; `None` when the value does not have its shape.
    pub fn from_json(j: &Json) -> (r: Option<SearchParameters>)
        ensures
            r is Some == valid_search_parameters(*j),
            r matches Some(v) ==> decodes_search_parameters(*j, v),
    {
        let location = match read_str(j, "location") {
            Some(x) => x,
            None => return None,
        };
        let q = match read_str(j, "q") {
            Some(x) => x,
            None => return None,
        };
        Some(SearchParameters { location, q })
    }
}

/// Facts about how the search ran.
pub struct SearchMetadata {
    /// When the search was created.
    pub created_at: String,
    /// When the search was processed.
    pub processed_at: String,
    /// Seconds the search took.
    pub total_time_taken: JsonNumber,
    /// The search engine URL that was fetched.
    pub engine_url: String,
    /// Where the raw HTML can be had.
    pub html_url: String,
    /// Where this JSON can be had.
    pub json_url: String,
    /// A note on how the location was chosen, when there is one.
    pub location_auto_message: Option<String>,
}

/// Whether `j` has the shape of a SearchMetadata.
pub open spec fn valid_search_metadata(j: Json) -> bool {
    &&& str_at(j, "created_at"@) is Some
    &&& str_at(j, "processed_at"@) is Some
    &&& number_at(j, "total_time_taken"@) is Some
    &&& str_at(j, "engine_url"@) is Some
    &&& str_at(j, "html_url"@) is Some
    &&& str_at(j, "json_url"@) is Some
    &&& opt_str_at(j, "location_auto_message"@) is Some
}

/// Whether `v` holds exactly the fields of `j`.
pub open spec fn decodes_search_metadata(j: Json, v: SearchMetadata) -> bool {
    &&& str_at(j, "created_at"@) == Some(v.created_at)
    &&& str_at(j, "processed_at"@) == Some(v.processed_at)
    &&& number_at(j, "total_time_taken"@) == Some(v.total_time_taken)
    &&& str_at(j, "engine_url"@) == Some(v.engine_url)
    &&& str_at(j, "html_url"@) == Some(v.html_url)
    &&& str_at(j, "json_url"@) == Some(v.json_url)
    &&& opt_str_at(j, "location_auto_message"@) == Some(v.location_auto_message)
}

impl SearchMetadata {
    /// Decodes SearchMetadata from a JSON value; `None` when the value does not have its shape.
    pub fn from_json(j: &Json) -> (r: Option<SearchMetadata>)
        ensures
            r is Some == valid_search_metadata(*j),
            r matches Some(v) ==> decodes_search_metadata(*j, v),
    {
        let created_at = match read_str(j, "created_at") {
            Some(x) => x,
            None => return None,
        };
        let processed_at = match read_str(j, "processed_at") {
            Some(x) => x,
            None => return None,
        };
        let total_time_taken = match read_number(j, "total_time_taken") {
            Some(x) => x,
            None => return None,
        };
        let engine_url = match read_str(j, "engine_url") {
            Some(x) => x,
            None => return None,
        };
        let html_url = match read_str(j, "html_url") {
            Some(x) => x,
            None => return None,
        };
        let json_url = match read_str(j, "json_url") {
            Some(x) => x,
            None => return None,
        };
        let location_auto_message = match read_opt_str(j, "location_auto_message") {
            Some(x) => x,
            None => return None,
        };
        Some(SearchMetadata { created_at, processed_at, total_time_taken, engine_url, html_url, json_url, location_auto_message })
    }
}

/// Summary facts about the results.
pub struct SearchInformation {
    /// Whether the query as typed found nothing.
    pub original_query_yields_zero_results: bool,
    /// The estimated number of results.
    pub total_results: usize,
    /// The search time that the page displayed.
    pub time_taken_displayed: JsonNumber,
    /// The query as the page displayed it.
    pub query_displayed: String,
    /// The location the engine detected, when there is one.
    pub detected_location: Option<String>,
}

/// Whether `j` has the shape of a SearchInformation.
pub open spec fn valid_search_information(j: Json) -> bool {
    &&& bool_at(j, "original_query_yields_zero_results"@) is Some
    &&& usize_at(j, "total_results"@) is Some
    &&& number_at(j, "time_taken_displayed"@) is Some
    &&& str_at(j, "query_displayed"@) is Some
    &&& opt_str_at(j, "detected_location"@) is Some
}

/// Whether `v` holds exactly the fields of `j`.
pub open spec fn decodes_search_information(j: Json, v: SearchInformation) -> bool {
    &&& bool_at(j, "original_query_yields_zero_results"@) == Some(v.original_query_yields_zero_results)
    &&& usize_at(j, "total_results"@) == Some(v.total_results)
    &&& number_at(j, "time_taken_displayed"@) == Some(v.time_taken_displayed)
    &&& str_at(j, "query_displayed"@) == Some(v.query_displayed)
    &&& opt_str_at(j, "detected_location"@) == Some(v.detected_location)
}

impl SearchInformation {
    /// Decodes SearchInformation from a JSON value; `None` when the value does not have its shape.
    pub fn from_json(j: &Json) -> (r: Option<SearchInformation>)
        ensures
            r is Some == valid_search_information(*j),
            r matches Some(v) ==> decodes_search_information(*j, v),
    {
        let original_query_yields_zero_results = match read_bool(j, "original_query_yields_zero_results") {
            Some(x) => x,
            None => return None,
        };
        let total_results = match read_usize(j, "total_results") {
            Some(x) => x,
            None => return None,
        };
        let time_taken_displayed = match read_number(j, "time_taken_displayed") {
            Some(x) => x,
            None => return None,
        };
        let query_displayed = match read_str(j, "query_displayed") {
            Some(x) => x,
            None => return None,
        };
        let detected_location = match read_opt_str(j, "detected_location") {
            Some(x) => x,
            None => return None,
        };
        Some(SearchInformation { original_query_yields_zero_results, total_results, time_taken_displayed, query_displayed, detected_location })
    }
}

/// A link shown beneath an ad.
pub struct AdSitelink {
    /// The link text.
    pub title: String,
    /// The link target.
    pub link: String,
}

/// Whether `j` has the shape of an AdSitelink.
pub open spec fn valid_ad_sitelink(j: Json) -> bool {
    &&& str_at(j, "title"@) is Some
    &&& str_at(j, "link"@) is Some
}

/// Whether `v` holds exactly the fields of `j`.
pub open spec fn decodes_ad_sitelink(j: Json, v: AdSitelink) -> bool {
    &&& str_at(j, "title"@) == Some(v.title)
    &&& str_at(j, "link"@) == Some(v.link)
}

impl AdSitelink {
    /// Decodes AdSitelink from a JSON value; `None` when the value does not have its shape.
    pub fn from_json(j: &Json) -> (r: Option<AdSitelink>)
        ensures
            r is Some == valid_ad_sitelink(*j),
            r matches Some(v) ==> decodes_ad_sitelink(*j, v),
    {
        let title = match read_str(j, "title") {
            Some(x) => x,
            None => return None,
        };
        let link = match read_str(j, "link") {
            Some(x) => x,
            None => return None,
        };
        Some(AdSitelink { title, link })
    }
}

/// Whether every element has the shape of AdSitelink.
pub open spec fn valid_ad_sitelink_list(js: Seq<Json>) -> bool {
    forall|i: int| 0 <= i < js.len() ==> valid_ad_sitelink(#[trigger] js[i])
}

/// Whether `vs` decodes `js` element by element.
pub open spec fn decodes_ad_sitelink_list(js: Seq<Json>, vs: Seq<AdSitelink>) -> bool {
    &&& js.len() == vs.len()
    &&& forall|i: int| 0 <= i < js.len() ==> decodes_ad_sitelink(#[trigger] js[i], vs[i])
}

fn decode_ad_sitelink_list(js: &Vec<Json>) -> (r: Option<Vec<AdSitelink>>)
    ensures
        r is Some == valid_ad_sitelink_list(js@),
        r matches Some(v) ==> decodes_ad_sitelink_list(js@, v@),
{
    let mut out: Vec<AdSitelink> = Vec::new();
    let mut i: usize = 0;
    while i < js.len()
        invariant
            i <= js@.len(),
            out@.len() == i,
            forall|k: int| 0 <= k < i ==> valid_ad_sitelink(#[trigger] js@[k]) && decodes_ad_sitelink(js@[k], out@[k]),
        decreases js@.len() - i,
    {
        match AdSitelink::from_json(&js[i]) {
            Some(x) => out.push(x),
            None => {
                proof {
                    assert(!valid_ad_sitelink(js@[i as int]));
                }
                return None;
            },
        }
        i = i + 1;
    }
    Some(out)
}

/// A paid result.
pub struct Ad {
    /// The position among the ads.
    pub position: usize,
    /// Where on the page the ad block stands, such as "top".
    pub block_position: String,
    /// The headline.
    pub title: String,
    /// The target URL.
    pub link: String,
    /// The target domain.
    pub domain: String,
    /// The URL as displayed.
    pub displayed_link: String,
    /// The ad text.
    pub description: String,
    /// The links beneath the ad; `None` when the ad has none.
    pub sitelinks: Option<Vec<AdSitelink>>,
}

/// Whether `j` has the shape of an Ad.
pub open spec fn valid_ad(j: Json) -> bool {
    &&& usize_at(j, "position"@) is Some
    &&& str_at(j, "block_position"@) is Some
    &&& str_at(j, "title"@) is Some
    &&& str_at(j, "link"@) is Some
    &&& str_at(j, "domain"@) is Some
    &&& str_at(j, "displayed_link"@) is Some
    &&& str_at(j, "description"@) is Some
    &&& match opt_array_at(j, "sitelinks"@) {
        Some(None) => true,
        Some(Some(js)) => valid_ad_sitelink_list(js),
        None => false,
    }
}

/// Whether `v` holds exactly the fields of `j`.
pub open spec fn decodes_ad(j: Json, v: Ad) -> bool {
    &&& usize_at(j, "position"@) == Some(v.position)
    &&& str_at(j, "block_position"@) == Some(v.block_position)
    &&& str_at(j, "title"@) == Some(v.title)
    &&& str_at(j, "link"@) == Some(v.link)
    &&& str_at(j, "domain"@) == Some(v.domain)
    &&& str_at(j, "displayed_link"@) == Some(v.displayed_link)
    &&& str_at(j, "description"@) == Some(v.description)
    &&& match opt_array_at(j, "sitelinks"@) {
        Some(None) => v.sitelinks is None,
        Some(Some(js)) => v.sitelinks is Some && decodes_ad_sitelink_list(js, v.sitelinks->0@),
        None => false,
    }
}

impl Ad {
    /// Decodes Ad from a JSON value; `None` when the value does not have its shape.
    pub fn from_json(j: &Json) -> (r: Option<Ad>)
        ensures
            r is Some == valid_ad(*j),
            r matches Some(v) ==> decodes_ad(*j, v),
    {
        let position = match read_usize(j, "position") {
            Some(x) => x,
            None => return None,
        };
        let block_position = match read_str(j, "block_position") {
            Some(x) => x,
            None => return None,
        };
        let title = match read_str(j, "title") {
            Some(x) => x,
            None => return None,
        };
        let link = match read_str(j, "link") {
            Some(x) => x,
            None => return None,
        };
        let domain = match read_str(j, "domain") {
            Some(x) => x,
            None => return None,
        };
        let displayed_link = match read_str(j, "displayed_link") {
            Some(x) => x,
            None => return None,
        };
        let description = match read_str(j, "description") {
            Some(x) => x,
            None => return None,
        };
        let sitelinks = if is_absent(j, "sitelinks") {
            None
        } else {
            match read_array(j, "sitelinks") {
                Some(a) => match decode_ad_sitelink_list(a) {
                    Some(y) => Some(y),
                    None => return None,
                },
                None => return None,
            }
        };
        Some(Ad { position, block_position, title, link, domain, displayed_link, description, sitelinks })
    }
}

/// Whether every element has the shape of Ad.
pub open spec fn valid_ad_list(js: Seq<Json>) -> bool {
    forall|i: int| 0 <= i < js.len() ==> valid_ad(#[trigger] js[i])
}

/// Whether `vs` decodes `js` element by element.
pub open spec fn decodes_ad_list(js: Seq<Json>, vs: Seq<Ad>) -> bool {
    &&& js.len() == vs.len()
    &&& forall|i: int| 0 <= i < js.len() ==> decodes_ad(#[trigger] js[i], vs[i])
}

fn decode_ad_list(js: &Vec<Json>) -> (r: Option<Vec<Ad>>)
    ensures
        r is Some == valid_ad_list(js@),
        r matches Some(v) ==> decodes_ad_list(js@, v@),
{
    let mut out: Vec<Ad> = Vec::new();
    let mut i: usize = 0;
    while i < js.len()
        invariant
            i <= js@.len(),
            out@.len() == i,
            forall|k: int| 0 <= k < i ==> valid_ad(#[trigger] js@[k]) && decodes_ad(js@[k], out@[k]),
        decreases js@.len() - i,
    {
        match Ad::from_json(&js[i]) {
            Some(x) => out.push(x),
            None => {
                proof {
                    assert(!valid_ad(js@[i as int]));
                }
                return None;
            },
        }
        i = i + 1;
    }
    Some(out)
}

/// An unpaid result.
pub struct OrganicResult {
    /// The position among the results.
    pub position: usize,
    /// The title.
    pub title: String,
    /// The target URL.
    pub link: String,
    /// The target domain.
    pub domain: String,
    /// The URL as displayed.
    pub displayed_link: String,
    /// The text excerpt.
    pub snippet: String,
    /// Whether the browser prerenders the target.
    pub prerender: bool,
    /// The words of the excerpt that matched; `None` when not given.
    pub snippet_matched: Option<Vec<String>>,
    /// The position of the block on the page.
    pub block_position: usize,
}

/// Whether `j` has the shape of an OrganicResult.
pub open spec fn valid_organic_result(j: Json) -> bool {
    &&& usize_at(j, "position"@) is Some
    &&& str_at(j, "title"@) is Some
    &&& str_at(j, "link"@) is Some
    &&& str_at(j, "domain"@) is Some
    &&& str_at(j, "displayed_link"@) is Some
    &&& str_at(j, "snippet"@) is Some
    &&& bool_at(j, "prerender"@) is Some
    &&& match opt_array_at(j, "snippet_matched"@) {
        Some(None) => true,
        Some(Some(js)) => valid_str_list(js),
        None => false,
    }
    &&& usize_at(j, "block_position"@) is Some
}

/// Whether `v` holds exactly the fields of `j`.
pub open spec fn decodes_organic_result(j: Json, v: OrganicResult) -> bool {
    &&& usize_at(j, "position"@) == Some(v.position)
    &&& str_at(j, "title"@) == Some(v.title)
    &&& str_at(j, "link"@) == Some(v.link)
    &&& str_at(j, "domain"@) == Some(v.domain)
    &&& str_at(j, "displayed_link"@) == Some(v.displayed_link)
    &&& str_at(j, "snippet"@) == Some(v.snippet)
    &&& bool_at(j, "prerender"@) == Some(v.prerender)
    &&& match opt_array_at(j, "snippet_matched"@) {
        Some(None) => v.snippet_matched is None,
        Some(Some(js)) => v.snippet_matched is Some && decodes_str_list(js, v.snippet_matched->0@),
        None => false,
    }
    &&& usize_at(j, "block_position"@) == Some(v.block_position)
}

impl OrganicResult {
    /// Decodes OrganicResult from a JSON value; `None` when the value does not have its shape.
    pub fn from_json(j: &Json) -> (r: Option<OrganicResult>)
        ensures
            r is Some == valid_organic_result(*j),
            r matches Some(v) ==> decodes_organic_result(*j, v),
    {
        let position = match read_usize(j, "position") {
            Some(x) => x,
            None => return None,
        };
        let title = match read_str(j, "title") {
            Some(x) => x,
            None => return None,
        };
        let link = match read_str(j, "link") {
            Some(x) => x,
            None => return None,
        };
        let domain = match read_str(j, "domain") {
            Some(x) => x,
            None => return None,
        };
        let displayed_link = match read_str(j, "displayed_link") {
            Some(x) => x,
            None => return None,
        };
        let snippet = match read_str(j, "snippet") {
            Some(x) => x,
            None => return None,
        };
        let prerender = match read_bool(j, "prerender") {
            Some(x) => x,
            None => return None,
        };
        let snippet_matched = if is_absent(j, "snippet_matched") {
            None
        } else {
            match read_array(j, "snippet_matched") {
                Some(a) => match decode_str_list(a) {
                    Some(y) => Some(y),
                    None => return None,
                },
                None => return None,
            }
        };
        let block_position = match read_usize(j, "block_position") {
            Some(x) => x,
            None => return None,
        };
        Some(OrganicResult { position, title, link, domain, displayed_link, snippet, prerender, snippet_matched, block_position })
    }
}

/// Whether every element has the shape of OrganicResult.
pub open spec fn valid_organic_result_list(js: Seq<Json>) -> bool {
    forall|i: int| 0 <= i < js.len() ==> valid_organic_result(#[trigger] js[i])
}

/// Whether `vs` decodes `js` element by element.
pub open spec fn decodes_organic_result_list(js: Seq<Json>, vs: Seq<OrganicResult>) -> bool {
    &&& js.len() == vs.len()
    &&& forall|i: int| 0 <= i < js.len() ==> decodes_organic_result(#[trigger] js[i], vs[i])
}

fn decode_organic_result_list(js: &Vec<Json>) -> (r: Option<Vec<OrganicResult>>)
    ensures
        r is Some == valid_organic_result_list(js@),
        r matches Some(v) ==> decodes_organic_result_list(js@, v@),
{
    let mut out: Vec<OrganicResult> = Vec::new();
    let mut i: usize = 0;
    while i < js.len()
        invariant
            i <= js@.len(),
            out@.len() == i,
            forall|k: int| 0 <= k < i ==> valid_organic_result(#[trigger] js@[k]) && decodes_organic_result(js@[k], out@[k]),
        decreases js@.len() - i,
    {
        match OrganicResult::from_json(&js[i]) {
            Some(x) => out.push(x),
            None => {
                proof {
                    assert(!valid_organic_result(js@[i as int]));
                }
                return None;
            },
        }
        i = i + 1;
    }
    Some(out)
}

/// A news story shown above the results.
pub struct TopStory {
    /// The target URL.
    pub link: String,
    /// The headline.
    pub title: String,
    /// Whether it shows before scrolling the carousel.
    pub visible_initially: bool,
    /// The publisher.
    pub source: String,
    /// The date as displayed.
    pub date: String,
    /// The date in UTC.
    pub date_utc: String,
    /// The position of the block on the page.
    pub block_position: usize,
}

/// Whether `j` has the shape of a TopStory.
pub open spec fn valid_top_story(j: Json) -> bool {
    &&& str_at(j, "link"@) is Some
    &&& str_at(j, "title"@) is Some
    &&& bool_at(j, "visible_initially"@) is Some
    &&& str_at(j, "source"@) is Some
    &&& str_at(j, "date"@) is Some
    &&& str_at(j, "date_utc"@) is Some
    &&& usize_at(j, "block_position"@) is Some
}

/// Whether `v` holds exactly the fields of `j`.
pub open spec fn decodes_top_story(j: Json, v: TopStory) -> bool {
    &&& str_at(j, "link"@) == Some(v.link)
    &&& str_at(j, "title"@) == Some(v.title)
    &&& bool_at(j, "visible_initially"@) == Some(v.visible_initially)
    &&& str_at(j, "source"@) == Some(v.source)
    &&& str_at(j, "date"@) == Some(v.date)
    &&& str_at(j, "date_utc"@) == Some(v.date_utc)
    &&& usize_at(j, "block_position"@) == Some(v.block_position)
}

impl TopStory {
    /// Decodes TopStory from a JSON value; `None` when the value does not have its shape.
    pub fn from_json(j: &Json) -> (r: Option<TopStory>)
        ensures
            r is Some == valid_top_story(*j),
            r matches Some(v) ==> decodes_top_story(*j, v),
    {
        let link = match read_str(j, "link") {
            Some(x) => x,
            None => return None,
        };
        let title = match read_str(j, "title") {
            Some(x) => x,
            None => return None,
        };
        let visible_initially = match read_bool(j, "visible_initially") {
            Some(x) => x,
            None => return None,
        };
        let source = match read_str(j, "source") {
            Some(x) => x,
            None => return None,
        };
        let date = match read_str(j, "date") {
            Some(x) => x,
            None => return None,
        };
        let date_utc = match read_str(j, "date_utc") {
            Some(x) => x,
            None => return None,
        };
        let block_position = match read_usize(j, "block_position") {
            Some(x) => x,
            None => return None,
        };
        Some(TopStory { link, title, visible_initially, source, date, date_utc, block_position })
    }
}

/// Whether every element has the shape of TopStory.
pub open spec fn valid_top_story_list(js: Seq<Json>) -> bool {
    forall|i: int| 0 <= i < js.len() ==> valid_top_story(#[trigger] js[i])
}

/// Whether `vs` decodes `js` element by element.
pub open spec fn decodes_top_story_list(js: Seq<Json>, vs: Seq<TopStory>) -> bool {
    &&& js.len() == vs.len()
    &&& forall|i: int| 0 <= i < js.len() ==> decodes_top_story(#[trigger] js[i], vs[i])
}

fn decode_top_story_list(js: &Vec<Json>) -> (r: Option<Vec<TopStory>>)
    ensures
        r is Some == valid_top_story_list(js@),
        r matches Some(v) ==> decodes_top_story_list(js@, v@),
{
    let mut out: Vec<TopStory> = Vec::new();
    let mut i: usize = 0;
    while i < js.len()
        invariant
            i <= js@.len(),
            out@.len() == i,
            forall|k: int| 0 <= k < i ==> valid_top_story(#[trigger] js@[k]) && decodes_top_story(js@[k], out@[k]),
        decreases js@.len() - i,
    {
        match TopStory::from_json(&js[i]) {
            Some(x) => out.push(x),
            None => {
                proof {
                    assert(!valid_top_story(js@[i as int]));
                }
                return None;
            },
        }
        i = i + 1;
    }
    Some(out)
}

/// A seller of a top product.
pub struct TopProductSource {
    /// The seller.
    pub name: String,
    /// The offer URL.
    pub link: String,
    /// The offer title.
    pub title: String,
}

/// Whether `j` has the shape of a TopProductSource.
pub open spec fn valid_top_product_source(j: Json) -> bool {
    &&& str_at(j, "name"@) is Some
    &&& str_at(j, "link"@) is Some
    &&& str_at(j, "title"@) is Some
}

/// Whether `v` holds exactly the fields of `j`.
pub open spec fn decodes_top_product_source(j: Json, v: TopProductSource) -> bool {
    &&& str_at(j, "name"@) == Some(v.name)
    &&& str_at(j, "link"@) == Some(v.link)
    &&& str_at(j, "title"@) == Some(v.title)
}

impl TopProductSource {
    /// Decodes TopProductSource from a JSON value; `None` when the value does not have its shape.
    pub fn from_json(j: &Json) -> (r: Option<TopProductSource>)
        ensures
            r is Some == valid_top_product_source(*j),
            r matches Some(v) ==> decodes_top_product_source(*j, v),
    {
        let name = match read_str(j, "name") {
            Some(x) => x,
            None => return None,
        };
        let link = match read_str(j, "link") {
            Some(x) => x,
            None => return None,
        };
        let title = match read_str(j, "title") {
            Some(x) => x,
            None => return None,
        };
        Some(TopProductSource { name, link, title })
    }
}

/// Whether every element has the shape of TopProductSource.
pub open spec fn valid_top_product_source_list(js: Seq<Json>) -> bool {
    forall|i: int| 0 <= i < js.len() ==> valid_top_product_source(#[trigger] js[i])
}

/// Whether `vs` decodes `js` element by element.
pub open spec fn decodes_top_product_source_list(js: Seq<Json>, vs: Seq<TopProductSource>) -> bool {
    &&& js.len() == vs.len()
    &&& forall|i: int| 0 <= i < js.len() ==> decodes_top_product_source(#[trigger] js[i], vs[i])
}

fn decode_top_product_source_list(js: &Vec<Json>) -> (r: Option<Vec<TopProductSource>>)
    ensures
        r is Some == valid_top_product_source_list(js@),
        r matches Some(v) ==> decodes_top_product_source_list(js@, v@),
{
    let mut out: Vec<TopProductSource> = Vec::new();
    let mut i: usize = 0;
    while i < js.len()
        invariant
            i <= js@.len(),
            out@.len() == i,
            forall|k: int| 0 <= k < i ==> valid_top_product_source(#[trigger] js@[k]) && decodes_top_product_source(js@[k], out@[k]),
        decreases js@.len() - i,
    {
        match TopProductSource::from_json(&js[i]) {
            Some(x) => out.push(x),
            None => {
                proof {
                    assert(!valid_top_product_source(js@[i as int]));
                }
                return None;
            },
        }
        i = i + 1;
    }
    Some(out)
}

/// One specification of a top product.
pub struct TopProductSpecification {
    /// What is specified.
    pub name: String,
    /// Its value.
    pub value: String,
}

/// Whether `j` has the shape of a TopProductSpecification.
pub open spec fn valid_top_product_specification(j: Json) -> bool {
    &&& str_at(j, "name"@) is Some
    &&& str_at(j, "value"@) is Some
}

/// Whether `v` holds exactly the fields of `j`.
pub open spec fn decodes_top_product_specification(j: Json, v: TopProductSpecification) -> bool {
    &&& str_at(j, "name"@) == Some(v.name)
    &&& str_at(j, "value"@) == Some(v.value)
}

impl TopProductSpecification {
    /// Decodes TopProductSpecification from a JSON value; `None` when the value does not have its shape.
    pub fn from_json(j: &Json) -> (r: Option<TopProductSpecification>)
        ensures
            r is Some == valid_top_product_specification(*j),
            r matches Some(v) ==> decodes_top_product_specification(*j, v),
    {
        let name = match read_str(j, "name") {
            Some(x) => x,
            None => return None,
        };
        let value = match read_str(j, "value") {
            Some(x) => x,
            None => return None,
        };
        Some(TopProductSpecification { name, value })
    }
}

/// Whether every element has the shape of TopProductSpecification.
pub open spec fn valid_top_product_specification_list(js: Seq<Json>) -> bool {
    forall|i: int| 0 <= i < js.len() ==> valid_top_product_specification(#[trigger] js[i])
}

/// Whether `vs` decodes `js` element by element.
pub open spec fn decodes_top_product_specification_list(js: Seq<Json>, vs: Seq<TopProductSpecification>) -> bool {
    &&& js.len() == vs.len()
    &&& forall|i: int| 0 <= i < js.len() ==> decodes_top_product_specification(#[trigger] js[i], vs[i])
}

fn decode_top_product_specification_list(js: &Vec<Json>) -> (r: Option<Vec<TopProductSpecification>>)
    ensures
        r is Some == valid_top_product_specification_list(js@),
        r matches Some(v) ==> decodes_top_product_specification_list(js@, v@),
{
    let mut out: Vec<TopProductSpecification> = Vec::new();
    let mut i: usize = 0;
    while i < js.len()
        invariant
            i <= js@.len(),
            out@.len() == i,
            forall|k: int| 0 <= k < i ==> valid_top_product_specification(#[trigger] js@[k]) && decodes_top_product_specification(js@[k], out@[k]),
        decreases js@.len() - i,
    {
        match TopProductSpecification::from_json(&js[i]) {
            Some(x) => out.push(x),
            None => {
                proof {
                    assert(!valid_top_product_specification(js@[i as int]));
                }
                return None;
            },
        }
        i = i + 1;
    }
    Some(out)
}

/// A product shown above the results.
pub struct TopProduct {
    /// The product name.
    pub title: String,
    /// The price as displayed.
    pub price: String,
    /// The rating.
    pub rating: JsonNumber,
    /// The sellers.
    pub sources: Vec<TopProductSource>,
    /// The specifications.
    pub specifications: Vec<TopProductSpecification>,
    /// The position of the block on the page.
    pub block_position: usize,
}

/// Whether `j` has the shape of a TopProduct.
pub open spec fn valid_top_product(j: Json) -> bool {
    &&& str_at(j, "title"@) is Some
    &&& str_at(j, "price"@) is Some
    &&& number_at(j, "rating"@) is Some
    &&& array_at(j, "sources"@) is Some && valid_top_product_source_list(array_at(j, "sources"@)->0)
    &&& array_at(j, "specifications"@) is Some && valid_top_product_specification_list(array_at(j, "specifications"@)->0)
    &&& usize_at(j, "block_position"@) is Some
}

/// Whether `v` holds exactly the fields of `j`.
pub open spec fn decodes_top_product(j: Json, v: TopProduct) -> bool {
    &&& str_at(j, "title"@) == Some(v.title)
    &&& str_at(j, "price"@) == Some(v.price)
    &&& number_at(j, "rating"@) == Some(v.rating)
    &&& array_at(j, "sources"@) is Some && decodes_top_product_source_list(array_at(j, "sources"@)->0, v.sources@)
    &&& array_at(j, "specifications"@) is Some && decodes_top_product_specification_list(array_at(j, "specifications"@)->0, v.specifications@)
    &&& usize_at(j, "block_position"@) == Some(v.block_position)
}

impl TopProduct {
    /// Decodes TopProduct from a JSON value; `None` when the value does not have its shape.
    pub fn from_json(j: &Json) -> (r: Option<TopProduct>)
        ensures
            r is Some == valid_top_product(*j),
            r matches Some(v) ==> decodes_top_product(*j, v),
    {
        let title = match read_str(j, "title") {
            Some(x) => x,
            None => return None,
        };
        let price = match read_str(j, "price") {
            Some(x) => x,
            None => return None,
        };
        let rating = match read_number(j, "rating") {
            Some(x) => x,
            None => return None,
        };
        let sources = match read_array(j, "sources") {
            Some(a) => match decode_top_product_source_list(a) {
                Some(y) => y,
                None => return None,
            },
            None => return None,
        };
        let specifications = match read_array(j, "specifications") {
            Some(a) => match decode_top_product_specification_list(a) {
                Some(y) => y,
                None => return None,
            },
            None => return None,
        };
        let block_position = match read_usize(j, "block_position") {
            Some(x) => x,
            None => return None,
        };
        Some(TopProduct { title, price, rating, sources, specifications, block_position })
    }
}

/// Whether every element has the shape of TopProduct.
pub open spec fn valid_top_product_list(js: Seq<Json>) -> bool {
    forall|i: int| 0 <= i < js.len() ==> valid_top_product(#[trigger] js[i])
}

/// Whether `vs` decodes `js` element by element.
pub open spec fn decodes_top_product_list(js: Seq<Json>, vs: Seq<TopProduct>) -> bool {
    &&& js.len() == vs.len()
    &&& forall|i: int| 0 <= i < js.len() ==> decodes_top_product(#[trigger] js[i], vs[i])
}

fn decode_top_product_list(js: &Vec<Json>) -> (r: Option<Vec<TopProduct>>)
    ensures
        r is Some == valid_top_product_list(js@),
        r matches Some(v) ==> decodes_top_product_list(js@, v@),
{
    let mut out: Vec<TopProduct> = Vec::new();
    let mut i: usize = 0;
    while i < js.len()
        invariant
            i <= js@.len(),
            out@.len() == i,
            forall|k: int| 0 <= k < i ==> valid_top_product(#[trigger] js@[k]) && decodes_top_product(js@[k], out@[k]),
        decreases js@.len() - i,
    {
        match TopProduct::from_json(&js[i]) {
            Some(x) => out.push(x),
            None => {
                proof {
                    assert(!valid_top_product(js@[i as int]));
                }
                return None;
            },
        }
        i = i + 1;
    }
    Some(out)
}

/// Where the answer to a related question comes from.
pub struct RelatedQuestionSource {
    /// The page URL.
    pub link: String,
    /// The URL as displayed.
    pub displayed_link: String,
    /// The page title.
    pub title: String,
}

/// Whether `j` has the shape of a RelatedQuestionSource.
pub open spec fn valid_related_question_source(j: Json) -> bool {
    &&& str_at(j, "link"@) is Some
    &&& str_at(j, "displayed_link"@) is Some
    &&& str_at(j, "title"@) is Some
}

/// Whether `v` holds exactly the fields of `j`.
pub open spec fn decodes_related_question_source(j: Json, v: RelatedQuestionSource) -> bool {
    &&& str_at(j, "link"@) == Some(v.link)
    &&& str_at(j, "displayed_link"@) == Some(v.displayed_link)
    &&& str_at(j, "title"@) == Some(v.title)
}

impl RelatedQuestionSource {
    /// Decodes RelatedQuestionSource from a JSON value; `None` when the value does not have its shape.
    pub fn from_json(j: &Json) -> (r: Option<RelatedQuestionSource>)
        ensures
            r is Some == valid_related_question_source(*j),
            r matches Some(v) ==> decodes_related_question_source(*j, v),
    {
        let link = match read_str(j, "link") {
            Some(x) => x,
            None => return None,
        };
        let displayed_link = match read_str(j, "displayed_link") {
            Some(x) => x,
            None => return None,
        };
        let title = match read_str(j, "title") {
            Some(x) => x,
            None => return None,
        };
        Some(RelatedQuestionSource { link, displayed_link, title })
    }
}

/// A question people also ask.
pub struct RelatedQuestion {
    /// The question.
    pub question: String,
    /// The answer shown.
    pub answer: String,
    /// Where the answer comes from.
    pub source: RelatedQuestionSource,
    /// The position of the block on the page.
    pub block_position: usize,
}

/// Whether `j` has the shape of a RelatedQuestion.
pub open spec fn valid_related_question(j: Json) -> bool {
    &&& str_at(j, "question"@) is Some
    &&& str_at(j, "answer"@) is Some
    &&& field(j, "source"@) is Some && valid_related_question_source(field(j, "source"@)->0)
    &&& usize_at(j, "block_position"@) is Some
}

/// Whether `v` holds exactly the fields of `j`.
pub open spec fn decodes_related_question(j: Json, v: RelatedQuestion) -> bool {
    &&& str_at(j, "question"@) == Some(v.question)
    &&& str_at(j, "answer"@) == Some(v.answer)
    &&& field(j, "source"@) is Some && decodes_related_question_source(field(j, "source"@)->0, v.source)
    &&& usize_at(j, "block_position"@) == Some(v.block_position)
}

impl RelatedQuestion {
    /// Decodes RelatedQuestion from a JSON value; `None` when the value does not have its shape.
    pub fn from_json(j: &Json) -> (r: Option<RelatedQuestion>)
        ensures
            r is Some == valid_related_question(*j),
            r matches Some(v) ==> decodes_related_question(*j, v),
    {
        let question = match read_str(j, "question") {
            Some(x) => x,
            None => return None,
        };
        let answer = match read_str(j, "answer") {
            Some(x) => x,
            None => return None,
        };
        let source = match get_field(j, "source") {
            Some(x) => match RelatedQuestionSource::from_json(x) {
                Some(y) => y,
                None => return None,
            },
            None => return None,
        };
        let block_position = match read_usize(j, "block_position") {
            Some(x) => x,
            None => return None,
        };
        Some(RelatedQuestion { question, answer, source, block_position })
    }
}

/// Whether every element has the shape of RelatedQuestion.
pub open spec fn valid_related_question_list(js: Seq<Json>) -> bool {
    forall|i: int| 0 <= i < js.len() ==> valid_related_question(#[trigger] js[i])
}

/// Whether `vs` decodes `js` element by element.
pub open spec fn decodes_related_question_list(js: Seq<Json>, vs: Seq<RelatedQuestion>) -> bool {
    &&& js.len() == vs.len()
    &&& forall|i: int| 0 <= i < js.len() ==> decodes_related_question(#[trigger] js[i], vs[i])
}

fn decode_related_question_list(js: &Vec<Json>) -> (r: Option<Vec<RelatedQuestion>>)
    ensures
        r is Some == valid_related_question_list(js@),
        r matches Some(v) ==> decodes_related_question_list(js@, v@),
{
    let mut out: Vec<RelatedQuestion> = Vec::new();
    let mut i: usize = 0;
    while i < js.len()
        invariant
            i <= js@.len(),
            out@.len() == i,
            forall|k: int| 0 <= k < i ==> valid_related_question(#[trigger] js@[k]) && decodes_related_question(js@[k], out@[k]),
        decreases js@.len() - i,
    {
        match RelatedQuestion::from_json(&js[i]) {
            Some(x) => out.push(x),
            None => {
                proof {
                    assert(!valid_related_question(js@[i as int]));
                }
                return None;
            },
        }
        i = i + 1;
    }
    Some(out)
}

/// A related query.
pub struct RelatedSearch {
    /// The query text.
    pub query: String,
    /// The URL of its results.
    pub link: String,
}

/// Whether `j` has the shape of a RelatedSearch.
pub open spec fn valid_related_search(j: Json) -> bool {
    &&& str_at(j, "query"@) is Some
    &&& str_at(j, "link"@) is Some
}

/// Whether `v` holds exactly the fields of `j`.
pub open spec fn decodes_related_search(j: Json, v: RelatedSearch) -> bool {
    &&& str_at(j, "query"@) == Some(v.query)
    &&& str_at(j, "link"@) == Some(v.link)
}

impl RelatedSearch {
    /// Decodes RelatedSearch from a JSON value; `None` when the value does not have its shape.
    pub fn from_json(j: &Json) -> (r: Option<RelatedSearch>)
        ensures
            r is Some == valid_related_search(*j),
            r matches Some(v) ==> decodes_related_search(*j, v),
    {
        let query = match read_str(j, "query") {
            Some(x) => x,
            None => return None,
        };
        let link = match read_str(j, "link") {
            Some(x) => x,
            None => return None,
        };
        Some(RelatedSearch { query, link })
    }
}

/// Whether every element has the shape of RelatedSearch.
pub open spec fn valid_related_search_list(js: Seq<Json>) -> bool {
    forall|i: int| 0 <= i < js.len() ==> valid_related_search(#[trigger] js[i])
}

/// Whether `vs` decodes `js` element by element.
pub open spec fn decodes_related_search_list(js: Seq<Json>, vs: Seq<RelatedSearch>) -> bool {
    &&& js.len() == vs.len()
    &&& forall|i: int| 0 <= i < js.len() ==> decodes_related_search(#[trigger] js[i], vs[i])
}

fn decode_related_search_list(js: &Vec<Json>) -> (r: Option<Vec<RelatedSearch>>)
    ensures
        r is Some == valid_related_search_list(js@),
        r matches Some(v) ==> decodes_related_search_list(js@, v@),
{
    let mut out: Vec<RelatedSearch> = Vec::new();
    let mut i: usize = 0;
    while i < js.len()
        invariant
            i <= js@.len(),
            out@.len() == i,
            forall|k: int| 0 <= k < i ==> valid_related_search(#[trigger] js@[k]) && decodes_related_search(js@[k], out@[k]),
        decreases js@.len() - i,
    {
        match RelatedSearch::from_json(&js[i]) {
            Some(x) => out.push(x),
            None => {
                proof {
                    assert(!valid_related_search(js@[i as int]));
                }
                return None;
            },
        }
        i = i + 1;
    }
    Some(out)
}

/// A response of the search endpoint. The ads, top stories, top products and related questions are present only for some queries; `None` means the section was not sent.
pub struct Resp {
    /// Accounting facts.
    pub request_info: RequestInfo,
    /// How the search ran.
    pub search_metadata: SearchMetadata,
    /// The echoed parameters.
    pub search_parameters: SearchParameters,
    /// Summary facts.
    pub search_information: SearchInformation,
    /// The ads, when the query triggered any.
    pub ads: Option<Vec<Ad>>,
    /// The top stories, when there are any.
    pub top_stories: Option<Vec<TopStory>>,
    /// The top products, when there are any.
    pub top_products: Option<Vec<TopProduct>>,
    /// The related searches; always sent, possibly empty.
    pub related_searches: Vec<RelatedSearch>,
    /// The related questions, when there are any.
    pub related_questions: Option<Vec<RelatedQuestion>>,
    /// The unpaid results; always sent, possibly empty.
    pub organic_results: Vec<OrganicResult>,
}

/// Whether `j` has the shape of a Resp.
pub open spec fn valid_resp(j: Json) -> bool {
    &&& field(j, "request_info"@) is Some && valid_request_info(field(j, "request_info"@)->0)
    &&& field(j, "search_metadata"@) is Some && valid_search_metadata(field(j, "search_metadata"@)->0)
    &&& field(j, "search_parameters"@) is Some && valid_search_parameters(field(j, "search_parameters"@)->0)
    &&& field(j, "search_information"@) is Some && valid_search_information(field(j, "search_information"@)->0)
    &&& match opt_array_at(j, "ads"@) {
        Some(None) => true,
        Some(Some(js)) => valid_ad_list(js),
        None => false,
    }
    &&& match opt_array_at(j, "top_stories"@) {
        Some(None) => true,
        Some(Some(js)) => valid_top_story_list(js),
        None => false,
    }
    &&& match opt_array_at(j, "top_products"@) {
        Some(None) => true,
        Some(Some(js)) => valid_top_product_list(js),
        None => false,
    }
    &&& array_at(j, "related_searches"@) is Some && valid_related_search_list(array_at(j, "related_searches"@)->0)
    &&& match opt_array_at(j, "related_questions"@) {
        Some(None) => true,
        Some(Some(js)) => valid_related_question_list(js),
        None => false,
    }
    &&& array_at(j, "organic_results"@) is Some && valid_organic_result_list(array_at(j, "organic_results"@)->0)
}

/// Whether `v` holds exactly the fields of `j`.
pub open spec fn decodes_resp(j: Json, v: Resp) -> bool {
    &&& field(j, "request_info"@) is Some && decodes_request_info(field(j, "request_info"@)->0, v.request_info)
    &&& field(j, "search_metadata"@) is Some && decodes_search_metadata(field(j, "search_metadata"@)->0, v.search_metadata)
    &&& field(j, "search_parameters"@) is Some && decodes_search_parameters(field(j, "search_parameters"@)->0, v.search_parameters)
    &&& field(j, "search_information"@) is Some && decodes_search_information(field(j, "search_information"@)->0, v.search_information)
    &&& match opt_array_at(j, "ads"@) {
        Some(None) => v.ads is None,
        Some(Some(js)) => v.ads is Some && decodes_ad_list(js, v.ads->0@),
        None => false,
    }
    &&& match opt_array_at(j, "top_stories"@) {
        Some(None) => v.top_stories is None,
        Some(Some(js)) => v.top_stories is Some && decodes_top_story_list(js, v.top_stories->0@),
        None => false,
    }
    &&& match opt_array_at(j, "top_products"@) {
        Some(None) => v.top_products is None,
        Some(Some(js)) => v.top_products is Some && decodes_top_product_list(js, v.top_products->0@),
        None => false,
    }
    &&& array_at(j, "related_searches"@) is Some && decodes_related_search_list(array_at(j, "related_searches"@)->0, v.related_searches@)
    &&& match opt_array_at(j, "related_questions"@) {
        Some(None) => v.related_questions is None,
        Some(Some(js)) => v.related_questions is Some && decodes_related_question_list(js, v.related_questions->0@),
        None => false,
    }
    &&& array_at(j, "organic_results"@) is Some && decodes_organic_result_list(array_at(j, "organic_results"@)->0, v.organic_results@)
}

impl Resp {
    /// Decodes Resp from a JSON value; `None` when the value does not have its shape.
    pub fn from_json(j: &Json) -> (r: Option<Resp>)
        ensures
            r is Some == valid_resp(*j),
            r matches Some(v) ==> decodes_resp(*j, v),
    {
        let request_info = match get_field(j, "request_info") {
            Some(x) => match RequestInfo::from_json(x) {
                Some(y) => y,
                None => return None,
            },
            None => return None,
        };
        let search_metadata = match get_field(j, "search_metadata") {
            Some(x) => match SearchMetadata::from_json(x) {
                Some(y) => y,
                None => return None,
            },
            None => return None,
        };
        let search_parameters = match get_field(j, "search_parameters") {
            Some(x) => match SearchParameters::from_json(x) {
                Some(y) => y,
                None => return None,
            },
            None => return None,
        };
        let search_information = match get_field(j, "search_information") {
            Some(x) => match SearchInformation::from_json(x) {
                Some(y) => y,
                None => return None,
            },
            None => return None,
        };
        let ads = if is_absent(j, "ads") {
            None
        } else {
            match read_array(j, "ads") {
                Some(a) => match decode_ad_list(a) {
                    Some(y) => Some(y),
                    None => return None,
                },
                None => return None,
            }
        };
        let top_stories = if is_absent(j, "top_stories") {
            None
        } else {
            match read_array(j, "top_stories") {
                Some(a) => match decode_top_story_list(a) {
                    Some(y) => Some(y),
                    None => return None,
                },
                None => return None,
            }
        };
        let top_products = if is_absent(j, "top_products") {
            None
        } else {
            match read_array(j, "top_products") {
                Some(a) => match decode_top_product_list(a) {
                    Some(y) => Some(y),
                    None => return None,
                },
                None => return None,
            }
        };
        let related_searches = match read_array(j, "related_searches") {
            Some(a) => match decode_related_search_list(a) {
                Some(y) => y,
                None => return None,
            },
            None => return None,
        };
        let related_questions = if is_absent(j, "related_questions") {
            None
        } else {
            match read_array(j, "related_questions") {
                Some(a) => match decode_related_question_list(a) {
                    Some(y) => Some(y),
                    None => return None,
                },
                None => return None,
            }
        };
        let organic_results = match read_array(j, "organic_results") {
            Some(a) => match decode_organic_result_list(a) {
                Some(y) => y,
                None => return None,
            },
            None => return None,
        };
        Some(Resp { request_info, search_metadata, search_parameters, search_information, ads, top_stories, top_products, related_searches, related_questions, organic_results })
    }
}

impl Resp {
    /// Decodes a response body of the search endpoint.
    pub fn decode(text: &str) -> (r: Result<Resp, DecodeError>)
        ensures
            match json_of_text(text@) {
                None => r == Err::<Resp, DecodeError>(DecodeError::InvalidJson),
                Some(j) => if valid_resp(j) {
                    r matches Ok(v) && decodes_resp(j, v)
                } else {
                    r == Err::<Resp, DecodeError>(DecodeError::SchemaViolation)
                },
            },
    {
        match parse_json(text) {
            None => Err(DecodeError::InvalidJson),
            Some(j) => match Resp::from_json(&j) {
                Some(v) => Ok(v),
                None => Err(DecodeError::SchemaViolation),
            },
        }
    }
}

/// The sections of a search response that are always sent: present, of the
/// right shape, with `related_searches` and `organic_results` arrays that may
/// be empty.
pub open spec fn required_sections_valid(j: Json) -> bool {
    &&& field(j, "request_info"@) is Some && valid_request_info(field(j, "request_info"@)->0)
    &&& field(j, "search_metadata"@) is Some && valid_search_metadata(field(j, "search_metadata"@)->0)
    &&& field(j, "search_parameters"@) is Some && valid_search_parameters(field(j, "search_parameters"@)->0)
    &&& field(j, "search_information"@) is Some && valid_search_information(field(j, "search_information"@)->0)
    &&& array_at(j, "related_searches"@) is Some && valid_related_search_list(array_at(j, "related_searches"@)->0)
    &&& array_at(j, "organic_results"@) is Some && valid_organic_result_list(array_at(j, "organic_results"@)->0)
}

/// A body without `ads`, `top_stories`, `top_products` and `related_questions`
/// decodes exactly when its required sections do, and then each of the four
/// reads as absent.
pub proof fn law_optional_sections_absent(j: Json, v: Resp)
    requires
        field(j, "ads"@) is None,
        field(j, "top_stories"@) is None,
        field(j, "top_products"@) is None,
        field(j, "related_questions"@) is None,
    ensures
        valid_resp(j) == required_sections_valid(j),
        decodes_resp(j, v) ==> v.ads is None && v.top_stories is None && v.top_products is None
            && v.related_questions is None,
{
}

/// A body without `related_searches` or without `organic_results` never decodes,
/// whatever else it holds; empty arrays there are accepted.
pub proof fn law_required_collections(j: Json)
    ensures
        field(j, "related_searches"@) is None ==> !valid_resp(j),
        field(j, "organic_results"@) is None ==> !valid_resp(j),
        array_at(j, "related_searches"@) == Some(Seq::<Json>::empty()) ==> valid_related_search_list(
            array_at(j, "related_searches"@)->0,
        ),
        array_at(j, "organic_results"@) == Some(Seq::<Json>::empty()) ==> valid_organic_result_list(
            array_at(j, "organic_results"@)->0,
        ),
{
}

/// A body whose `request_info` lacks `success` never decodes: `Resp::decode`
/// reports a schema violation for it.
pub proof fn law_missing_success(j: Json)
    requires
        field(j, "request_info"@) is Some,
        field(field(j, "request_info"@)->0, "success"@) is None,
    ensures
        !valid_resp(j),
{
}

} // verus!

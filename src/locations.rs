//! The locations endpoint: its request configuration and the shape of its response.
use vstd::prelude::*;
use crate::json::{
    array_at, bool_at, field, get_field, i32_at, json_of_text, number_at, parse_json, read_array, read_bool,
    read_i32, read_number, read_str, read_u32, str_at, u32_at, DecodeError, Json, JsonNumber,
};
use crate::query::{encode_query, encode_text, join_amp, piece, present_pieces, QueryParam};

verus! {

/// The configuration of a request to the locations endpoint.
pub struct LocReqConfig {
    /// The account's API key.
    pub api_key: String,
    /// The query text, such as a city name.
    pub q: String,
    /// A filter on the kind of location, such as "city".
    pub location_type: Option<String>,
    /// A filter on the country, such as "us".
    pub country_code: Option<String>,
}

/// `&name=value` for an optional parameter that is set, nothing when it is not.
pub open spec fn optional_part(name: Seq<char>, value: Option<String>) -> Seq<char> {
    match value {
        Some(v) => seq!['&'] + piece(name, v@),
        None => Seq::empty(),
    }
}

/// The URL of a locations request.
pub open spec fn locations_url(
    api_key: Seq<char>,
    q: Seq<char>,
    location_type: Option<String>,
    country_code: Option<String>,
) -> Seq<char> {
    "https://api.scaleserp.com/locations?api_key="@ + encode_text(api_key) + "&q="@ + encode_text(q)
        + optional_part("type"@, location_type) + optional_part("country_code"@, country_code)
}

impl LocReqConfig {
    /// A configuration with the given key and query and no filters.
    pub fn new(api_key: &str, q: &str) -> (r: LocReqConfig)
        ensures
            r.api_key@ == api_key@,
            r.q@ == q@,
            r.location_type is None,
            r.country_code is None,
    {
        LocReqConfig { api_key: api_key.to_owned(), q: q.to_owned(), location_type: None, country_code: None }
    }

    /// The same configuration, filtered to locations of the given kind.
    pub fn with_type(self, location_type: &str) -> (r: LocReqConfig)
        ensures
            r.api_key == self.api_key,
            r.q == self.q,
            r.location_type matches Some(t) && t@ == location_type@,
            r.country_code == self.country_code,
    {
        LocReqConfig { location_type: Some(location_type.to_owned()), ..self }
    }

    /// The same configuration, filtered to locations in the given country.
    pub fn with_country_code(self, country_code: &str) -> (r: LocReqConfig)
        ensures
            r.api_key == self.api_key,
            r.q == self.q,
            r.location_type == self.location_type,
            r.country_code matches Some(c) && c@ == country_code@,
    {
        LocReqConfig { country_code: Some(country_code.to_owned()), ..self }
    }

    /// The URL that performs this request; unset filters are left out.
    #[verifier::rlimit(40)]
    pub fn to_url(&self) -> (r: String)
        ensures
            r@ == locations_url(self.api_key@, self.q@, self.location_type, self.country_code),
    {
        let mut ps: Vec<QueryParam> = Vec::new();
        ps.push(QueryParam { name: "api_key".to_owned(), value: Some(self.api_key.clone()) });
        ps.push(QueryParam { name: "q".to_owned(), value: Some(self.q.clone()) });
        ps.push(QueryParam { name: "type".to_owned(), value: clone_opt(&self.location_type) });
        ps.push(QueryParam { name: "country_code".to_owned(), value: clone_opt(&self.country_code) });
        let r = encode_query("https://api.scaleserp.com/locations", &ps);
        proof {
            reveal_strlit("https://api.scaleserp.com/locations");
            reveal_strlit("https://api.scaleserp.com/locations?api_key=");
            reveal_strlit("&q=");
            reveal_strlit("api_key");
            reveal_strlit("q");
            let s = ps@;
            let s3 = s.drop_last();
            let s2 = s3.drop_last();
            let s1 = s2.drop_last();
            assert(s1.drop_last().len() == 0);
            assert(present_pieces(s1.drop_last()) =~= Seq::<Seq<char>>::empty());
            assert(s1.last() == s[0] && s2.last() == s[1] && s3.last() == s[2] && s.last() == s[3]);
            let a = piece("api_key"@, self.api_key@);
            let b = piece("q"@, self.q@);
            assert(present_pieces(s1) =~= seq![a]);
            assert(present_pieces(s2) =~= seq![a, b]);
            assert(seq![a, b].drop_last() =~= seq![a]);
            assert(join_amp(seq![a]) == a);
            let j2 = a + seq!['&'] + b;
            assert(join_amp(seq![a, b]) =~= j2);
            let p3 = present_pieces(s3);
            assert(join_amp(p3) =~= j2 + optional_part("type"@, self.location_type)) by {
                if self.location_type is Some {
                    assert(p3.drop_last() == seq![a, b]);
                }
            }
            assert(p3.len() >= 2);
            let p4 = present_pieces(s);
            assert(join_amp(p4) =~= j2 + optional_part("type"@, self.location_type)
                + optional_part("country_code"@, self.country_code)) by {
                if self.country_code is Some {
                    assert(p4.drop_last() == p3);
                }
            }
            assert(r@ =~= locations_url(self.api_key@, self.q@, self.location_type, self.country_code));
        }
        r
    }
}

/// Whether the request succeeded.
pub struct RequestInfo {
    /// Whether the request succeeded.
    pub success: bool,
}

/// Whether `j` has the shape of a RequestInfo.
pub open spec fn valid_location_request_info(j: Json) -> bool {
    &&& bool_at(j, "success"@) is Some
}

/// Whether `v` holds exactly the fields of `j`.
pub open spec fn decodes_location_request_info(j: Json, v: RequestInfo) -> bool {
    &&& bool_at(j, "success"@) == Some(v.success)
}

impl RequestInfo {
    /// Decodes RequestInfo from a JSON value; `None` when the value does not have its shape.
    pub fn from_json(j: &Json) -> (r: Option<RequestInfo>)
        ensures
            r is Some == valid_location_request_info(*j),
            r matches Some(v) ==> decodes_location_request_info(*j, v),
    {
        let success = match read_bool(j, "success") {
            Some(x) => x,
            None => return None,
        };
        Some(RequestInfo { success })
    }
}

/// Where a location lies.
pub struct GpsCoordinates {
    /// Degrees north.
    pub latitude: JsonNumber,
    /// Degrees east.
    pub longitude: JsonNumber,
}

/// Whether `j` has the shape of a GpsCoordinates.
pub open spec fn valid_gps_coordinates(j: Json) -> bool {
    &&& number_at(j, "latitude"@) is Some
    &&& number_at(j, "longitude"@) is Some
}

/// Whether `v` holds exactly the fields of `j`.
pub open spec fn decodes_gps_coordinates(j: Json, v: GpsCoordinates) -> bool {
    &&& number_at(j, "latitude"@) == Some(v.latitude)
    &&& number_at(j, "longitude"@) == Some(v.longitude)
}

impl GpsCoordinates {
    /// Decodes GpsCoordinates from a JSON value; `None` when the value does not have its shape.
    pub fn from_json(j: &Json) -> (r: Option<GpsCoordinates>)
        ensures
            r is Some == valid_gps_coordinates(*j),
            r matches Some(v) ==> decodes_gps_coordinates(*j, v),
    {
        let latitude = match read_number(j, "latitude") {
            Some(x) => x,
            None => return None,
        };
        let longitude = match read_number(j, "longitude") {
            Some(x) => x,
            None => return None,
        };
        Some(GpsCoordinates { latitude, longitude })
    }
}

/// A location that searches can be made from.
pub struct Location {
    /// The location's id.
    pub id: i32,
    /// Its short name.
    pub name: String,
    /// Its kind, such as "city".
    pub location_type: String,
    /// Its full name, such as "Chicago,Illinois,United States".
    pub full_name: String,
    /// The id of the location that contains it.
    pub parent_id: i32,
    /// Its country, such as "us".
    pub country_code: String,
    /// How many people it reaches.
    pub reach: u32,
    /// Where it lies.
    pub gps_coordinates: GpsCoordinates,
}

/// Whether `j` has the shape of a Location.
pub open spec fn valid_location(j: Json) -> bool {
    &&& i32_at(j, "id"@) is Some
    &&& str_at(j, "name"@) is Some
    &&& str_at(j, "type"@) is Some
    &&& str_at(j, "full_name"@) is Some
    &&& i32_at(j, "parent_id"@) is Some
    &&& str_at(j, "country_code"@) is Some
    &&& u32_at(j, "reach"@) is Some
    &&& field(j, "gps_coordinates"@) is Some && valid_gps_coordinates(field(j, "gps_coordinates"@)->0)
}

/// Whether `v` holds exactly the fields of `j`.
pub open spec fn decodes_location(j: Json, v: Location) -> bool {
    &&& i32_at(j, "id"@) == Some(v.id)
    &&& str_at(j, "name"@) == Some(v.name)
    &&& str_at(j, "type"@) == Some(v.location_type)
    &&& str_at(j, "full_name"@) == Some(v.full_name)
    &&& i32_at(j, "parent_id"@) == Some(v.parent_id)
    &&& str_at(j, "country_code"@) == Some(v.country_code)
    &&& u32_at(j, "reach"@) == Some(v.reach)
    &&& field(j, "gps_coordinates"@) is Some && decodes_gps_coordinates(field(j, "gps_coordinates"@)->0, v.gps_coordinates)
}

impl Location {
    /// Decodes Location from a JSON value; `None` when the value does not have its shape.
    pub fn from_json(j: &Json) -> (r: Option<Location>)
        ensures
            r is Some == valid_location(*j),
            r matches Some(v) ==> decodes_location(*j, v),
    {
        let id = match read_i32(j, "id") {
            Some(x) => x,
            None => return None,
        };
        let name = match read_str(j, "name") {
            Some(x) => x,
            None => return None,
        };
        let location_type = match read_str(j, "type") {
            Some(x) => x,
            None => return None,
        };
        let full_name = match read_str(j, "full_name") {
            Some(x) => x,
            None => return None,
        };
        let parent_id = match read_i32(j, "parent_id") {
            Some(x) => x,
            None => return None,
        };
        let country_code = match read_str(j, "country_code") {
            Some(x) => x,
            None => return None,
        };
        let reach = match read_u32(j, "reach") {
            Some(x) => x,
            None => return None,
        };
        let gps_coordinates = match get_field(j, "gps_coordinates") {
            Some(x) => match GpsCoordinates::from_json(x) {
                Some(y) => y,
                None => return None,
            },
            None => return None,
        };
        Some(Location { id, name, location_type, full_name, parent_id, country_code, reach, gps_coordinates })
    }
}

/// Whether every element has the shape of Location.
pub open spec fn valid_location_list(js: Seq<Json>) -> bool {
    forall|i: int| 0 <= i < js.len() ==> valid_location(#[trigger] js[i])
}

/// Whether `vs` decodes `js` element by element.
pub open spec fn decodes_location_list(js: Seq<Json>, vs: Seq<Location>) -> bool {
    &&& js.len() == vs.len()
    &&& forall|i: int| 0 <= i < js.len() ==> decodes_location(#[trigger] js[i], vs[i])
}

fn decode_location_list(js: &Vec<Json>) -> (r: Option<Vec<Location>>)
    ensures
        r is Some == valid_location_list(js@),
        r matches Some(v) ==> decodes_location_list(js@, v@),
{
    let mut out: Vec<Location> = Vec::new();
    let mut i: usize = 0;
    while i < js.len()
        invariant
            i <= js@.len(),
            out@.len() == i,
            forall|k: int| 0 <= k < i ==> valid_location(#[trigger] js@[k]) && decodes_location(js@[k], out@[k]),
        decreases js@.len() - i,
    {
        match Location::from_json(&js[i]) {
            Some(x) => out.push(x),
            None => {
                proof {
                    assert(!valid_location(js@[i as int]));
                }
                return None;
            },
        }
        i = i + 1;
    }
    Some(out)
}

/// A response of the locations endpoint. Every field is required.
pub struct LocationResp {
    /// Whether the request succeeded.
    pub request_info: RequestInfo,
    /// How many locations matched.
    pub locations_total: i32,
    /// How many are on this page.
    pub locations_total_current_page: i32,
    /// The page number.
    pub page: i32,
    /// The page size.
    pub limit: i32,
    /// The locations on this page.
    pub locations: Vec<Location>,
}

/// Whether `j` has the shape of a LocationResp.
pub open spec fn valid_location_resp(j: Json) -> bool {
    &&& field(j, "request_info"@) is Some && valid_location_request_info(field(j, "request_info"@)->0)
    &&& i32_at(j, "locations_total"@) is Some
    &&& i32_at(j, "locations_total_current_page"@) is Some
    &&& i32_at(j, "page"@) is Some
    &&& i32_at(j, "limit"@) is Some
    &&& array_at(j, "locations"@) is Some && valid_location_list(array_at(j, "locations"@)->0)
}

/// Whether `v` holds exactly the fields of `j`.
pub open spec fn decodes_location_resp(j: Json, v: LocationResp) -> bool {
    &&& field(j, "request_info"@) is Some && decodes_location_request_info(field(j, "request_info"@)->0, v.request_info)
    &&& i32_at(j, "locations_total"@) == Some(v.locations_total)
    &&& i32_at(j, "locations_total_current_page"@) == Some(v.locations_total_current_page)
    &&& i32_at(j, "page"@) == Some(v.page)
    &&& i32_at(j, "limit"@) == Some(v.limit)
    &&& array_at(j, "locations"@) is Some && decodes_location_list(array_at(j, "locations"@)->0, v.locations@)
}

impl LocationResp {
    /// Decodes LocationResp from a JSON value; `None` when the value does not have its shape.
    pub fn from_json(j: &Json) -> (r: Option<LocationResp>)
        ensures
            r is Some == valid_location_resp(*j),
            r matches Some(v) ==> decodes_location_resp(*j, v),
    {
        let request_info = match get_field(j, "request_info") {
            Some(x) => match RequestInfo::from_json(x) {
                Some(y) => y,
                None => return None,
            },
            None => return None,
        };
        let locations_total = match read_i32(j, "locations_total") {
            Some(x) => x,
            None => return None,
        };
        let locations_total_current_page = match read_i32(j, "locations_total_current_page") {
            Some(x) => x,
            None => return None,
        };
        let page = match read_i32(j, "page") {
            Some(x) => x,
            None => return None,
        };
        let limit = match read_i32(j, "limit") {
            Some(x) => x,
            None => return None,
        };
        let locations = match read_array(j, "locations") {
            Some(a) => match decode_location_list(a) {
                Some(y) => y,
                None => return None,
            },
            None => return None,
        };
        Some(LocationResp { request_info, locations_total, locations_total_current_page, page, limit, locations })
    }
}

impl LocationResp {
    /// Decodes a response body of the locations endpoint.
    pub fn decode(text: &str) -> (r: Result<LocationResp, DecodeError>)
        ensures
            match json_of_text(text@) {
                None => r == Err::<LocationResp, DecodeError>(DecodeError::InvalidJson),
                Some(j) => if valid_location_resp(j) {
                    r matches Ok(v) && decodes_location_resp(j, v)
                } else {
                    r == Err::<LocationResp, DecodeError>(DecodeError::SchemaViolation)
                },
            },
    {
        match parse_json(text) {
            None => Err(DecodeError::InvalidJson),
            Some(j) => match LocationResp::from_json(&j) {
                Some(v) => Ok(v),
                None => Err(DecodeError::SchemaViolation),
            },
        }
    }
}

fn clone_opt(v: &Option<String>) -> (r: Option<String>)
    ensures
        r == *v,
{
    match v {
        Some(s) => Some(s.clone()),
        None => None,
    }
}

} // verus!

use scale_serp::heritage::Resp;
use scale_serp::json::{DecodeError, JsonNumber};
use scale_serp::locations::LocationResp;

const REQUEST_INFO: &str = r#""request_info": {"success": true, "credits_used": 12, "credits_used_this_request": 1, "credits_remaining": 88, "credits_reset_at": "2021-07-31T01:00:37.000Z"}"#;
const METADATA: &str = r#""search_metadata": {"created_at": "2021-07-01T00:00:00.000Z", "processed_at": "2021-07-01T00:00:01.000Z", "total_time_taken": 1.25, "engine_url": "https://www.google.com/search?q=x", "html_url": "https://api/html", "json_url": "https://api/json"}"#;
const PARAMETERS: &str = r#""search_parameters": {"location": "United States", "q": "anionic surfactants"}"#;
const INFORMATION: &str = r#""search_information": {"original_query_yields_zero_results": false, "total_results": 1000, "time_taken_displayed": 0.5, "query_displayed": "anionic surfactants", "detected_location": null}"#;

fn body(extra: &[&str]) -> String {
    let mut parts = vec![REQUEST_INFO, METADATA, PARAMETERS, INFORMATION];
    parts.extend_from_slice(extra);
    format!("{{{}}}", parts.join(", "))
}

#[test]
fn minimal_search_response() {
    let text = body(&[r#""related_searches": []"#, r#""organic_results": []"#]);
    let r = Resp::decode(&text).unwrap();
    assert!(r.ads.is_none());
    assert!(r.top_stories.is_none());
    assert!(r.top_products.is_none());
    assert!(r.related_questions.is_none());
    assert!(r.related_searches.is_empty());
    assert!(r.organic_results.is_empty());
    assert!(r.search_metadata.location_auto_message.is_none());
    assert!(r.search_information.detected_location.is_none());
    assert!(r.request_info.success);
    assert_eq!(r.request_info.credits_used, 12);
    assert_eq!(r.request_info.credits_remaining, 88);
    assert_eq!(r.request_info.credits_reset_at, "2021-07-31T01:00:37.000Z");
    assert_eq!(r.search_parameters.q, "anionic surfactants");
    assert_eq!(r.search_information.total_results, 1000);
    assert!(matches!(r.search_metadata.total_time_taken, JsonNumber::Float(ref t) if t == "1.25"));
}

#[test]
fn optional_sections_null() {
    let text = body(&[
        r#""ads": null"#,
        r#""top_stories": null"#,
        r#""related_searches": []"#,
        r#""organic_results": []"#,
    ]);
    let r = Resp::decode(&text).unwrap();
    assert!(r.ads.is_none());
    assert!(r.top_stories.is_none());
}

#[test]
fn optional_section_present_but_empty() {
    let text = body(&[r#""ads": []"#, r#""related_searches": []"#, r#""organic_results": []"#]);
    let r = Resp::decode(&text).unwrap();
    assert_eq!(r.ads.unwrap().len(), 0);
}

#[test]
fn missing_related_searches_fails() {
    let text = body(&[r#""organic_results": []"#]);
    assert_eq!(Resp::decode(&text).err(), Some(DecodeError::SchemaViolation));
}

#[test]
fn missing_organic_results_fails() {
    let text = body(&[r#""related_searches": []"#]);
    assert_eq!(Resp::decode(&text).err(), Some(DecodeError::SchemaViolation));
}

#[test]
fn missing_success_fails() {
    let text = format!(
        "{{{}, {}, {}, {}, {}}}",
        r#""request_info": {"credits_used": 12, "credits_used_this_request": 1, "credits_remaining": 88, "credits_reset_at": "x"}"#,
        METADATA,
        PARAMETERS,
        INFORMATION,
        r#""related_searches": [], "organic_results": []"#
    );
    assert_eq!(Resp::decode(&text).err(), Some(DecodeError::SchemaViolation));
}

#[test]
fn wrong_type_fails() {
    let text = body(&[r#""related_searches": {}"#, r#""organic_results": []"#]);
    assert_eq!(Resp::decode(&text).err(), Some(DecodeError::SchemaViolation));
    let text = body(&[r#""ads": "none""#, r#""related_searches": []"#, r#""organic_results": []"#]);
    assert_eq!(Resp::decode(&text).err(), Some(DecodeError::SchemaViolation));
}

#[test]
fn negative_count_fails() {
    let text = body(&[
        r#""related_searches": []"#,
        r#""organic_results": [{"position": -1, "title": "t", "link": "l", "domain": "d", "displayed_link": "dl", "snippet": "s", "prerender": false, "block_position": 2}]"#,
    ]);
    assert_eq!(Resp::decode(&text).err(), Some(DecodeError::SchemaViolation));
}

#[test]
fn invalid_json_fails() {
    assert_eq!(Resp::decode("{not json").err(), Some(DecodeError::InvalidJson));
    assert_eq!(Resp::decode("").err(), Some(DecodeError::InvalidJson));
}

#[test]
fn not_an_object_fails() {
    assert_eq!(Resp::decode("[1, 2]").err(), Some(DecodeError::SchemaViolation));
}

#[test]
fn full_search_response() {
    let text = body(&[
        r#""ads": [{"position": 1, "block_position": "top", "title": "Buy", "link": "https://a", "domain": "a.com", "displayed_link": "a.com", "description": "d", "sitelinks": [{"title": "s1", "link": "https://a/1"}]}, {"position": 2, "block_position": "bottom", "title": "B2", "link": "https://b", "domain": "b.com", "displayed_link": "b.com", "description": "d2"}]"#,
        r#""top_stories": [{"link": "https://n", "title": "News", "visible_initially": true, "source": "Paper", "date": "1 hour ago", "date_utc": "2021-07-01T00:00:00.000Z", "block_position": 1}]"#,
        r#""top_products": [{"title": "SSD", "price": "$99", "rating": 4, "sources": [{"name": "Shop", "link": "https://s", "title": "SSD at Shop"}], "specifications": [{"name": "Size", "value": "1TB"}], "block_position": 3}]"#,
        r#""related_searches": [{"query": "ssd deals", "link": "https://r"}]"#,
        r#""related_questions": [{"question": "What?", "answer": "That.", "source": {"link": "https://q", "displayed_link": "q.com", "title": "Q"}, "block_position": 4}]"#,
        r#""organic_results": [{"position": 1, "title": "T", "link": "https://o", "domain": "o.com", "displayed_link": "o.com", "snippet": "S", "prerender": false, "snippet_matched": ["ssd", "external"], "block_position": 5, "extra_field": 7}]"#,
        r#""pagination": {"current": 1}"#,
    ]);
    let r = Resp::decode(&text).unwrap();
    let ads = r.ads.unwrap();
    assert_eq!(ads.len(), 2);
    assert_eq!(ads[0].position, 1);
    assert_eq!(ads[0].block_position, "top");
    let links = ads[0].sitelinks.as_ref().unwrap();
    assert_eq!(links.len(), 1);
    assert_eq!(links[0].link, "https://a/1");
    assert!(ads[1].sitelinks.is_none());
    let stories = r.top_stories.unwrap();
    assert!(stories[0].visible_initially);
    assert_eq!(stories[0].source, "Paper");
    let products = r.top_products.unwrap();
    assert!(matches!(products[0].rating, JsonNumber::PosInt(4)));
    assert_eq!(products[0].sources[0].name, "Shop");
    assert_eq!(products[0].specifications[0].value, "1TB");
    assert_eq!(products[0].block_position, 3);
    assert_eq!(r.related_searches[0].query, "ssd deals");
    let questions = r.related_questions.unwrap();
    assert_eq!(questions[0].source.displayed_link, "q.com");
    assert_eq!(r.organic_results[0].snippet_matched, Some(vec!["ssd".to_string(), "external".to_string()]));
    assert_eq!(r.organic_results[0].block_position, 5);
}

#[test]
fn bad_nested_element_fails() {
    let text = body(&[
        r#""ads": [{"position": 1, "block_position": "top", "title": "Buy", "link": "https://a", "domain": "a.com", "displayed_link": "a.com", "description": "d", "sitelinks": [{"title": "s1"}]}]"#,
        r#""related_searches": []"#,
        r#""organic_results": []"#,
    ]);
    assert_eq!(Resp::decode(&text).err(), Some(DecodeError::SchemaViolation));
}

#[test]
fn numbers_keep_their_kind() {
    let text = r#"{"request_info": {"success": false}, "locations_total": 0, "locations_total_current_page": 0, "page": 1, "limit": 10, "locations": [{"id": -7, "name": "X", "type": "region", "full_name": "X", "parent_id": -1, "country_code": "ZZ", "reach": 0, "gps_coordinates": {"latitude": -3, "longitude": 2.5e1}}]}"#;
    let r = LocationResp::decode(text).unwrap();
    assert!(!r.request_info.success);
    let l = &r.locations[0];
    assert_eq!(l.id, -7);
    assert_eq!(l.parent_id, -1);
    assert!(matches!(l.gps_coordinates.latitude, JsonNumber::NegInt(-3)));
    assert!(matches!(l.gps_coordinates.longitude, JsonNumber::Float(ref t) if t == "25.0"));
}

const LOCATION: &str = r#"{"id": 1014221, "name": "Chicago", "type": "city", "full_name": "Chicago,Illinois,United States", "parent_id": 21137, "country_code": "US", "reach": 21900000, "gps_coordinates": {"latitude": 41.878113, "longitude": -87.6298}}"#;

#[test]
fn location_response() {
    let text = format!(
        r#"{{"request_info": {{"success": true}}, "locations_total": 1, "locations_total_current_page": 1, "page": 1, "limit": 10, "locations": [{}]}}"#,
        LOCATION
    );
    let r = LocationResp::decode(&text).unwrap();
    assert!(r.request_info.success);
    assert_eq!(r.locations_total, 1);
    assert_eq!(r.limit, 10);
    assert_eq!(r.locations.len(), 1);
    let l = &r.locations[0];
    assert_eq!(l.id, 1014221);
    assert_eq!(l.location_type, "city");
    assert_eq!(l.full_name, "Chicago,Illinois,United States");
    assert_eq!(l.parent_id, 21137);
    assert_eq!(l.reach, 21900000);
    assert!(matches!(l.gps_coordinates.longitude, JsonNumber::Float(ref t) if t == "-87.6298"));
}

#[test]
fn location_response_missing_field_fails() {
    let text = r#"{"request_info": {"success": true}, "locations_total": 0, "locations_total_current_page": 0, "page": 1, "locations": []}"#;
    assert_eq!(LocationResp::decode(text).err(), Some(DecodeError::SchemaViolation));
}

#[test]
fn location_response_out_of_range_fails() {
    let text = r#"{"request_info": {"success": true}, "locations_total": 3000000000, "locations_total_current_page": 0, "page": 1, "limit": 10, "locations": []}"#;
    assert_eq!(LocationResp::decode(text).err(), Some(DecodeError::SchemaViolation));
    assert_eq!(LocationResp::decode("{").err(), Some(DecodeError::InvalidJson));
}

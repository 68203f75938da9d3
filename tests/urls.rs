use scale_serp::heritage::Params;
use scale_serp::locations::LocReqConfig;
use scale_serp::query::{encode_query, percent_encode, QueryParam};

fn param(name: &str, value: Option<&str>) -> QueryParam {
    QueryParam { name: name.to_string(), value: value.map(|v| v.to_string()) }
}

#[test]
fn search_url_example() {
    let p = Params::new("K", "New York,New York,United States", "anionic surfactants");
    assert_eq!(
        p.to_url(),
        "https://api.scaleserp.com/search?api_key=K&location=New%20York%2CNew%20York%2CUnited%20States&q=anionic%20surfactants"
    );
}

#[test]
fn nyc_preset() {
    let p = Params::new_env_nyc("K", "anionic surfactants");
    assert_eq!(p.api_key, "K");
    assert_eq!(p.location, "New York,New York,United States");
    assert_eq!(p.q, "anionic surfactants");
    assert_eq!(
        p.to_url(),
        "https://api.scaleserp.com/search?api_key=K&location=New%20York%2CNew%20York%2CUnited%20States&q=anionic%20surfactants"
    );
}

#[test]
fn usa_preset() {
    let p = Params::new_env_usa("", "external ssd");
    assert_eq!(p.api_key, "");
    assert_eq!(p.location, "United States");
    assert_eq!(
        p.to_url(),
        "https://api.scaleserp.com/search?api_key=&location=United%20States&q=external%20ssd"
    );
}

#[test]
fn search_url_escapes_delimiters() {
    let p = Params::new("K", "Chicago,Illinois,United+States", "salt & pepper #1");
    assert_eq!(
        p.to_url(),
        "https://api.scaleserp.com/search?api_key=K&location=Chicago%2CIllinois%2CUnited%2BStates&q=salt%20%26%20pepper%20%231"
    );
}

#[test]
fn location_url_country_only() {
    let mut c = LocReqConfig::new("K", "Chicago");
    c.country_code = Some("us".to_string());
    assert_eq!(c.to_url(), "https://api.scaleserp.com/locations?api_key=K&q=Chicago&country_code=us");
}

#[test]
fn location_url_no_filters() {
    let c = LocReqConfig::new("K", "Chicago");
    assert!(c.location_type.is_none());
    assert!(c.country_code.is_none());
    assert_eq!(c.to_url(), "https://api.scaleserp.com/locations?api_key=K&q=Chicago");
}

#[test]
fn location_url_both_filters() {
    let mut c = LocReqConfig::new("K", "New York");
    c.location_type = Some("city".to_string());
    c.country_code = Some("us".to_string());
    assert_eq!(
        c.to_url(),
        "https://api.scaleserp.com/locations?api_key=K&q=New%20York&type=city&country_code=us"
    );
}

#[test]
fn location_url_type_only() {
    let mut c = LocReqConfig::new("K", "Paris");
    c.location_type = Some("city".to_string());
    assert_eq!(c.to_url(), "https://api.scaleserp.com/locations?api_key=K&q=Paris&type=city");
}

#[test]
fn percent_encode_values() {
    assert_eq!(percent_encode("abc-._~XYZ019"), "abc-._~XYZ019");
    assert_eq!(percent_encode("a b&c#d=e+f?"), "a%20b%26c%23d%3De%2Bf%3F");
    assert_eq!(percent_encode("café"), "caf%C3%A9");
    assert_eq!(percent_encode(""), "");
}

fn pct_decode(s: &str) -> String {
    let b = s.as_bytes();
    let mut out: Vec<u8> = Vec::new();
    let mut i = 0;
    while i < b.len() {
        if b[i] == b'%' && i + 2 < b.len() {
            let h = u8::from_str_radix(std::str::from_utf8(&b[i + 1..i + 3]).unwrap(), 16).unwrap();
            out.push(h);
            i += 3;
        } else {
            out.push(b[i]);
            i += 1;
        }
    }
    String::from_utf8(out).unwrap()
}

#[test]
fn percent_encode_round_trip() {
    for s in ["salt & pepper", "#hash tag", "ünïcødé text", "a=b&c=d", "100% real"] {
        let e = percent_encode(s);
        assert!(!e.contains('&') && !e.contains('#') && !e.contains(' ') && !e.contains('='));
        assert_eq!(pct_decode(&e), s);
    }
}

#[test]
fn query_skips_absent_parameters() {
    let ps = vec![param("a", Some("1")), param("b", None), param("c", Some("x y"))];
    assert_eq!(encode_query("https://h/p", &ps), "https://h/p?a=1&c=x%20y");
}

#[test]
fn query_first_absent() {
    let ps = vec![param("a", None), param("b", Some("2")), param("c", None)];
    assert_eq!(encode_query("https://h/p", &ps), "https://h/p?b=2");
}

#[test]
fn query_all_absent() {
    let ps = vec![param("a", None), param("b", None)];
    assert_eq!(encode_query("https://h/p", &ps), "https://h/p?");
    assert_eq!(encode_query("https://h/p", &Vec::new()), "https://h/p?");
}

#[test]
fn query_empty_value_is_present() {
    let ps = vec![param("a", Some("")), param("b", Some("2"))];
    assert_eq!(encode_query("https://h/p", &ps), "https://h/p?a=&b=2");
}

#[test]
fn location_builders() {
    let c = LocReqConfig::new("K", "Chicago").with_country_code("us");
    assert_eq!(c.to_url(), "https://api.scaleserp.com/locations?api_key=K&q=Chicago&country_code=us");
    let c = c.with_type("city");
    assert_eq!(c.to_url(), "https://api.scaleserp.com/locations?api_key=K&q=Chicago&type=city&country_code=us");
}

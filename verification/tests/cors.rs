use axum_util::cors::{
    is_preflight, preflight_headers, response_headers, set_preflight_headers,
    set_response_headers, Cors, CorsLayer, Header, PREFLIGHT_STATUS,
};
use axum_util::headers::AMPLE_ROOM;
use http::header::HeaderName;
use http::{HeaderMap, HeaderValue};

fn filled(headers: &mut HeaderMap, names: usize) {
    for i in 0..names {
        let name = HeaderName::from_bytes(format!("x-filler-{i}").as_bytes()).unwrap();
        headers.try_insert(name, HeaderValue::from_static("v")).unwrap();
    }
}

fn values(headers: &HeaderMap, name: &str) -> Vec<String> {
    headers.get_all(name).iter().map(|value| value.to_str().unwrap().to_string()).collect()
}

#[test]
fn options_under_the_api_is_a_preflight() {
    assert!(is_preflight("OPTIONS", "/api/v1/users"));
    assert!(is_preflight("OPTIONS", "/api/v1/"));
}

#[test]
fn other_methods_are_not_preflights() {
    assert!(!is_preflight("GET", "/api/v1/users"));
    assert!(!is_preflight("POST", "/api/v1/users"));
    assert!(!is_preflight("options", "/api/v1/users"));
    assert!(!is_preflight("OPTIONSX", "/api/v1/users"));
    assert!(!is_preflight("", "/api/v1/users"));
}

#[test]
fn other_paths_are_not_preflights() {
    assert!(!is_preflight("OPTIONS", "/api/v1"));
    assert!(!is_preflight("OPTIONS", "/api/v2/users"));
    assert!(!is_preflight("OPTIONS", "/"));
    assert!(!is_preflight("OPTIONS", ""));
    assert!(!is_preflight("OPTIONS", "/x/api/v1/"));
}

#[test]
fn responses_get_three_headers() {
    assert_eq!(
        response_headers(),
        vec![
            Header { name: "access-control-allow-origin", value: "*" },
            Header {
                name: "access-control-allow-methods",
                value: "POST, GET, OPTIONS, PATCH, DELETE"
            },
            Header { name: "access-control-allow-headers", value: "content-type" },
        ]
    );
}

#[test]
fn preflight_answers_get_four_headers() {
    assert_eq!(PREFLIGHT_STATUS, 200);
    assert_eq!(
        preflight_headers(),
        vec![
            Header { name: "access-control-allow-origin", value: "*" },
            Header {
                name: "access-control-allow-methods",
                value: "POST, GET, OPTIONS, PATCH, DELETE"
            },
            Header { name: "access-control-allow-headers", value: "*" },
            Header { name: "access-control-max-age", value: "86400" },
        ]
    );
}

#[test]
fn cors_wraps_and_returns_the_service() {
    let cors = Cors::new("service");
    assert_eq!(cors.clone().into_inner(), "service");
    let layered = CorsLayer.layer(17u8);
    assert_eq!(layered.into_inner(), 17);
}

#[test]
fn response_headers_are_set_on_an_empty_map() {
    let mut headers = HeaderMap::new();
    assert!(set_response_headers(&mut headers));
    assert_eq!(headers.len(), 3);
    assert_eq!(values(&headers, "access-control-allow-origin"), vec!["*"]);
    assert_eq!(
        values(&headers, "access-control-allow-methods"),
        vec!["POST, GET, OPTIONS, PATCH, DELETE"]
    );
    assert_eq!(values(&headers, "access-control-allow-headers"), vec!["content-type"]);
}

#[test]
fn response_headers_replace_what_was_there_and_keep_the_rest() {
    let mut headers = HeaderMap::new();
    headers.insert("content-type", HeaderValue::from_static("text/plain"));
    headers.append("access-control-allow-origin", HeaderValue::from_static("https://a.example"));
    headers.append("access-control-allow-origin", HeaderValue::from_static("https://b.example"));
    headers.append("set-cookie", HeaderValue::from_static("a=1"));
    headers.append("set-cookie", HeaderValue::from_static("b=2"));
    assert!(set_response_headers(&mut headers));
    assert_eq!(values(&headers, "access-control-allow-origin"), vec!["*"]);
    assert_eq!(values(&headers, "content-type"), vec!["text/plain"]);
    assert_eq!(values(&headers, "set-cookie"), vec!["a=1", "b=2"]);
    assert_eq!(headers.keys_len(), 5);
    assert_eq!(headers.len(), 6);
}

#[test]
fn preflight_headers_are_set() {
    let mut headers = HeaderMap::new();
    headers.insert("access-control-max-age", HeaderValue::from_static("1"));
    assert!(set_preflight_headers(&mut headers));
    assert_eq!(headers.len(), 4);
    assert_eq!(values(&headers, "access-control-allow-origin"), vec!["*"]);
    assert_eq!(
        values(&headers, "access-control-allow-methods"),
        vec!["POST, GET, OPTIONS, PATCH, DELETE"]
    );
    assert_eq!(values(&headers, "access-control-allow-headers"), vec!["*"]);
    assert_eq!(values(&headers, "access-control-max-age"), vec!["86400"]);
}

#[test]
fn setting_twice_changes_nothing_more() {
    let mut headers = HeaderMap::new();
    assert!(set_response_headers(&mut headers));
    let once = headers.clone();
    assert!(set_response_headers(&mut headers));
    assert_eq!(headers, once);
}

#[test]
fn map_with_ample_room_takes_the_response_headers() {
    assert_eq!(AMPLE_ROOM, 4096);
    let mut headers = HeaderMap::new();
    filled(&mut headers, AMPLE_ROOM - 3);
    assert!(set_response_headers(&mut headers));
    assert_eq!(headers.keys_len(), AMPLE_ROOM);
    assert_eq!(values(&headers, "access-control-allow-origin"), vec!["*"]);
    assert_eq!(values(&headers, "access-control-allow-headers"), vec!["content-type"]);
    assert_eq!(values(&headers, "x-filler-0"), vec!["v"]);
}

#[test]
fn map_with_ample_room_takes_the_preflight_headers() {
    let mut headers = HeaderMap::new();
    filled(&mut headers, AMPLE_ROOM - 4);
    assert!(set_preflight_headers(&mut headers));
    assert_eq!(headers.keys_len(), AMPLE_ROOM);
    assert_eq!(values(&headers, "access-control-max-age"), vec!["86400"]);
}

#[test]
fn map_made_as_large_as_can_be_still_takes_the_headers() {
    let mut headers = HeaderMap::with_capacity(24000);
    filled(&mut headers, AMPLE_ROOM - 3);
    assert!(set_response_headers(&mut headers));
    assert_eq!(headers.keys_len(), AMPLE_ROOM);
}

#[test]
fn map_that_cannot_grow_refuses_and_is_left_as_it_was() {
    let mut headers = HeaderMap::new();
    let mut names = 0usize;
    loop {
        let name = HeaderName::from_bytes(format!("x-filler-{names}").as_bytes()).unwrap();
        if headers.try_insert(name, HeaderValue::from_static("v")).is_err() {
            break;
        }
        names += 1;
        assert!(names <= 40000);
    }
    assert!(names >= AMPLE_ROOM);
    let before = headers.clone();
    assert!(!set_response_headers(&mut headers));
    assert_eq!(headers, before);
    assert!(!set_preflight_headers(&mut headers));
    assert_eq!(headers, before);
    assert!(headers.get("access-control-allow-origin").is_none());
}

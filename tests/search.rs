use upnp_ssdp::response::{parse_response, FramingError};
use upnp_ssdp::search::{
    collect_reply, remaining_wait, search_deadline, search_message, Options, ProductVersions,
    SearchError, SearchResponse,
};
use upnp_ssdp::target::SearchTarget;
use upnp_ssdp::version::SpecVersion;

const REPLY: &str = "HTTP/1.1 200 OK\r\nCACHE-CONTROL: max-age=1800\r\nLOCATION: http://10.0.0.2:80/desc.xml\r\nUSN: uuid:abc::upnp:rootdevice\r\nSERVER: OS/1.0 UPnP/1.0 Product/2.3\r\n\r\n";

#[test]
fn garbage_is_a_framing_error() {
    assert!(matches!(parse_response("GARBAGE"), Err(FramingError::Unterminated)));
    assert!(matches!(parse_response(""), Err(FramingError::Empty)));
    assert!(matches!(parse_response("HTTP/1.1 200 OK\r\nA: b\r\n"), Err(FramingError::Unterminated)));
}

#[test]
fn well_formed_reply() {
    let resp = parse_response(REPLY).unwrap();
    assert_eq!(resp.status_line(), "HTTP/1.1 200 OK");
    assert_eq!(resp.header_count(), 4);
    assert_eq!(resp.header(1), ("LOCATION", "http://10.0.0.2:80/desc.xml"));
    let sr = SearchResponse::from_response(&resp).unwrap();
    assert_eq!(sr.versions.product_version(), "2.3");
    assert_eq!(sr.versions.upnp_version(), "1.0");
    assert_eq!(sr.versions.platform_version(), "OS/1.0");
    assert_eq!(sr.location, "http://10.0.0.2:80/desc.xml");
    assert_eq!(sr.service_name, "uuid:abc::upnp:rootdevice");
}

#[test]
fn lenient_lines() {
    let resp = parse_response("HTTP/1.1 200 OK\nlocation:   x  \nEXT\nSt:a:b\n\nignored: yes").unwrap();
    assert_eq!(resp.header_count(), 3);
    assert_eq!(resp.header(0), ("location", "x"));
    assert_eq!(resp.header(1), ("EXT", ""));
    assert_eq!(resp.header(2), ("St", "a:b"));
}

#[test]
fn header_names_ignore_case() {
    let text = "HTTP/1.1 200 OK\r\nlocation: L\r\nusn: U\r\nServer: A/1 UPnP/2.0 B/3\r\n\r\n";
    let sr = SearchResponse::from_response(&parse_response(text).unwrap()).unwrap();
    assert_eq!(sr.location, "L");
    assert_eq!(sr.service_name, "U");
    assert_eq!(sr.versions.upnp_version(), "2.0");
    assert_eq!(sr.versions.product_version(), "3");
}

#[test]
fn server_values() {
    let v = ProductVersions::from_server("Linux/2.6 UPnP/1.0 Sonos/29.3 (ZPS1)").unwrap();
    assert_eq!(v.platform_version(), "Linux/2.6");
    assert_eq!(v.upnp_version(), "1.0");
    assert_eq!(v.product_version(), "29.3 (ZPS1)");
    assert!(ProductVersions::from_server("Linux/2.6 UPnP/1.0").is_none());
    let v = ProductVersions::from_server("a b c").unwrap();
    assert_eq!((v.platform_version(), v.upnp_version(), v.product_version()), ("a", "b", "c"));
}

#[test]
fn replies_are_collected_in_order() {
    let mut rs: Vec<SearchResponse> = Vec::new();
    collect_reply(&mut rs, REPLY);
    collect_reply(&mut rs, "GARBAGE");
    collect_reply(&mut rs, "HTTP/1.1 200 OK\r\nLOCATION: x\r\n\r\n");
    collect_reply(&mut rs, &REPLY.replace("uuid:abc", "uuid:def"));
    assert_eq!(rs.len(), 2);
    assert_eq!(rs[0].service_name, "uuid:abc::upnp:rootdevice");
    assert_eq!(rs[1].service_name, "uuid:def::upnp:rootdevice");
}

#[test]
fn no_replies_is_an_empty_result() {
    let rs: Vec<SearchResponse> = Vec::new();
    let deadline = search_deadline(10_000, 2).unwrap();
    assert_eq!(deadline, 12_000);
    assert_eq!(remaining_wait(deadline, 10_500), Some(1_500));
    assert_eq!(remaining_wait(deadline, 12_000), None);
    assert!(rs.is_empty());
    assert_eq!(search_deadline(u64::MAX, 1), None);
}

#[test]
fn search_query() {
    let o = Options::default_for(SpecVersion::V10);
    let m = search_message(&o).unwrap();
    assert_eq!(
        m.to_wire(),
        "M-SEARCH * HTTP/1.1\r\nHOST: 239.255.255.250:1900\r\nMAN: \"ssdp:discover\"\r\nMX: 2\r\nST: upnp:rootdevice\r\n\r\n"
    );
    let mut o = Options::default_for(SpecVersion::V11);
    o.search_target = SearchTarget::All;
    o.max_wait_time = 5;
    let m = search_message(&o).unwrap();
    assert_eq!(m.header_count(), 5);
    assert_eq!(m.header(2), ("MX", "5"));
    assert_eq!(m.header(3), ("ST", "ssdp:all"));
    assert_eq!(m.header(4), ("USER-AGENT", "Rust/1.0 UPnP/1.1 upnp-ssdp/0.1"));
    o.max_wait_time = 0;
    assert!(matches!(search_message(&o), Err(SearchError::InvalidMaxWaitTime)));
}

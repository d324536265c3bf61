use upnp_ssdp::message::HttpuMessage;
use upnp_ssdp::xml::{namespace_attribute, Element};

#[test]
fn message_text() {
    let mut m = HttpuMessage::new("NOTIFY");
    m.add_header("HOST", "239.255.255.250:1900");
    m.add_header("USN", "a");
    m.add_header("USN", "b");
    assert_eq!(m.header_count(), 3);
    assert_eq!(m.header(2), ("USN", "b"));
    assert_eq!(m.method(), "NOTIFY");
    assert_eq!(
        m.to_wire(),
        "NOTIFY * HTTP/1.1\r\nHOST: 239.255.255.250:1900\r\nUSN: a\r\nUSN: b\r\n\r\n"
    );
}

#[test]
fn message_without_headers() {
    let m = HttpuMessage::new("M-SEARCH");
    assert_eq!(m.to_wire(), "M-SEARCH * HTTP/1.1\r\n\r\n");
}

#[test]
fn namespace_attributes() {
    assert_eq!(namespace_attribute(None), "xmlns");
    assert_eq!(namespace_attribute(Some("dlna")), "xmlns:dlna");
    assert_eq!(Element::new("root").name(), "root");
}

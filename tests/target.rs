use upnp_ssdp::target::{CLSearchTarget, CommandLineError, SearchTarget};

fn s(x: &str) -> String {
    x.to_string()
}

#[test]
fn wire_strings() {
    assert_eq!(SearchTarget::All.to_wire_string(), "ssdp:all");
    assert_eq!(SearchTarget::RootDevice.to_wire_string(), "upnp:rootdevice");
    assert_eq!(SearchTarget::Device(s("abc")).to_wire_string(), "uuid:abc");
    assert_eq!(
        SearchTarget::DeviceType(s("MediaServer")).to_wire_string(),
        "urn:schemas-upnp-org:device:MediaServer:1"
    );
    assert_eq!(
        SearchTarget::ServiceType(s("ContentDirectory")).to_wire_string(),
        "urn:schemas-upnp-org:service:ContentDirectory:1"
    );
    assert_eq!(
        SearchTarget::DomainDeviceType(s("example-com"), s("Lamp")).to_wire_string(),
        "urn:example-com:device:Lamp:1"
    );
    assert_eq!(
        SearchTarget::DomainServiceType(s("example-com"), s("Dim")).to_wire_string(),
        "urn:example-com:service:Dim:1"
    );
    assert_eq!(SearchTarget::Raw(s("anything at all")).to_wire_string(), "anything at all");
}

#[test]
fn wire_string_is_deterministic() {
    let t = SearchTarget::DomainServiceType(s("example-com"), s("Dim"));
    assert_eq!(t.to_wire_string(), t.to_wire_string());
    let u = SearchTarget::Device(s("x"));
    assert_eq!(u.to_wire_string(), u.clone().to_wire_string());
}

#[test]
fn wire_string_is_not_user_notation() {
    let wire = SearchTarget::All.to_wire_string();
    assert!(CLSearchTarget::from_str(&wire).is_err());
}

#[test]
fn user_notation() {
    assert!(matches!(CLSearchTarget::from_str(""), Ok(CLSearchTarget::RootDevice)));
    assert!(matches!(CLSearchTarget::from_str("all"), Ok(CLSearchTarget::All)));
    assert!(matches!(CLSearchTarget::from_str("root"), Ok(CLSearchTarget::RootDevice)));
    assert!(matches!(CLSearchTarget::from_str("raw:x:y"), Ok(CLSearchTarget::Raw(v)) if v == "x:y"));
    assert!(matches!(CLSearchTarget::from_str("device:42"), Ok(CLSearchTarget::Device(v)) if v == "42"));
    assert!(matches!(CLSearchTarget::from_str("device-type:Lamp"), Ok(CLSearchTarget::DeviceType(v)) if v == "Lamp"));
    assert!(matches!(CLSearchTarget::from_str("service-type:Dim"), Ok(CLSearchTarget::ServiceType(v)) if v == "Dim"));
    assert!(matches!(CLSearchTarget::from_str("device:"), Ok(CLSearchTarget::Device(v)) if v.is_empty()));
}

#[test]
fn user_notation_refused() {
    match CLSearchTarget::from_str("bogus") {
        Err(CommandLineError::InvalidParameterValue(p, v)) => {
            assert_eq!(p, "search_target");
            assert_eq!(v, "bogus");
        }
        _ => panic!("expected an invalid parameter value"),
    }
    assert!(CLSearchTarget::from_str("ALL").is_err());
}

#[test]
fn error_messages() {
    assert_eq!(CommandLineError::MissingParameter(s("x")).message(), "Parameter x required");
    assert_eq!(CommandLineError::UnexpectedParameter(s("x")).message(), "Parameter x unnecessary");
    assert_eq!(
        CommandLineError::InvalidParameterValue(s("search_target"), s("bogus")).message(),
        "Value 'bogus' invalid for parameter search_target"
    );
}

#[test]
fn domain_qualifies_types() {
    let t = CLSearchTarget::DeviceType(s("Lamp")).into_search_target(Some(s("example-com")));
    assert_eq!(t.to_wire_string(), "urn:example-com:device:Lamp:1");
    let t = CLSearchTarget::ServiceType(s("Dim")).into_search_target(None);
    assert_eq!(t.to_wire_string(), "urn:schemas-upnp-org:service:Dim:1");
    let t = CLSearchTarget::Device(s("9")).into_search_target(Some(s("example-com")));
    assert_eq!(t.to_wire_string(), "uuid:9");
    let t = CLSearchTarget::Raw(s("r")).into_search_target(None);
    assert_eq!(t.to_wire_string(), "r");
}

use upnp_ssdp::agent::ProductVersion;
use upnp_ssdp::message::HttpuMessage;
use upnp_ssdp::notify::{
    alive_message, device_available, device_unavailable, device_update, notify_destination,
    Device, NotifyError, Options,
};
use upnp_ssdp::target::SearchTarget;
use upnp_ssdp::version::SpecVersion;

fn device() -> Device {
    Device {
        notification_type: SearchTarget::RootDevice,
        service_name: "uuid:abc".to_string(),
        location: "http://10.0.0.2:80/desc.xml".to_string(),
        boot_id: 5,
        config_id: 100,
        search_port: None,
        secure_location: None,
    }
}

fn headers(m: &HttpuMessage) -> Vec<(String, String)> {
    (0..m.header_count())
        .map(|i| {
            let (n, v) = m.header(i);
            (n.to_string(), v.to_string())
        })
        .collect()
}

fn has(hs: &[(String, String)], name: &str, value: &str) -> bool {
    hs.iter().any(|(n, v)| n == name && v == value)
}

fn names(hs: &[(String, String)], name: &str) -> bool {
    hs.iter().any(|(n, _)| n == name)
}

#[test]
fn alive_scenario_v11() {
    let mut d = device();
    let mut sent: Option<HttpuMessage> = None;
    let r = device_available(&mut d, Options::default_for(SpecVersion::V11), |m| -> Result<(), ()> {
        sent = Some(m);
        Ok(())
    });
    assert!(r.is_ok());
    assert_eq!(d.boot_id, 6);
    let hs = headers(&sent.unwrap());
    assert!(has(&hs, "BOOTID.UPNP.ORG", "5"));
    assert!(has(&hs, "CONFIGID.UPNP.ORG", "100"));
    assert!(has(&hs, "NTS", "ssdp:alive"));
    assert!(has(&hs, "CACHE-CONTROL", "max-age=1800"));
    assert!(has(&hs, "HOST", "239.255.255.250:1900"));
    assert!(has(&hs, "LOCATION", "http://10.0.0.2:80/desc.xml"));
    assert!(has(&hs, "NT", "upnp:rootdevice"));
    assert!(has(&hs, "USN", "uuid:abc"));
    assert!(has(&hs, "SERVER", "Rust/1.0 UPnP/1.1 upnp-ssdp/0.1"));
    assert!(!names(&hs, "NEXTBOOTID.UPNP.ORG"));
}

#[test]
fn alive_v10_has_no_ids() {
    let mut d = device();
    let mut sent = None;
    let r = device_available(&mut d, Options::default_for(SpecVersion::V10), |m| -> Result<(), ()> {
        sent = Some(m);
        Ok(())
    });
    assert!(r.is_ok());
    assert_eq!(d.boot_id, 6);
    let hs = headers(&sent.unwrap());
    assert_eq!(hs.len(), 7);
    assert!(!names(&hs, "BOOTID.UPNP.ORG"));
    assert!(!names(&hs, "CONFIGID.UPNP.ORG"));
}

#[test]
fn byebye_ids_by_version() {
    let mut d = device();
    let mut sent = None;
    device_unavailable(&mut d, Options::default_for(SpecVersion::V11), |m| -> Result<(), ()> {
        sent = Some(m);
        Ok(())
    })
    .unwrap();
    assert_eq!(d.boot_id, 6);
    let hs = headers(&sent.unwrap());
    assert!(has(&hs, "BOOTID.UPNP.ORG", "5"));
    assert!(has(&hs, "CONFIGID.UPNP.ORG", "100"));
    assert!(has(&hs, "NTS", "ssdp:byebye"));
    assert!(!names(&hs, "LOCATION"));
    assert!(!names(&hs, "CACHE-CONTROL"));

    let mut sent = None;
    device_unavailable(&mut d, Options::default_for(SpecVersion::V10), |m| -> Result<(), ()> {
        sent = Some(m);
        Ok(())
    })
    .unwrap();
    assert_eq!(d.boot_id, 7);
    let hs = headers(&sent.unwrap());
    assert!(!names(&hs, "BOOTID.UPNP.ORG"));
    assert!(!names(&hs, "CONFIGID.UPNP.ORG"));
}

#[test]
fn update_refused_on_v10() {
    let mut d = device();
    let mut called = false;
    let r = device_update(&mut d, Options::default_for(SpecVersion::V10), |_m| -> Result<(), ()> {
        called = true;
        Ok(())
    });
    assert!(matches!(r, Err(NotifyError::UnsupportedVersion(SpecVersion::V10))));
    assert!(!called);
    assert_eq!(d.boot_id, 5);
}

#[test]
fn update_carries_both_boot_ids() {
    let mut d = device();
    d.search_port = Some(1901);
    let mut sent = None;
    device_update(&mut d, Options::default_for(SpecVersion::V11), |m| -> Result<(), ()> {
        sent = Some(m);
        Ok(())
    })
    .unwrap();
    assert_eq!(d.boot_id, 6);
    let hs = headers(&sent.unwrap());
    assert!(has(&hs, "BOOTID.UPNP.ORG", "5"));
    assert!(has(&hs, "NEXTBOOTID.UPNP.ORG", "6"));
    assert!(has(&hs, "SEARCHPORT.UPNP.ORG", "1901"));
    assert!(has(&hs, "NTS", "ssdp:update"));
}

#[test]
fn failed_send_keeps_boot_id() {
    let mut d = device();
    let r = device_available(&mut d, Options::default_for(SpecVersion::V11), |_m| -> Result<(), String> {
        Err("unreachable network".to_string())
    });
    assert!(matches!(r, Err(NotifyError::Transport(ref e)) if e == "unreachable network"));
    assert_eq!(d.boot_id, 5);
}

#[test]
fn secure_location_overrides_usn_at_v20() {
    let mut d = device();
    d.secure_location = Some("https://10.0.0.2/desc.xml".to_string());
    let mut sent = None;
    device_available(&mut d, Options::default_for(SpecVersion::V20), |m| -> Result<(), ()> {
        sent = Some(m);
        Ok(())
    })
    .unwrap();
    let hs = headers(&sent.unwrap());
    assert_eq!(hs.last().unwrap(), &("USN".to_string(), "https://10.0.0.2/desc.xml".to_string()));

    let mut sent = None;
    device_update(&mut d, Options::default_for(SpecVersion::V20), |m| -> Result<(), ()> {
        sent = Some(m);
        Ok(())
    })
    .unwrap();
    let hs = headers(&sent.unwrap());
    assert_eq!(hs.last().unwrap(), &("USN".to_string(), "https://10.0.0.2/desc.xml".to_string()));
    assert_eq!(d.boot_id, 7);

    let m = alive_message(&d, &Options::default_for(SpecVersion::V11));
    let hs = headers(&m);
    assert_eq!(hs.iter().filter(|(n, _)| n == "USN").count(), 1);
}

#[test]
fn repeated_calls_count_up() {
    let mut d = device();
    d.boot_id = 0;
    for k in 1..=4u32 {
        device_available(&mut d, Options::default_for(SpecVersion::V11), |_m| -> Result<(), ()> { Ok(()) }).unwrap();
        assert_eq!(d.boot_id, k);
    }
}

#[test]
fn default_options() {
    let o = Options::default_for(SpecVersion::V10);
    assert_eq!(o.packet_ttl, 4);
    assert_eq!(o.max_age, 1800);
    assert_eq!(o.address.as_deref(), Some("239.255.255.250"));
    assert_eq!(o.port, Some(1900));
    assert!(o.network_interface.is_none());
    let o = Options::default_for(SpecVersion::V20);
    assert_eq!(o.packet_ttl, 2);
}

#[test]
fn destination_and_product() {
    let mut o = Options::default_for(SpecVersion::V20);
    o.address = None;
    o.port = Some(1901);
    assert_eq!(notify_destination(&o), "239.255.255.250:1901");
    o.product_and_version = Some(ProductVersion { name: "Lamp".to_string(), version: "3.2".to_string() });
    let m = alive_message(&device(), &o);
    let hs = headers(&m);
    assert!(has(&hs, "SERVER", "Rust/1.0 UPnP/2.0 Lamp/3.2"));
    assert!(has(&hs, "HOST", "239.255.255.250:1901"));
}

#[test]
fn wire_text_of_alive_v10() {
    let m = alive_message(&device(), &Options::default_for(SpecVersion::V10));
    assert_eq!(
        m.to_wire(),
        "NOTIFY * HTTP/1.1\r\nHOST: 239.255.255.250:1900\r\nCACHE-CONTROL: max-age=1800\r\n\
LOCATION: http://10.0.0.2:80/desc.xml\r\nNT: upnp:rootdevice\r\nNTS: ssdp:alive\r\n\
SERVER: Rust/1.0 UPnP/1.0 upnp-ssdp/0.1\r\nUSN: uuid:abc\r\n\r\n"
    );
}

//! Announcements of a device's presence (`ssdp:alive`), of a change of its
//! boot counter (`ssdp:update`) and of its departure (`ssdp:byebye`), each
//! multicast once.
use vstd::prelude::*;
use crate::agent::{identity, user_agent_string, ProductVersion};
use crate::message::HttpuMessage;
use crate::syntax::{
    HTTP_HEADER_BOOTID, HTTP_HEADER_CACHE_CONTROL, HTTP_HEADER_CONFIGID, HTTP_HEADER_HOST,
    HTTP_HEADER_LOCATION, HTTP_HEADER_NEXT_BOOTID, HTTP_HEADER_NT, HTTP_HEADER_NTS,
    HTTP_HEADER_SEARCH_PORT, HTTP_HEADER_SERVER, HTTP_HEADER_USN, HTTP_METHOD_NOTIFY,
    MULTICAST_ADDRESS, MULTICAST_PORT, NTS_ALIVE, NTS_BYE, NTS_UPDATE,
};
use crate::target::SearchTarget;
use crate::text::{decimal, decimal_text, join2, join3};
use crate::version::SpecVersion;

verus! {

/// The IP version a socket is to use.
#[derive(Clone, Copy, Debug, PartialEq, Eq, Structural)]
pub enum IP {
    V4,
    V6,
}

/// A device as it is described in notifications. `boot_id` counts the
/// notifications sent for it.
#[derive(Clone, Debug)]
pub struct Device {
    pub notification_type: SearchTarget,
    pub service_name: String,
    pub location: String,
    pub boot_id: u32,
    pub config_id: u64,
    pub search_port: Option<u16>,
    pub secure_location: Option<String>,
}

/// How notifications are written and sent.
#[derive(Clone, Debug)]
pub struct Options {
    /// The revision that decides which headers are written.
    pub spec_version: SpecVersion,
    /// The interface to send from; all interfaces when `None`.
    pub network_interface: Option<String>,
    /// IPv4 or IPv6; either when `None`.
    pub network_version: Option<IP>,
    /// The IP time-to-live of the datagram.
    pub packet_ttl: u32,
    /// How long, in seconds, control points may cache the announcement.
    pub max_age: u16,
    /// The product named in the `SERVER` header; this library when `None`.
    pub product_and_version: Option<ProductVersion>,
    /// The multicast group; the protocol's when `None`.
    pub address: Option<String>,
    /// The multicast port; the protocol's when `None`.
    pub port: Option<u16>,
}

/// Why a notification was not sent.
#[derive(Clone, Debug)]
pub enum NotifyError<E> {
    /// The operation needs a later revision than the one asked for.
    UnsupportedVersion(SpecVersion),
    /// The transport failed to send the datagram.
    Transport(E),
}

/// The default cache lifetime, in seconds.
pub const CACHE_CONTROL_MAX_AGE: u16 = 1800;

/// A header as a pair of character sequences.
pub open spec fn hdr(name: &str, value: Seq<char>) -> (Seq<char>, Seq<char>) {
    (name@, value)
}

/// The multicast group the options name, with the protocol's defaults.
pub open spec fn destination(o: Options) -> Seq<char> {
    (match o.address {
        Some(a) => a@,
        None => MULTICAST_ADDRESS@,
    }) + ":"@ + decimal(
        match o.port {
            Some(p) => p,
            None => MULTICAST_PORT,
        } as nat,
    )
}

/// The `BOOTID`, `CONFIGID` and (when the device has one) `SEARCHPORT`
/// headers.
pub open spec fn id_headers(d: Device, with_port: bool) -> Seq<(Seq<char>, Seq<char>)> {
    seq![
        hdr(HTTP_HEADER_BOOTID, decimal(d.boot_id as nat)),
        hdr(HTTP_HEADER_CONFIGID, decimal(d.config_id as nat)),
    ] + match d.search_port {
        Some(p) if with_port => seq![hdr(HTTP_HEADER_SEARCH_PORT, decimal(p as nat))],
        _ => Seq::empty(),
    }
}

/// The second `USN` header, carrying the secure location, from 2.0 on.
pub open spec fn secure_usn(d: Device, o: Options) -> Seq<(Seq<char>, Seq<char>)> {
    match d.secure_location {
        Some(s) if o.spec_version.rank() >= SpecVersion::V20.rank() => seq![hdr(HTTP_HEADER_USN, s@)],
        _ => Seq::empty(),
    }
}

/// The headers of the `ssdp:alive` message, in order.
pub open spec fn alive_headers(d: Device, o: Options) -> Seq<(Seq<char>, Seq<char>)> {
    seq![
        hdr(HTTP_HEADER_HOST, destination(o)),
        hdr(HTTP_HEADER_CACHE_CONTROL, "max-age="@ + decimal(o.max_age as nat)),
        hdr(HTTP_HEADER_LOCATION, d.location@),
        hdr(HTTP_HEADER_NT, d.notification_type.wire()),
        hdr(HTTP_HEADER_NTS, NTS_ALIVE@),
        hdr(HTTP_HEADER_SERVER, identity(o.spec_version, o.product_and_version)),
        hdr(HTTP_HEADER_USN, d.service_name@),
    ] + (if o.spec_version.rank() >= SpecVersion::V11.rank() {
        id_headers(d, true)
    } else {
        Seq::empty()
    }) + secure_usn(d, o)
}

/// The headers of the `ssdp:update` message, in order.
pub open spec fn update_headers(d: Device, o: Options) -> Seq<(Seq<char>, Seq<char>)> {
    seq![
        hdr(HTTP_HEADER_HOST, destination(o)),
        hdr(HTTP_HEADER_LOCATION, d.location@),
        hdr(HTTP_HEADER_NT, d.notification_type.wire()),
        hdr(HTTP_HEADER_NTS, NTS_UPDATE@),
        hdr(HTTP_HEADER_USN, d.service_name@),
        hdr(HTTP_HEADER_BOOTID, decimal(d.boot_id as nat)),
        hdr(HTTP_HEADER_NEXT_BOOTID, decimal(d.boot_id as nat + 1)),
        hdr(HTTP_HEADER_CONFIGID, decimal(d.config_id as nat)),
    ] + match d.search_port {
        Some(p) => seq![hdr(HTTP_HEADER_SEARCH_PORT, decimal(p as nat))],
        None => Seq::empty(),
    } + secure_usn(d, o)
}

/// The headers of the `ssdp:byebye` message, in order.
pub open spec fn byebye_headers(d: Device, o: Options) -> Seq<(Seq<char>, Seq<char>)> {
    seq![
        hdr(HTTP_HEADER_HOST, destination(o)),
        hdr(HTTP_HEADER_NT, d.notification_type.wire()),
        hdr(HTTP_HEADER_NTS, NTS_BYE@),
        hdr(HTTP_HEADER_USN, d.service_name@),
    ] + (if o.spec_version.rank() >= SpecVersion::V11.rank() {
        id_headers(d, false)
    } else {
        Seq::empty()
    })
}

/// `d` after one more notification.
pub open spec fn next_boot(d: Device) -> Device {
    Device { boot_id: (d.boot_id + 1) as u32, ..d }
}

/// What a notify operation owes, given the message it handed to `send` and
/// what `send` returned.
pub open spec fn notified<E>(
    old_d: Device,
    new_d: Device,
    r: Result<(), NotifyError<E>>,
    outcome: Result<(), E>,
) -> bool {
    match outcome {
        Ok(()) => r is Ok && new_d == next_boot(old_d),
        Err(e) => r == Err::<(), NotifyError<E>>(NotifyError::Transport(e)) && new_d == old_d,
    }
}

/// The `host:port` of the multicast group the options name.
pub fn notify_destination(options: &Options) -> (r: String)
    ensures
        r@ == destination(*options),
{
    let port = match options.port {
        Some(p) => p,
        None => MULTICAST_PORT,
    };
    let p = decimal_text(port as u64);
    match &options.address {
        Some(a) => join3(a.as_str(), ":", p.as_str()),
        None => join3(MULTICAST_ADDRESS, ":", p.as_str()),
    }
}

fn add_ids(m: &mut HttpuMessage, device: &Device, with_port: bool)
    ensures
        final(m)@.0 == old(m)@.0,
        final(m)@.1 == old(m)@.1 + id_headers(*device, with_port),
{
    let b = decimal_text(device.boot_id as u64);
    m.add_header(HTTP_HEADER_BOOTID, b.as_str());
    let c = decimal_text(device.config_id);
    m.add_header(HTTP_HEADER_CONFIGID, c.as_str());
    if with_port {
        add_search_port(m, device);
    }
    assert(final(m)@.1 =~= old(m)@.1 + id_headers(*device, with_port));
}

fn add_search_port(m: &mut HttpuMessage, device: &Device)
    ensures
        final(m)@.0 == old(m)@.0,
        final(m)@.1 == old(m)@.1 + match device.search_port {
            Some(p) => seq![hdr(HTTP_HEADER_SEARCH_PORT, decimal(p as nat))],
            None => Seq::empty(),
        },
{
    if let Some(p) = device.search_port {
        let s = decimal_text(p as u64);
        m.add_header(HTTP_HEADER_SEARCH_PORT, s.as_str());
    }
    assert(final(m)@.1 =~= old(m)@.1 + match device.search_port {
        Some(p) => seq![hdr(HTTP_HEADER_SEARCH_PORT, decimal(p as nat))],
        None => Seq::<(Seq<char>, Seq<char>)>::empty(),
    });
}

fn add_secure_usn(m: &mut HttpuMessage, device: &Device, options: &Options)
    ensures
        final(m)@.0 == old(m)@.0,
        final(m)@.1 == old(m)@.1 + secure_usn(*device, *options),
{
    if options.spec_version.at_least(SpecVersion::V20) {
        if let Some(s) = &device.secure_location {
            m.add_header(HTTP_HEADER_USN, s.as_str());
        }
    }
    assert(final(m)@.1 =~= old(m)@.1 + secure_usn(*device, *options));
}

/// The `ssdp:alive` message for the device.
pub fn alive_message(device: &Device, options: &Options) -> (r: HttpuMessage)
    ensures
        r@ == (HTTP_METHOD_NOTIFY@, alive_headers(*device, *options)),
{
    let mut m = HttpuMessage::new(HTTP_METHOD_NOTIFY);
    let host = notify_destination(options);
    m.add_header(HTTP_HEADER_HOST, host.as_str());
    let age = decimal_text(options.max_age as u64);
    let cache = join2("max-age=", age.as_str());
    m.add_header(HTTP_HEADER_CACHE_CONTROL, cache.as_str());
    m.add_header(HTTP_HEADER_LOCATION, device.location.as_str());
    let nt = device.notification_type.to_wire_string();
    m.add_header(HTTP_HEADER_NT, nt.as_str());
    m.add_header(HTTP_HEADER_NTS, NTS_ALIVE);
    let server = user_agent_string(options.spec_version, &options.product_and_version);
    m.add_header(HTTP_HEADER_SERVER, server.as_str());
    m.add_header(HTTP_HEADER_USN, device.service_name.as_str());
    let ghost base = m@.1;
    if options.spec_version.at_least(SpecVersion::V11) {
        add_ids(&mut m, device, true);
    }
    let ghost mid = m@.1;
    add_secure_usn(&mut m, device, options);
    proof {
        let ids = if options.spec_version.rank() >= SpecVersion::V11.rank() {
            id_headers(*device, true)
        } else {
            Seq::empty()
        };
        assert(mid =~= base + ids);
        assert(m@.1 =~= alive_headers(*device, *options));
    }
    m
}

/// The `ssdp:update` message for the device.
pub fn update_message(device: &Device, options: &Options) -> (r: HttpuMessage)
    requires
        device.boot_id < u32::MAX,
    ensures
        r@ == (HTTP_METHOD_NOTIFY@, update_headers(*device, *options)),
{
    let mut m = HttpuMessage::new(HTTP_METHOD_NOTIFY);
    let host = notify_destination(options);
    m.add_header(HTTP_HEADER_HOST, host.as_str());
    m.add_header(HTTP_HEADER_LOCATION, device.location.as_str());
    let nt = device.notification_type.to_wire_string();
    m.add_header(HTTP_HEADER_NT, nt.as_str());
    m.add_header(HTTP_HEADER_NTS, NTS_UPDATE);
    m.add_header(HTTP_HEADER_USN, device.service_name.as_str());
    let b = decimal_text(device.boot_id as u64);
    m.add_header(HTTP_HEADER_BOOTID, b.as_str());
    let n = decimal_text(device.boot_id as u64 + 1);
    m.add_header(HTTP_HEADER_NEXT_BOOTID, n.as_str());
    let c = decimal_text(device.config_id);
    m.add_header(HTTP_HEADER_CONFIGID, c.as_str());
    add_search_port(&mut m, device);
    add_secure_usn(&mut m, device, options);
    assert(m@.1 =~= update_headers(*device, *options));
    m
}

/// The `ssdp:byebye` message for the device.
pub fn byebye_message(device: &Device, options: &Options) -> (r: HttpuMessage)
    ensures
        r@ == (HTTP_METHOD_NOTIFY@, byebye_headers(*device, *options)),
{
    let mut m = HttpuMessage::new(HTTP_METHOD_NOTIFY);
    let host = notify_destination(options);
    m.add_header(HTTP_HEADER_HOST, host.as_str());
    let nt = device.notification_type.to_wire_string();
    m.add_header(HTTP_HEADER_NT, nt.as_str());
    m.add_header(HTTP_HEADER_NTS, NTS_BYE);
    m.add_header(HTTP_HEADER_USN, device.service_name.as_str());
    let ghost base = m@.1;
    if options.spec_version.at_least(SpecVersion::V11) {
        add_ids(&mut m, device, false);
    }
    proof {
        let ids = if options.spec_version.rank() >= SpecVersion::V11.rank() {
            id_headers(*device, false)
        } else {
            Seq::empty()
        };
        assert(m@.1 =~= base + ids);
        assert(m@.1 =~= byebye_headers(*device, *options));
    }
    m
}

/// Announces the device (`ssdp:alive`): hands the alive message to `send`,
/// which multicasts it once, and counts the notification in `boot_id` when
/// the send succeeded.
pub fn device_available<E, F>(device: &mut Device, options: Options, send: F) -> (r: Result<
    (),
    NotifyError<E>,
>) where F: FnOnce(HttpuMessage) -> Result<(), E>
    requires
        old(device).boot_id < u32::MAX,
        forall|m: HttpuMessage| send.requires((m,)),
    ensures
        exists|m: HttpuMessage, outcome: Result<(), E>|
            m@ == (HTTP_METHOD_NOTIFY@, alive_headers(*old(device), options))
            && #[trigger] send.ensures((m,), outcome)
            && notified(*old(device), *final(device), r, outcome),
{
    let next_boot_id = device.boot_id + 1;
    let message = alive_message(device, &options);
    let outcome = send(message);
    match outcome {
        Ok(()) => {
            device.boot_id = next_boot_id;
            Ok(())
        },
        Err(e) => Err(NotifyError::Transport(e)),
    }
}

/// Announces a new boot counter (`ssdp:update`), which needs revision 1.1 or
/// later: on 1.0 it fails before sending anything. Otherwise as
/// `device_available`, with the update message.
pub fn device_update<E, F>(device: &mut Device, options: Options, send: F) -> (r: Result<
    (),
    NotifyError<E>,
>) where F: FnOnce(HttpuMessage) -> Result<(), E>
    requires
        old(device).boot_id < u32::MAX,
        forall|m: HttpuMessage| send.requires((m,)),
    ensures
        options.spec_version == SpecVersion::V10 ==> r == Err::<(), NotifyError<E>>(
            NotifyError::UnsupportedVersion(SpecVersion::V10),
        ) && *final(device) == *old(device),
        options.spec_version != SpecVersion::V10 ==> exists|m: HttpuMessage, outcome: Result<(), E>|
            m@ == (HTTP_METHOD_NOTIFY@, update_headers(*old(device), options))
            && #[trigger] send.ensures((m,), outcome)
            && notified(*old(device), *final(device), r, outcome),
{
    if options.spec_version == SpecVersion::V10 {
        return Err(NotifyError::UnsupportedVersion(options.spec_version));
    }
    let next_boot_id = device.boot_id + 1;
    let message = update_message(device, &options);
    let outcome = send(message);
    match outcome {
        Ok(()) => {
            device.boot_id = next_boot_id;
            Ok(())
        },
        Err(e) => Err(NotifyError::Transport(e)),
    }
}

/// Announces the device's departure (`ssdp:byebye`). Otherwise as
/// `device_available`, with the byebye message.
pub fn device_unavailable<E, F>(device: &mut Device, options: Options, send: F) -> (r: Result<
    (),
    NotifyError<E>,
>) where F: FnOnce(HttpuMessage) -> Result<(), E>
    requires
        old(device).boot_id < u32::MAX,
        forall|m: HttpuMessage| send.requires((m,)),
    ensures
        exists|m: HttpuMessage, outcome: Result<(), E>|
            m@ == (HTTP_METHOD_NOTIFY@, byebye_headers(*old(device), options))
            && #[trigger] send.ensures((m,), outcome)
            && notified(*old(device), *final(device), r, outcome),
{
    let next_boot_id = device.boot_id + 1;
    let message = byebye_message(device, &options);
    let outcome = send(message);
    match outcome {
        Ok(()) => {
            device.boot_id = next_boot_id;
            Ok(())
        },
        Err(e) => Err(NotifyError::Transport(e)),
    }
}

impl Options {
    /// The options for a revision: cache lifetime 1800 s, the protocol's
    /// multicast group and port, a TTL of 4 for 1.0 and 2 otherwise, and
    /// nothing else set.
    pub fn default_for(spec_version: SpecVersion) -> (r: Options)
        ensures
            r.spec_version == spec_version,
            r.network_interface is None,
            r.network_version is None,
            r.max_age == CACHE_CONTROL_MAX_AGE,
            r.packet_ttl == (if spec_version == SpecVersion::V10 { 4u32 } else { 2u32 }),
            r.product_and_version is None,
            r.address matches Some(a) && a@ == MULTICAST_ADDRESS@,
            r.port == Some(MULTICAST_PORT),
    {
        Options {
            spec_version,
            network_interface: None,
            network_version: None,
            max_age: CACHE_CONTROL_MAX_AGE,
            packet_ttl: if spec_version == SpecVersion::V10 { 4 } else { 2 },
            product_and_version: None,
            address: Some(String::from_str(MULTICAST_ADDRESS)),
            port: Some(MULTICAST_PORT),
        }
    }
}

/// Whether some header of `hs` is the pair `(name, value)`.
pub open spec fn has_header(hs: Seq<(Seq<char>, Seq<char>)>, name: Seq<char>, value: Seq<char>) -> bool {
    exists|i: int| 0 <= i < hs.len() && hs[i] == (name, value)
}

/// Whether some header of `hs` is called `name`.
pub open spec fn names_header(hs: Seq<(Seq<char>, Seq<char>)>, name: Seq<char>) -> bool {
    exists|i: int| 0 <= i < hs.len() && #[trigger] hs[i].0 == name
}

proof fn lemma_header_names_differ()
    ensures
        HTTP_HEADER_NEXT_BOOTID@ != HTTP_HEADER_HOST@,
        HTTP_HEADER_NEXT_BOOTID@ != HTTP_HEADER_CACHE_CONTROL@,
        HTTP_HEADER_NEXT_BOOTID@ != HTTP_HEADER_LOCATION@,
        HTTP_HEADER_NEXT_BOOTID@ != HTTP_HEADER_NT@,
        HTTP_HEADER_NEXT_BOOTID@ != HTTP_HEADER_NTS@,
        HTTP_HEADER_NEXT_BOOTID@ != HTTP_HEADER_SERVER@,
        HTTP_HEADER_NEXT_BOOTID@ != HTTP_HEADER_USN@,
        HTTP_HEADER_NEXT_BOOTID@ != HTTP_HEADER_BOOTID@,
        HTTP_HEADER_NEXT_BOOTID@ != HTTP_HEADER_CONFIGID@,
        HTTP_HEADER_NEXT_BOOTID@ != HTTP_HEADER_SEARCH_PORT@,
        HTTP_HEADER_BOOTID@ != HTTP_HEADER_HOST@,
        HTTP_HEADER_BOOTID@ != HTTP_HEADER_CACHE_CONTROL@,
        HTTP_HEADER_BOOTID@ != HTTP_HEADER_LOCATION@,
        HTTP_HEADER_BOOTID@ != HTTP_HEADER_NT@,
        HTTP_HEADER_BOOTID@ != HTTP_HEADER_NTS@,
        HTTP_HEADER_BOOTID@ != HTTP_HEADER_SERVER@,
        HTTP_HEADER_BOOTID@ != HTTP_HEADER_USN@,
        HTTP_HEADER_CONFIGID@ != HTTP_HEADER_HOST@,
        HTTP_HEADER_CONFIGID@ != HTTP_HEADER_CACHE_CONTROL@,
        HTTP_HEADER_CONFIGID@ != HTTP_HEADER_LOCATION@,
        HTTP_HEADER_CONFIGID@ != HTTP_HEADER_NT@,
        HTTP_HEADER_CONFIGID@ != HTTP_HEADER_NTS@,
        HTTP_HEADER_CONFIGID@ != HTTP_HEADER_SERVER@,
        HTTP_HEADER_CONFIGID@ != HTTP_HEADER_USN@,
{
    reveal_strlit("NEXTBOOTID.UPNP.ORG");
    reveal_strlit("BOOTID.UPNP.ORG");
    reveal_strlit("CONFIGID.UPNP.ORG");
    reveal_strlit("SEARCHPORT.UPNP.ORG");
    reveal_strlit("HOST");
    reveal_strlit("CACHE-CONTROL");
    reveal_strlit("LOCATION");
    reveal_strlit("NT");
    reveal_strlit("NTS");
    reveal_strlit("SERVER");
    reveal_strlit("USN");
    assert(HTTP_HEADER_NEXT_BOOTID@[0] != HTTP_HEADER_SEARCH_PORT@[0]);
    assert(HTTP_HEADER_NEXT_BOOTID@.len() == 19);
    assert(HTTP_HEADER_BOOTID@.len() == 15);
    assert(HTTP_HEADER_CONFIGID@.len() == 17);
    assert(HTTP_HEADER_HOST@.len() == 4);
    assert(HTTP_HEADER_CACHE_CONTROL@.len() == 13);
    assert(HTTP_HEADER_LOCATION@.len() == 8);
    assert(HTTP_HEADER_NT@.len() == 2);
    assert(HTTP_HEADER_NTS@.len() == 3);
    assert(HTTP_HEADER_SERVER@.len() == 6);
    assert(HTTP_HEADER_USN@.len() == 3);
}

/// The update message carries the boot counter before the call in `BOOTID`
/// and the one after it in `NEXTBOOTID`; the alive and byebye messages carry
/// no `NEXTBOOTID` header at all.
pub proof fn lemma_next_boot_id_only_in_update(d: Device, o: Options)
    ensures
        has_header(update_headers(d, o), HTTP_HEADER_BOOTID@, decimal(d.boot_id as nat)),
        has_header(update_headers(d, o), HTTP_HEADER_NEXT_BOOTID@, decimal(d.boot_id as nat + 1)),
        !names_header(alive_headers(d, o), HTTP_HEADER_NEXT_BOOTID@),
        !names_header(byebye_headers(d, o), HTTP_HEADER_NEXT_BOOTID@),
{
    lemma_header_names_differ();
    assert(update_headers(d, o)[5] == hdr(HTTP_HEADER_BOOTID, decimal(d.boot_id as nat)));
    assert(update_headers(d, o)[6] == hdr(HTTP_HEADER_NEXT_BOOTID, decimal(d.boot_id as nat + 1)));
}

/// From revision 1.1 on, the alive and byebye messages carry the device's
/// `BOOTID` and `CONFIGID`; under 1.0 they carry neither header.
pub proof fn lemma_ids_from_v11(d: Device, o: Options)
    ensures
        o.spec_version.rank() >= SpecVersion::V11.rank() ==> {
            &&& has_header(alive_headers(d, o), HTTP_HEADER_BOOTID@, decimal(d.boot_id as nat))
            &&& has_header(alive_headers(d, o), HTTP_HEADER_CONFIGID@, decimal(d.config_id as nat))
            &&& has_header(byebye_headers(d, o), HTTP_HEADER_BOOTID@, decimal(d.boot_id as nat))
            &&& has_header(byebye_headers(d, o), HTTP_HEADER_CONFIGID@, decimal(d.config_id as nat))
        },
        o.spec_version == SpecVersion::V10 ==> {
            &&& !names_header(alive_headers(d, o), HTTP_HEADER_BOOTID@)
            &&& !names_header(alive_headers(d, o), HTTP_HEADER_CONFIGID@)
            &&& !names_header(byebye_headers(d, o), HTTP_HEADER_BOOTID@)
            &&& !names_header(byebye_headers(d, o), HTTP_HEADER_CONFIGID@)
        },
{
    lemma_header_names_differ();
    if o.spec_version.rank() >= SpecVersion::V11.rank() {
        assert(alive_headers(d, o)[7] == hdr(HTTP_HEADER_BOOTID, decimal(d.boot_id as nat)));
        assert(alive_headers(d, o)[8] == hdr(HTTP_HEADER_CONFIGID, decimal(d.config_id as nat)));
        assert(byebye_headers(d, o)[4] == hdr(HTTP_HEADER_BOOTID, decimal(d.boot_id as nat)));
        assert(byebye_headers(d, o)[5] == hdr(HTTP_HEADER_CONFIGID, decimal(d.config_id as nat)));
    }
}

/// Under revision 2.0 a device with a secure location ends its alive and
/// update messages with a `USN` header whose value is that location, which
/// takes the place of the ordinary `USN`.
pub proof fn lemma_secure_location_usn(d: Device, o: Options)
    requires
        o.spec_version == SpecVersion::V20,
        d.secure_location is Some,
    ensures
        alive_headers(d, o).last() == (HTTP_HEADER_USN@, d.secure_location->Some_0@),
        update_headers(d, o).last() == (HTTP_HEADER_USN@, d.secure_location->Some_0@),
{
}

} // verus!

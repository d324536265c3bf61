//! Fixed words of the protocol: methods, header names and header values.
use vstd::prelude::*;

verus! {

pub const HTTP_METHOD_NOTIFY: &'static str = "NOTIFY";
pub const HTTP_METHOD_SEARCH: &'static str = "M-SEARCH";

pub const HTTP_HEADER_HOST: &'static str = "HOST";
pub const HTTP_HEADER_CACHE_CONTROL: &'static str = "CACHE-CONTROL";
pub const HTTP_HEADER_LOCATION: &'static str = "LOCATION";
pub const HTTP_HEADER_NT: &'static str = "NT";
pub const HTTP_HEADER_NTS: &'static str = "NTS";
pub const HTTP_HEADER_SERVER: &'static str = "SERVER";
pub const HTTP_HEADER_USER_AGENT: &'static str = "USER-AGENT";
pub const HTTP_HEADER_USN: &'static str = "USN";
pub const HTTP_HEADER_ST: &'static str = "ST";
pub const HTTP_HEADER_MAN: &'static str = "MAN";
pub const HTTP_HEADER_MX: &'static str = "MX";
pub const HTTP_HEADER_BOOTID: &'static str = "BOOTID.UPNP.ORG";
pub const HTTP_HEADER_NEXT_BOOTID: &'static str = "NEXTBOOTID.UPNP.ORG";
pub const HTTP_HEADER_CONFIGID: &'static str = "CONFIGID.UPNP.ORG";
pub const HTTP_HEADER_SEARCH_PORT: &'static str = "SEARCHPORT.UPNP.ORG";

pub const NTS_ALIVE: &'static str = "ssdp:alive";
pub const NTS_UPDATE: &'static str = "ssdp:update";
pub const NTS_BYE: &'static str = "ssdp:byebye";
pub const MAN_DISCOVER: &'static str = "\"ssdp:discover\"";

/// The IPv4 multicast group of the protocol.
pub const MULTICAST_ADDRESS: &'static str = "239.255.255.250";
/// The port of the protocol.
pub const MULTICAST_PORT: u16 = 1900;

pub const XML_DECL_VERSION: &'static str = "1.0";
pub const XML_ATTR_NAMESPACE: &'static str = "xmlns";
pub const XML_ELEM_SPEC_VERSION: &'static str = "specVersion";
pub const XML_ELEM_MAJOR: &'static str = "major";
pub const XML_ELEM_MINOR: &'static str = "minor";

} // verus!

//! What a search looks for or a notification announces, and the caller-facing
//! notation for choosing one.
use vstd::prelude::*;
use crate::text::{has_prefix, starts_with, after, same_text, join2, join3};

verus! {

/// The domain of the standard UPnP device and service types.
pub const UPNP_DOMAIN: &'static str = "schemas-upnp-org";

/// The value of an `ST` or `NT` header.
#[derive(Clone, Debug)]
pub enum SearchTarget {
    All,
    RootDevice,
    Device(String),
    DeviceType(String),
    ServiceType(String),
    DomainDeviceType(String, String),
    DomainServiceType(String, String),
    Raw(String),
}

/// `urn:{domain}:{kind}:{name}:1`.
pub open spec fn urn(domain: Seq<char>, kind: Seq<char>, name: Seq<char>) -> Seq<char> {
    "urn:"@ + domain + ":"@ + kind + ":"@ + name + ":1"@
}

impl SearchTarget {
    /// The header value that stands for the target on the wire.
    pub open spec fn wire(&self) -> Seq<char> {
        match self {
            SearchTarget::All => "ssdp:all"@,
            SearchTarget::RootDevice => "upnp:rootdevice"@,
            SearchTarget::Device(id) => "uuid:"@ + id@,
            SearchTarget::DeviceType(t) => urn(UPNP_DOMAIN@, "device"@, t@),
            SearchTarget::ServiceType(t) => urn(UPNP_DOMAIN@, "service"@, t@),
            SearchTarget::DomainDeviceType(d, t) => urn(d@, "device"@, t@),
            SearchTarget::DomainServiceType(d, t) => urn(d@, "service"@, t@),
            SearchTarget::Raw(s) => s@,
        }
    }

    /// The header value that stands for the target on the wire.
    pub fn to_wire_string(&self) -> (r: String)
        ensures
            r@ == self.wire(),
    {
        match self {
            SearchTarget::All => String::from_str("ssdp:all"),
            SearchTarget::RootDevice => String::from_str("upnp:rootdevice"),
            SearchTarget::Device(id) => join2("uuid:", id.as_str()),
            SearchTarget::DeviceType(t) => make_urn(UPNP_DOMAIN, "device", t.as_str()),
            SearchTarget::ServiceType(t) => make_urn(UPNP_DOMAIN, "service", t.as_str()),
            SearchTarget::DomainDeviceType(d, t) => make_urn(d.as_str(), "device", t.as_str()),
            SearchTarget::DomainServiceType(d, t) => make_urn(d.as_str(), "service", t.as_str()),
            SearchTarget::Raw(s) => String::from_str(s.as_str()),
        }
    }
}

fn make_urn(domain: &str, kind: &str, name: &str) -> (r: String)
    ensures
        r@ == urn(domain@, kind@, name@),
{
    let a = join3("urn:", domain, ":");
    let b = join3(kind, ":", name);
    let r = join3(a.as_str(), b.as_str(), ":1");
    proof {
        assert(r@ =~= urn(domain@, kind@, name@));
    }
    r
}

/// Whatever the target, its wire form is a function of the target alone: equal
/// targets give equal strings, so asking twice gives the same answer.
pub proof fn lemma_wire_deterministic(a: SearchTarget, b: SearchTarget)
    requires
        a == b,
    ensures
        a.wire() == b.wire(),
{
}

/// A target as a user names it: `all`, `root`, `device:{id}`,
/// `device-type:{type}`, `service-type:{type}` or `raw:{text}`.
#[derive(Clone, Debug)]
pub enum CLSearchTarget {
    All,
    RootDevice,
    Device(String),
    DeviceType(String),
    ServiceType(String),
    Raw(String),
}

/// A fault in what a user asked for.
#[derive(Clone, Debug)]
pub enum CommandLineError {
    MissingParameter(String),
    UnexpectedParameter(String),
    InvalidParameterValue(String, String),
}

impl CommandLineError {
    /// The sentence that reports the fault to a user.
    pub open spec fn spec_message(&self) -> Seq<char> {
        match self {
            CommandLineError::MissingParameter(p) => "Parameter "@ + p@ + " required"@,
            CommandLineError::UnexpectedParameter(p) => "Parameter "@ + p@ + " unnecessary"@,
            CommandLineError::InvalidParameterValue(p, v) =>
                "Value '"@ + v@ + "' invalid for parameter "@ + p@,
        }
    }

    /// The sentence that reports the fault to a user.
    pub fn message(&self) -> (r: String)
        ensures
            r@ == self.spec_message(),
    {
        match self {
            CommandLineError::MissingParameter(p) => join3("Parameter ", p.as_str(), " required"),
            CommandLineError::UnexpectedParameter(p) => join3("Parameter ", p.as_str(), " unnecessary"),
            CommandLineError::InvalidParameterValue(p, v) => {
                let a = join3("Value '", v.as_str(), "' invalid for parameter ");
                join2(a.as_str(), p.as_str())
            },
        }
    }
}

/// The outcome of reading `s` as a user's target; the prefixes are tried in
/// the order `raw:`, `device:`, `device-type:`, `service-type:`.
pub open spec fn parsed_as(s: Seq<char>, r: Result<CLSearchTarget, CommandLineError>) -> bool {
    if s.len() == 0 {
        r matches Ok(CLSearchTarget::RootDevice)
    } else if s == "all"@ {
        r matches Ok(CLSearchTarget::All)
    } else if s == "root"@ {
        r matches Ok(CLSearchTarget::RootDevice)
    } else if has_prefix(s, "raw:"@) {
        r matches Ok(CLSearchTarget::Raw(x)) && x@ == s.skip("raw:"@.len() as int)
    } else if has_prefix(s, "device:"@) {
        r matches Ok(CLSearchTarget::Device(x)) && x@ == s.skip("device:"@.len() as int)
    } else if has_prefix(s, "device-type:"@) {
        r matches Ok(CLSearchTarget::DeviceType(x)) && x@ == s.skip("device-type:"@.len() as int)
    } else if has_prefix(s, "service-type:"@) {
        r matches Ok(CLSearchTarget::ServiceType(x)) && x@ == s.skip("service-type:"@.len() as int)
    } else {
        r matches Err(CommandLineError::InvalidParameterValue(p, v)) && p@ == "search_target"@ && v@ == s
    }
}

impl CLSearchTarget {
    /// Reads a target in the user's notation; the empty string stands for the
    /// root device.
    pub fn from_str(s: &str) -> (r: Result<CLSearchTarget, CommandLineError>)
        ensures
            parsed_as(s@, r),
    {
        if s.unicode_len() == 0 {
            Ok(CLSearchTarget::RootDevice)
        } else if same_text(s, "all") {
            Ok(CLSearchTarget::All)
        } else if same_text(s, "root") {
            Ok(CLSearchTarget::RootDevice)
        } else if starts_with(s, "raw:") {
            Ok(CLSearchTarget::Raw(after(s, "raw:".unicode_len())))
        } else if starts_with(s, "device:") {
            Ok(CLSearchTarget::Device(after(s, "device:".unicode_len())))
        } else if starts_with(s, "device-type:") {
            Ok(CLSearchTarget::DeviceType(after(s, "device-type:".unicode_len())))
        } else if starts_with(s, "service-type:") {
            Ok(CLSearchTarget::ServiceType(after(s, "service-type:".unicode_len())))
        } else {
            Err(CommandLineError::InvalidParameterValue(
                String::from_str("search_target"),
                String::from_str(s),
            ))
        }
    }

    /// The target to search for; a type qualified by `domain` when one is given.
    pub fn into_search_target(self, domain: Option<String>) -> (r: SearchTarget)
        ensures
            r == match self {
                CLSearchTarget::All => SearchTarget::All,
                CLSearchTarget::RootDevice => SearchTarget::RootDevice,
                CLSearchTarget::Device(d) => SearchTarget::Device(d),
                CLSearchTarget::DeviceType(t) => match domain {
                    Some(d) => SearchTarget::DomainDeviceType(d, t),
                    None => SearchTarget::DeviceType(t),
                },
                CLSearchTarget::ServiceType(t) => match domain {
                    Some(d) => SearchTarget::DomainServiceType(d, t),
                    None => SearchTarget::ServiceType(t),
                },
                CLSearchTarget::Raw(s) => SearchTarget::Raw(s),
            },
    {
        match self {
            CLSearchTarget::All => SearchTarget::All,
            CLSearchTarget::RootDevice => SearchTarget::RootDevice,
            CLSearchTarget::Device(d) => SearchTarget::Device(d),
            CLSearchTarget::DeviceType(t) => match domain {
                Some(d) => SearchTarget::DomainDeviceType(d, t),
                None => SearchTarget::DeviceType(t),
            },
            CLSearchTarget::ServiceType(t) => match domain {
                Some(d) => SearchTarget::DomainServiceType(d, t),
                None => SearchTarget::ServiceType(t),
            },
            CLSearchTarget::Raw(s) => SearchTarget::Raw(s),
        }
    }
}

/// The user's notation is not the wire notation: the wire form of `All`,
/// `ssdp:all`, is refused by the user-facing reader.
pub proof fn lemma_wire_is_not_user_notation(r: Result<CLSearchTarget, CommandLineError>)
    requires
        parsed_as(SearchTarget::All.wire(), r),
    ensures
        r is Err,
{
    reveal_strlit("ssdp:all");
    reveal_strlit("all");
    reveal_strlit("root");
    reveal_strlit("raw:");
    reveal_strlit("device:");
    reveal_strlit("device-type:");
    reveal_strlit("service-type:");
    let s = "ssdp:all"@;
    assert(s[0] == 's');
    assert(s != "all"@) by { assert(s.len() != "all"@.len()); }
    assert(s != "root"@) by { assert(s.len() != "root"@.len()); }
    assert(!has_prefix(s, "raw:"@)) by { assert(s.subrange(0, 4)[0] == 's'); }
    assert(!has_prefix(s, "device:"@)) by { assert(s.subrange(0, 7)[0] == 's'); }
    assert(!has_prefix(s, "device-type:"@));
    assert(!has_prefix(s, "service-type:"@));
}

} // verus!

//! The identity string that names this software in `SERVER` and
//! `USER-AGENT` headers.
use vstd::prelude::*;
use crate::text::{decimal, decimal_text, join2, join3};
use crate::version::SpecVersion;

verus! {

/// A product name and its version, written `name/version`.
#[derive(Clone, Debug)]
pub struct ProductVersion {
    pub name: String,
    pub version: String,
}

/// The platform part of the identity string.
pub const PLATFORM: &'static str = "Rust/1.0";
/// The product named when the caller names none.
pub const DEFAULT_PRODUCT: &'static str = "upnp-ssdp/0.1";

/// `{platform} UPnP/{major}.{minor} {product}/{version}`.
pub open spec fn identity(v: SpecVersion, product: Option<ProductVersion>) -> Seq<char> {
    PLATFORM@ + " UPnP/"@ + decimal(v.spec_major() as nat) + "."@ + decimal(v.spec_minor() as nat)
        + " "@ + match product {
        Some(p) => p.name@ + "/"@ + p.version@,
        None => DEFAULT_PRODUCT@,
    }
}

/// The identity string for the given revision and product.
pub fn user_agent_string(spec_version: SpecVersion, product: &Option<ProductVersion>) -> (r: String)
    ensures
        r@ == identity(spec_version, *product),
{
    let major = decimal_text(spec_version.major() as u64);
    let minor = decimal_text(spec_version.minor() as u64);
    let a = join3(PLATFORM, " UPnP/", major.as_str());
    let b = join3(a.as_str(), ".", minor.as_str());
    let c = join2(b.as_str(), " ");
    let r = match product {
        Some(p) => {
            let d = join3(p.name.as_str(), "/", p.version.as_str());
            join2(c.as_str(), d.as_str())
        },
        None => join2(c.as_str(), DEFAULT_PRODUCT),
    };
    proof {
        assert(r@ =~= identity(spec_version, *product));
    }
    r
}

} // verus!

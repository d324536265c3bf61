//! The search engine's decisions: the `M-SEARCH` query it multicasts, the
//! time left to collect replies, and the replies it keeps.
use vstd::prelude::*;
use crate::agent::{identity, user_agent_string, ProductVersion};
use crate::message::HttpuMessage;
use crate::notify::{hdr, IP};
use crate::syntax::{
    HTTP_HEADER_HOST, HTTP_HEADER_MAN, HTTP_HEADER_MX, HTTP_HEADER_ST, HTTP_HEADER_USER_AGENT,
    HTTP_METHOD_SEARCH, MAN_DISCOVER, MULTICAST_ADDRESS, MULTICAST_PORT,
};
use crate::target::SearchTarget;
use crate::text::{decimal, decimal_text, join3};
use crate::version::SpecVersion;
use crate::response::{find_in, parse_response, to_chars, HttpuResponse};
use crate::syntax::{HTTP_HEADER_LOCATION, HTTP_HEADER_SERVER, HTTP_HEADER_USN};

verus! {

/// How a search is written, sent and collected.
#[derive(Clone, Debug)]
pub struct Options {
    /// The revision that decides which headers are written.
    pub spec_version: SpecVersion,
    /// The interface to send from; all interfaces when `None`.
    pub network_interface: Option<String>,
    /// IPv4 or IPv6; either when `None`.
    pub network_version: Option<IP>,
    /// The multicast group; the protocol's when `None`.
    pub address: Option<String>,
    /// The multicast port; the protocol's when `None`.
    pub port: Option<u16>,
    /// The local port to bind; one the system picks when `None`.
    pub bind_port: Option<u16>,
    /// What to search for.
    pub search_target: SearchTarget,
    /// How long, in seconds, to collect replies; also the `MX` header.
    pub max_wait_time: u8,
    /// The product named in the `USER-AGENT` header; this library when `None`.
    pub product_and_version: Option<ProductVersion>,
}

/// Why a search was not started.
#[derive(Clone, Debug, PartialEq, Eq)]
pub enum SearchError {
    /// The wait time is zero, which no `MX` header may hold.
    InvalidMaxWaitTime,
}

/// The default time to collect replies, in seconds.
pub const DEFAULT_MAX_WAIT_TIME: u8 = 2;

impl Options {
    /// The options for a revision: the root device as target, a wait of two
    /// seconds, the protocol's multicast group and port, and nothing else set.
    pub fn default_for(spec_version: SpecVersion) -> (r: Options)
        ensures
            r.spec_version == spec_version,
            r.network_interface is None,
            r.network_version is None,
            r.address matches Some(a) && a@ == MULTICAST_ADDRESS@,
            r.port == Some(MULTICAST_PORT),
            r.bind_port is None,
            r.search_target is RootDevice,
            r.max_wait_time == DEFAULT_MAX_WAIT_TIME,
            r.product_and_version is None,
    {
        Options {
            spec_version,
            network_interface: None,
            network_version: None,
            address: Some(String::from_str(MULTICAST_ADDRESS)),
            port: Some(MULTICAST_PORT),
            bind_port: None,
            search_target: SearchTarget::RootDevice,
            max_wait_time: DEFAULT_MAX_WAIT_TIME,
            product_and_version: None,
        }
    }
}

/// The multicast group the options name, with the protocol's defaults.
pub open spec fn search_destination(o: Options) -> Seq<char> {
    (match o.address {
        Some(a) => a@,
        None => MULTICAST_ADDRESS@,
    }) + ":"@ + decimal(
        match o.port {
            Some(p) => p,
            None => MULTICAST_PORT,
        } as nat,
    )
}

/// The headers of the `M-SEARCH` query, in order; from 1.1 on it names the
/// client in `USER-AGENT`.
pub open spec fn search_headers(o: Options) -> Seq<(Seq<char>, Seq<char>)> {
    seq![
        hdr(HTTP_HEADER_HOST, search_destination(o)),
        hdr(HTTP_HEADER_MAN, MAN_DISCOVER@),
        hdr(HTTP_HEADER_MX, decimal(o.max_wait_time as nat)),
        hdr(HTTP_HEADER_ST, o.search_target.wire()),
    ] + if o.spec_version.rank() >= SpecVersion::V11.rank() {
        seq![hdr(HTTP_HEADER_USER_AGENT, identity(o.spec_version, o.product_and_version))]
    } else {
        Seq::empty()
    }
}

/// The `host:port` of the multicast group the options name.
pub fn search_address(options: &Options) -> (r: String)
    ensures
        r@ == search_destination(*options),
{
    let port = match options.port {
        Some(p) => p,
        None => MULTICAST_PORT,
    };
    let p = decimal_text(port as u64);
    match &options.address {
        Some(a) => join3(a.as_str(), ":", p.as_str()),
        None => join3(MULTICAST_ADDRESS, ":", p.as_str()),
    }
}

/// The `M-SEARCH` query for the options; a wait time of zero is refused.
pub fn search_message(options: &Options) -> (r: Result<HttpuMessage, SearchError>)
    ensures
        options.max_wait_time == 0 <==> r == Err::<HttpuMessage, SearchError>(
            SearchError::InvalidMaxWaitTime,
        ),
        r matches Ok(m) ==> m@ == (HTTP_METHOD_SEARCH@, search_headers(*options)),
{
    if options.max_wait_time == 0 {
        return Err(SearchError::InvalidMaxWaitTime);
    }
    let mut m = HttpuMessage::new(HTTP_METHOD_SEARCH);
    let host = search_address(options);
    m.add_header(HTTP_HEADER_HOST, host.as_str());
    m.add_header(HTTP_HEADER_MAN, MAN_DISCOVER);
    let mx = decimal_text(options.max_wait_time as u64);
    m.add_header(HTTP_HEADER_MX, mx.as_str());
    let st = options.search_target.to_wire_string();
    m.add_header(HTTP_HEADER_ST, st.as_str());
    if options.spec_version.at_least(SpecVersion::V11) {
        let agent = user_agent_string(options.spec_version, &options.product_and_version);
        m.add_header(HTTP_HEADER_USER_AGENT, agent.as_str());
    }
    assert(m@.1 =~= search_headers(*options));
    Ok(m)
}

/// The instant, in milliseconds, at which a search begun at `start_ms` stops
/// collecting replies.
pub fn search_deadline(start_ms: u64, max_wait_time: u8) -> (r: Option<u64>)
    ensures
        r == (if start_ms + 1000 * max_wait_time <= u64::MAX {
            Some((start_ms + 1000 * max_wait_time) as u64)
        } else {
            None::<u64>
        }),
{
    start_ms.checked_add(1000 * max_wait_time as u64)
}

/// How long, in milliseconds, a search may still wait for a reply at
/// `now_ms`; `None` once the deadline has passed. Time spent on a reply that
/// is then discarded counts against the same deadline.
pub fn remaining_wait(deadline_ms: u64, now_ms: u64) -> (r: Option<u64>)
    ensures
        now_ms < deadline_ms ==> r == Some((deadline_ms - now_ms) as u64),
        now_ms >= deadline_ms ==> r is None,
{
    if now_ms < deadline_ms {
        Some(deadline_ms - now_ms)
    } else {
        None
    }
}

/// The three versions a `SERVER` header names:
/// `{platform} UPnP/{upnp} {product}/{version}`.
#[derive(Clone, Debug)]
pub struct ProductVersions {
    pub product_version: String,
    pub upnp_version: String,
    pub platform_version: String,
}

impl ProductVersions {
    /// The version of the responding product.
    pub fn product_version(&self) -> (r: &str)
        ensures
            r@ == self.product_version@,
    {
        self.product_version.as_str()
    }

    /// The UPnP version the responder implements.
    pub fn upnp_version(&self) -> (r: &str)
        ensures
            r@ == self.upnp_version@,
    {
        self.upnp_version.as_str()
    }

    /// The responder's platform, name and version.
    pub fn platform_version(&self) -> (r: &str)
        ensures
            r@ == self.platform_version@,
    {
        self.platform_version.as_str()
    }
}

/// A device or service that answered a search.
#[derive(Clone, Debug)]
pub struct SearchResponse {
    pub service_name: String,
    pub location: String,
    pub versions: ProductVersions,
}

/// `c` with ASCII lower case letters raised, as a code point.
pub open spec fn fold(c: char) -> u32 {
    if 'a' <= c && c <= 'z' { (c as u32 - 32) as u32 } else { c as u32 }
}

/// Header names are equal when they differ at most in ASCII case.
pub open spec fn same_name(a: Seq<char>, b: Seq<char>) -> bool {
    a.len() == b.len() && forall|k: int| 0 <= k < a.len() ==> fold(#[trigger] a[k]) == fold(b[k])
}

/// The position of the first header from `i` on called `name`, or the
/// number of headers.
pub open spec fn header_index(hs: Seq<(Seq<char>, Seq<char>)>, name: Seq<char>, i: int) -> int
    decreases hs.len() - i,
{
    if i < 0 || i >= hs.len() {
        hs.len() as int
    } else if same_name(hs[i].0, name) {
        i
    } else {
        header_index(hs, name, i + 1)
    }
}

/// The value of the first header called `name`.
pub open spec fn header_value(hs: Seq<(Seq<char>, Seq<char>)>, name: Seq<char>) -> Option<Seq<char>> {
    let k = header_index(hs, name, 0);
    if 0 <= k < hs.len() { Some(hs[k].1) } else { None }
}

/// The part of `v[a..b]` after its first `/`, or all of it.
pub open spec fn after_slash(v: Seq<char>, a: int, b: int) -> Seq<char> {
    let k = find_in(v, a, b, '/');
    if k < b { v.subrange(k + 1, b) } else { v.subrange(a, b) }
}

/// The (product, UPnP, platform) versions a `SERVER` value names: the
/// platform is the first word, the UPnP version follows the `/` of the
/// second, and the product version the `/` of the rest. `None` when the
/// value has fewer than three words.
pub open spec fn server_versions(v: Seq<char>) -> Option<(Seq<char>, Seq<char>, Seq<char>)> {
    let n = v.len() as int;
    let s1 = find_in(v, 0, n, ' ');
    let s2 = find_in(v, s1 + 1, n, ' ');
    if s1 < n && s2 < n {
        Some((after_slash(v, s2 + 1, n), after_slash(v, s1 + 1, s2), v.subrange(0, s1)))
    } else {
        None
    }
}

/// What a reply tells of the responder: its `USN`, `LOCATION` and `SERVER`
/// versions, or `None` when one of them is missing or unreadable.
pub open spec fn reply_of(hs: Seq<(Seq<char>, Seq<char>)>) -> Option<
    (Seq<char>, Seq<char>, (Seq<char>, Seq<char>, Seq<char>)),
> {
    match (header_value(hs, HTTP_HEADER_USN@), header_value(hs, HTTP_HEADER_LOCATION@)) {
        (Some(usn), Some(loc)) => match header_value(hs, HTTP_HEADER_SERVER@) {
            Some(server) => match server_versions(server) {
                Some(vs) => Some((usn, loc, vs)),
                None => None,
            },
            None => None,
        },
        _ => None,
    }
}

impl SearchResponse {
    /// The service name, the location, and the (product, UPnP, platform)
    /// versions.
    pub open spec fn model(&self) -> (Seq<char>, Seq<char>, (Seq<char>, Seq<char>, Seq<char>)) {
        (
            self.service_name@,
            self.location@,
            (
                self.versions.product_version@,
                self.versions.upnp_version@,
                self.versions.platform_version@,
            ),
        )
    }
}

fn fold_exec(c: char) -> (r: u32)
    ensures
        r == fold(c),
{
    if 'a' <= c && c <= 'z' { c as u32 - 32 } else { c as u32 }
}

fn names_equal(a: &str, b: &str) -> (r: bool)
    ensures
        r == same_name(a@, b@),
{
    let x = to_chars(a);
    let y = to_chars(b);
    if x.len() != y.len() {
        return false;
    }
    let mut k: usize = 0;
    while k < x.len()
        invariant
            x@ == a@,
            y@ == b@,
            x@.len() == y@.len(),
            k <= x@.len(),
            forall|m: int| 0 <= m < k ==> fold(#[trigger] x@[m]) == fold(y@[m]),
        decreases x.len() - k,
    {
        if fold_exec(x[k]) != fold_exec(y[k]) {
            return false;
        }
        k = k + 1;
    }
    true
}

fn find_header(resp: &HttpuResponse, name: &str) -> (r: Option<String>)
    ensures
        r matches Some(v) ==> header_value(resp@.1, name@) == Some(v@),
        r is None ==> header_value(resp@.1, name@) is None,
{
    let n = resp.header_count();
    let mut i: usize = 0;
    while i < n
        invariant
            n == resp@.1.len(),
            i <= n,
            header_index(resp@.1, name@, 0) == header_index(resp@.1, name@, i as int),
        decreases n - i,
    {
        let (h, v) = resp.header(i);
        if names_equal(h, name) {
            return Some(String::from_str(v));
        }
        i = i + 1;
    }
    None
}

fn slash_tail(text: &str, v: &Vec<char>, a: usize, b: usize) -> (r: String)
    requires
        v@ == text@,
        a <= b <= v@.len(),
    ensures
        r@ == after_slash(v@, a as int, b as int),
{
    let mut k = a;
    while k < b
        invariant
            a <= k <= b,
            b <= v@.len(),
            v@ == text@,
            find_in(v@, a as int, b as int, '/') == find_in(v@, k as int, b as int, '/'),
        decreases b - k,
    {
        if v[k] == '/' {
            return String::from_str(text.substring_char(k + 1, b));
        }
        k = k + 1;
    }
    String::from_str(text.substring_char(a, b))
}

fn space_at(v: &Vec<char>, a: usize) -> (r: usize)
    requires
        a <= v@.len(),
    ensures
        r == find_in(v@, a as int, v@.len() as int, ' '),
        a <= r <= v@.len(),
{
    let mut k = a;
    while k < v.len()
        invariant
            a <= k <= v@.len(),
            find_in(v@, a as int, v@.len() as int, ' ') == find_in(v@, k as int, v@.len() as int, ' '),
        decreases v.len() - k,
    {
        if v[k] == ' ' {
            return k;
        }
        k = k + 1;
    }
    k
}

impl ProductVersions {
    /// Reads the versions a `SERVER` header value names; `None` when it has
    /// fewer than three words.
    pub fn from_server(value: &str) -> (r: Option<ProductVersions>)
        ensures
            match server_versions(value@) {
                Some(t) => r matches Some(p) && t == (
                    p.product_version@,
                    p.upnp_version@,
                    p.platform_version@,
                ),
                None => r is None,
            },
    {
        let v = to_chars(value);
        let n = v.len();
        let s1 = space_at(&v, 0);
        if s1 >= n {
            return None;
        }
        let s2 = space_at(&v, s1 + 1);
        if s2 >= n {
            return None;
        }
        Some(ProductVersions {
            product_version: slash_tail(value, &v, s2 + 1, n),
            upnp_version: slash_tail(value, &v, s1 + 1, s2),
            platform_version: String::from_str(value.substring_char(0, s1)),
        })
    }
}

impl SearchResponse {
    /// The responder a parsed reply describes; `None` when the reply lacks a
    /// `USN`, `LOCATION` or readable `SERVER` header. Header names are matched
    /// without regard to ASCII case, and the first of a name counts.
    pub fn from_response(resp: &HttpuResponse) -> (r: Option<SearchResponse>)
        ensures
            match reply_of(resp@.1) {
                Some(t) => r matches Some(sr) && sr.model() == t,
                None => r is None,
            },
    {
        let usn = find_header(resp, HTTP_HEADER_USN);
        let loc = find_header(resp, HTTP_HEADER_LOCATION);
        match (usn, loc) {
            (Some(service_name), Some(location)) => match find_header(resp, HTTP_HEADER_SERVER) {
                Some(server) => match ProductVersions::from_server(server.as_str()) {
                    Some(versions) => Some(SearchResponse { service_name, location, versions }),
                    None => None,
                },
                None => None,
            },
            _ => None,
        }
    }
}

/// The responder a received datagram describes, or `None` when the datagram
/// is malformed or says too little.
pub open spec fn decoded(datagram: Seq<char>) -> Option<
    (Seq<char>, Seq<char>, (Seq<char>, Seq<char>, Seq<char>)),
> {
    match crate::response::parsed(datagram) {
        Ok((_, hs)) => reply_of(hs),
        Err(_) => None,
    }
}

/// Takes one datagram received during a search: a reply that describes a
/// responder is appended after those collected so far; any other is
/// discarded and leaves them as they were.
pub fn collect_reply(responses: &mut Vec<SearchResponse>, datagram: &str)
    ensures
        match decoded(datagram@) {
            Some(t) => final(responses)@.len() == old(responses)@.len() + 1
                && final(responses)@.take(old(responses)@.len() as int) == old(responses)@
                && final(responses)@.last().model() == t,
            None => final(responses)@ == old(responses)@,
        },
{
    match parse_response(datagram) {
        Ok(resp) => {
            match SearchResponse::from_response(&resp) {
                Some(sr) => {
                    responses.push(sr);
                    assert(final(responses)@.take(old(responses)@.len() as int) =~= old(responses)@);
                },
                None => {},
            }
        },
        Err(_) => {},
    }
}

} // verus!

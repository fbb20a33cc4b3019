//! SIP URIs and addresses, where a call is sent, and the address of a trunk.

use crate::text;
use vstd::prelude::*;

verus! {

/// A SIP URI: scheme, user part, host, port, parameters as written, and headers.
#[derive(PartialEq, Eq, Debug)]
pub struct SipUri {
    pub scheme: Option<String>,
    pub auth: Option<String>,
    pub host: String,
    pub port: Option<u16>,
    pub params: String,
    pub headers: Vec<(String, String)>,
}

/// What a URI holds.
#[verifier::ext_equal]
pub struct UriView {
    pub scheme: Option<Seq<char>>,
    pub auth: Option<Seq<char>>,
    pub host: Seq<char>,
    pub port: Option<u16>,
    pub params: Seq<char>,
    pub headers: Seq<(Seq<char>, Seq<char>)>,
}

pub open spec fn pair_views(v: Seq<(String, String)>) -> Seq<(Seq<char>, Seq<char>)> {
    v.map_values(|p: (String, String)| (p.0@, p.1@))
}

impl View for SipUri {
    type V = UriView;

    open spec fn view(&self) -> UriView {
        UriView {
            scheme: text::opt_text(self.scheme),
            auth: text::opt_text(self.auth),
            host: self.host@,
            port: self.port,
            params: self.params@,
            headers: pair_views(self.headers@),
        }
    }
}

/// What `rsipstack` reads out of a text as a SIP URI, where it can.
pub uninterp spec fn parsed_uri(s: Seq<char>) -> Option<UriView>;

/// `rsipstack::sip::Uri::try_from`: the URI that the text writes, taken apart; the
/// user part, the host and the parameters are given as `rsipstack` writes them. What the
/// text of an error says is left open.
#[verifier::external_body]
fn parse_uri(s: &str) -> (r: Result<SipUri, String>)
    ensures
        r is Ok <==> parsed_uri(s@) is Some,
        r matches Ok(u) ==> parsed_uri(s@) == Some(u@),
{
    let uri = rsipstack::sip::Uri::try_from(s).map_err(|e| e.to_string())?;
    Ok(SipUri {
        scheme: uri.scheme.map(|scheme| scheme.to_string()),
        auth: uri.auth.map(|auth| auth.to_string()),
        host: uri.host_with_port.host.to_string(),
        port: uri.host_with_port.port.map(|port| port.0),
        params: uri.params.iter().map(|param| param.to_string()).collect(),
        headers: uri.headers,
    })
}

pub fn clone_pairs(v: &Vec<(String, String)>) -> (r: Vec<(String, String)>)
    ensures
        r@ == v@,
{
    let mut r: Vec<(String, String)> = Vec::new();
    let mut i: usize = 0;
    while i < v.len()
        invariant
            i <= v@.len(),
            r@ == v@.subrange(0, i as int),
        decreases v@.len() - i,
    {
        r.push((v[i].0.clone(), v[i].1.clone()));
        i += 1;
    }
    r
}

/// `host:port` as it is written, or the host alone.
pub open spec fn host_port_text(host: Seq<char>, port: Option<u16>) -> Seq<char> {
    match port {
        Some(p) => host + ":"@ + text::decimal(p as nat),
        None => host,
    }
}

pub fn write_host_port(host: &str, port: Option<u16>) -> (r: String)
    ensures
        r@ == host_port_text(host@, port),
{
    match port {
        Some(p) => {
            let digits = text::decimal_text(p as u64);
            text::concat3(host, ":", &digits)
        },
        None => host.to_owned(),
    }
}

pub open spec fn header_texts(headers: Seq<(Seq<char>, Seq<char>)>) -> Seq<Seq<char>> {
    headers.map_values(|h: (Seq<char>, Seq<char>)| h.0 + "="@ + h.1)
}

impl UriView {
    /// The URI as text.
    pub open spec fn text(self) -> Seq<char> {
        let scheme = match self.scheme {
            Some(s) => s + ":"@,
            None => Seq::empty(),
        };
        let auth = match self.auth {
            Some(a) => a + "@"@,
            None => Seq::empty(),
        };
        let query = if self.headers.len() > 0 {
            "?"@ + text::joined(header_texts(self.headers), "&"@)
        } else {
            Seq::empty()
        };
        scheme + auth + host_port_text(self.host, self.port) + self.params + query
    }
}

impl SipUri {
    /// The URI that a text writes.
    pub fn parse(s: &str) -> (r: Option<SipUri>)
        ensures
            r is Some <==> parsed_uri(s@) is Some,
            r matches Some(u) ==> parsed_uri(s@) == Some(u@),
    {
        match parse_uri(s) {
            Ok(uri) => Some(uri),
            Err(_) => None,
        }
    }

    /// The URI that a text writes, or what is wrong with the text.
    pub fn read(s: &str) -> (r: Result<SipUri, String>)
        ensures
            r is Ok <==> parsed_uri(s@) is Some,
            r matches Ok(u) ==> parsed_uri(s@) == Some(u@),
    {
        parse_uri(s)
    }

    pub fn duplicate(&self) -> (r: SipUri)
        ensures
            r@ == self@,
    {
        SipUri {
            scheme: self.scheme.clone(),
            auth: self.auth.clone(),
            host: self.host.clone(),
            port: self.port,
            params: self.params.clone(),
            headers: clone_pairs(&self.headers),
        }
    }

    /// The URI as text.
    pub fn to_text(&self) -> (r: String)
        ensures
            r@ == self@.text(),
    {
        let mut r = String::new();
        if let Some(s) = &self.scheme {
            r.append(s);
            r.append(":");
        }
        let ghost scheme = r@;
        assert(self.scheme is Some ==> scheme =~= self.scheme->0@ + ":"@);
        if let Some(a) = &self.auth {
            r.append(a);
            r.append("@");
        }
        let ghost auth = match self@.auth {
            Some(a) => a + "@"@,
            None => Seq::empty(),
        };
        assert(r@ =~= scheme + auth);
        let address = write_host_port(&self.host, self.port);
        r.append(&address);
        r.append(&self.params);
        if self.headers.len() > 0 {
            let mut parts: Vec<String> = Vec::new();
            let mut i: usize = 0;
            let ghost all = header_texts(self@.headers);
            assert(text::views(parts@) =~= all.subrange(0, 0));
            while i < self.headers.len()
                invariant
                    i <= self.headers@.len(),
                    all == header_texts(self@.headers),
                    text::views(parts@) == all.subrange(0, i as int),
                decreases self.headers@.len() - i,
            {
                let ghost old_parts = parts@;
                let part = text::concat3(&self.headers[i].0, "=", &self.headers[i].1);
                let ghost p = part@;
                parts.push(part);
                proof {
                    assert(p == all[i as int]);
                    assert(text::views(parts@) =~= text::views(old_parts).push(p));
                    assert(all.subrange(0, i + 1) =~= all.subrange(0, i as int).push(all[i as int]));
                }
                i += 1;
            }
            assert(all.subrange(0, all.len() as int) =~= all);
            let query = text::join(&parts, "&");
            r.append("?");
            r.append(&query);
        }
        assert(r@ =~= self@.text());
        r
    }
}

/// The transport of a SIP address.
#[derive(Clone, Copy, PartialEq, Eq, Debug, Structural)]
pub enum Transport {
    Udp,
    Tcp,
    Tls,
    TlsSctp,
    Sctp,
    Ws,
    Wss,
}

/// A transport address.
pub struct SipAddr {
    pub transport: Option<Transport>,
    pub host: String,
    pub port: Option<u16>,
}

impl SipAddr {
    /// The address as written, without the transport.
    pub open spec fn address(self) -> Seq<char> {
        host_port_text(self.host@, self.port)
    }

    pub fn address_text(&self) -> (r: String)
        ensures
            r@ == self.address(),
    {
        write_host_port(&self.host, self.port)
    }
}

impl Clone for SipAddr {
    fn clone(&self) -> (r: Self)
        ensures
            r == *self,
    {
        SipAddr { transport: self.transport, host: self.host.clone(), port: self.port }
    }
}

/// Where a target can be reached, and how it registered.
pub struct Location {
    pub aor: SipUri,
    pub registered_aor: Option<SipUri>,
    pub contact_raw: Option<String>,
    pub destination: Option<SipAddr>,
    pub home_proxy: Option<SipAddr>,
    pub supports_webrtc: bool,
    pub headers: Vec<(String, String)>,
    pub credential: Option<String>,
}

impl Location {
    /// Nothing is known but the address and what was registered as the contact.
    pub open spec fn is_bare_but_contact(self) -> bool {
        &&& self.registered_aor is None
        &&& self.destination is None
        &&& self.home_proxy is None
        &&& !self.supports_webrtc
        &&& self.headers@.len() == 0
        &&& self.credential is None
    }

    /// Nothing is known but the address.
    pub open spec fn is_bare(self) -> bool {
        self.is_bare_but_contact() && self.contact_raw is None
    }

    /// A location of which only the address is known.
    pub fn bare(aor: SipUri) -> (r: Location)
        ensures
            r.aor == aor,
            r.is_bare(),
    {
        Location {
            aor,
            registered_aor: None,
            contact_raw: None,
            destination: None,
            home_proxy: None,
            supports_webrtc: false,
            headers: Vec::new(),
            credential: None,
        }
    }
}

/// One of the local addresses is the home proxy's; the transport does not matter.
pub open spec fn is_local(local_addrs: Seq<SipAddr>, home_proxy: SipAddr) -> bool {
    exists|i: int| 0 <= i < local_addrs.len() && (#[trigger] local_addrs[i]).address() == home_proxy.address()
}

pub fn is_local_home_proxy(local_addrs: &Vec<SipAddr>, home_proxy: &SipAddr) -> (r: bool)
    ensures
        r == is_local(local_addrs@, *home_proxy),
{
    let home = home_proxy.address_text();
    let mut i: usize = 0;
    while i < local_addrs.len()
        invariant
            i <= local_addrs@.len(),
            home@ == home_proxy.address(),
            forall|j: int|
                0 <= j < i ==> (#[trigger] local_addrs@[j]).address() != home_proxy.address(),
        decreases local_addrs@.len() - i,
    {
        if local_addrs[i].address_text() == home {
            assert(local_addrs@[i as int].address() == home_proxy.address());
            return true;
        }
        i += 1;
    }
    false
}

/// In a cluster, the target is reached through a home proxy that is another node.
pub open spec fn routes_via_home_proxy(target: Location, local_addrs: Seq<SipAddr>, cluster_enabled: bool) -> bool {
    cluster_enabled && target.home_proxy is Some && !is_local(local_addrs, target.home_proxy->0)
}

pub fn route_via_home_proxy(target: &Location, local_addrs: &Vec<SipAddr>, cluster_enabled: bool) -> (r: bool)
    ensures
        r == routes_via_home_proxy(*target, local_addrs@, cluster_enabled),
{
    if !cluster_enabled {
        return false;
    }
    match &target.home_proxy {
        Some(home_proxy) => !is_local_home_proxy(local_addrs, home_proxy),
        None => false,
    }
}

/// The request URI of the INVITE: through a home proxy the registered address, at
/// the host and port of that proxy; else the contact.
pub open spec fn outbound_uri(target: Location, via_home_proxy: bool) -> UriView {
    match target.registered_aor {
        Some(registered) if via_home_proxy => match target.home_proxy {
            Some(home) => UriView { host: home.host@, port: home.port, ..registered@ },
            None => registered@,
        },
        _ => target.aor@,
    }
}

pub fn resolve_outbound_callee_uri(target: &Location, route_via_home_proxy: bool) -> (r: SipUri)
    ensures
        r@ == outbound_uri(*target, route_via_home_proxy),
{
    if route_via_home_proxy {
        if let Some(registered) = &target.registered_aor {
            let mut uri = registered.duplicate();
            if let Some(home_proxy) = &target.home_proxy {
                uri.host = home_proxy.host.clone();
                uri.port = home_proxy.port;
            }
            return uri;
        }
    }
    target.aor.duplicate()
}

/// The user part of the request URI never changes on the way through a home proxy:
/// only host and port do, and only there.
pub proof fn outbound_uri_keeps_user(target: Location)
    ensures
        outbound_uri(target, false) == target.aor@,
        target.registered_aor matches Some(registered) ==> {
            let uri = outbound_uri(target, true);
            uri.scheme == registered@.scheme && uri.auth == registered@.auth && uri.params
                == registered@.params && uri.headers == registered@.headers
        },
{
}

/// The port of SIP where none is given.
pub const DEFAULT_SIP_PORT: u16 = 5060;

/// Host and port of a trunk destination, of which `uri` is what it writes as a URI.
pub open spec fn host_and_port(dest: Seq<char>, uri: Option<UriView>) -> Option<(Seq<char>, u16)> {
    if text::trimmed(dest).len() == 0 {
        None
    } else {
        match uri {
            Some(u) => Some(
                (
                    u.host,
                    match u.port {
                        Some(p) => p,
                        None => DEFAULT_SIP_PORT,
                    },
                ),
            ),
            None => {
                let parts = text::split(dest, ':');
                if parts[0].len() == 0 {
                    None
                } else if parts.len() > 1 && text::parsed(parts[1], 0xFFFF) is Some {
                    Some((parts[0], text::parsed(parts[1], 0xFFFF)->0 as u16))
                } else {
                    Some((parts[0], DEFAULT_SIP_PORT))
                }
            },
        }
    }
}

/// Host and port of a trunk destination, given what it writes as a SIP URI: those of
/// the URI, or of a bare `host:port`.
pub fn trunk_host_port_from(dest: &str, uri: Option<SipUri>) -> (r: Option<(String, u16)>)
    ensures
        ({
            let view = match uri {
                Some(u) => Some(u@),
                None => None,
            };
            &&& r is Some <==> host_and_port(dest@, view) is Some
            &&& r matches Some((host, port)) ==> host_and_port(dest@, view) == Some((host@, port))
        }),
{
    if text::trim(dest).as_str().is_empty() {
        return None;
    }
    if let Some(u) = uri {
        let port = match u.port {
            Some(p) => p,
            None => DEFAULT_SIP_PORT,
        };
        return Some((u.host, port));
    }
    let parts = text::split_on(dest, ':');
    assert(text::split(dest@, ':').len() == parts@.len());
    assert(text::views(parts@)[0] == parts@[0]@);
    if parts[0].as_str().is_empty() {
        return None;
    }
    let mut port: u16 = DEFAULT_SIP_PORT;
    if parts.len() > 1 {
        assert(text::views(parts@)[1] == parts@[1]@);
        if let Some(p) = text::parse_u16(&parts[1]) {
            port = p;
        }
    }
    Some((parts[0].clone(), port))
}

/// Host and port of a trunk destination: a SIP URI or a bare `host:port`.
pub fn trunk_host_port(dest: &str) -> (r: Option<(String, u16)>)
    ensures
        r is Some <==> host_and_port(dest@, parsed_uri(dest@)) is Some,
        r matches Some((host, port)) ==> host_and_port(dest@, parsed_uri(dest@)) == Some((host@, port)),
{
    let uri = SipUri::parse(dest);
    trunk_host_port_from(dest, uri)
}

/// Only a blank destination, or a bare one that starts with the port separator, has
/// no host.
pub proof fn blank_destination_has_no_host(dest: Seq<char>, uri: Option<UriView>)
    ensures
        text::trimmed(dest).len() == 0 ==> host_and_port(dest, uri) is None,
        host_and_port(dest, uri) is None ==> text::trimmed(dest).len() == 0 || (uri is None && text::split(
            dest,
            ':',
        )[0].len() == 0),
{
}

/// The addresses that can be read as SIP URIs, in order.
pub open spec fn parsed_targets(targets: Seq<Seq<char>>) -> Seq<UriView>
    decreases targets.len(),
{
    if targets.len() == 0 {
        Seq::empty()
    } else {
        let before = parsed_targets(targets.drop_last());
        match parsed_uri(targets.last()) {
            Some(u) => before.push(u),
            None => before,
        }
    }
}

pub open spec fn aors(v: Seq<Location>) -> Seq<UriView> {
    v.map_values(|l: Location| l.aor@)
}

/// The dial locations for the SIP URIs among the targets of a call graph.
pub fn graph_targets_to_locations(targets: &Vec<String>) -> (r: Vec<Location>)
    ensures
        aors(r@) == parsed_targets(text::views(targets@)),
        forall|i: int| 0 <= i < r@.len() ==> (#[trigger] r@[i]).is_bare(),
{
    let mut r: Vec<Location> = Vec::new();
    let mut i: usize = 0;
    let ghost all = text::views(targets@);
    proof {
        assert(all.subrange(0, 0) =~= Seq::empty());
        assert(aors(r@) =~= Seq::empty());
    }
    while i < targets.len()
        invariant
            i <= targets@.len(),
            all == text::views(targets@),
            aors(r@) == parsed_targets(all.subrange(0, i as int)),
            forall|j: int| 0 <= j < r@.len() ==> (#[trigger] r@[j]).is_bare(),
        decreases targets@.len() - i,
    {
        proof {
            assert(all.subrange(0, i + 1).drop_last() =~= all.subrange(0, i as int));
            assert(all.subrange(0, i + 1).last() == targets@[i as int]@);
        }
        if let Some(uri) = SipUri::parse(&targets[i]) {
            let ghost old_r = r@;
            let ghost u = uri@;
            r.push(Location::bare(uri));
            assert(aors(r@) =~= aors(old_r).push(u));
        }
        i += 1;
    }
    assert(all.subrange(0, all.len() as int) =~= all);
    r
}

/// What `urlencoding` makes of a percent-encoded text, where it can.
pub uninterp spec fn url_decoded(s: Seq<char>) -> Option<Seq<char>>;

/// `urlencoding::decode`: the text that is percent-encoded here, where it is one. A text
/// without a percent sign stands for itself.
#[verifier::external_body]
fn url_decode(s: &str) -> (r: Option<String>)
    ensures
        r is Some <==> url_decoded(s@) is Some,
        r matches Some(t) ==> url_decoded(s@) == Some(t@),
        (r is Some && r->0@ == s@) || s@.contains('%'),
{
    match urlencoding::decode(s) {
        Ok(text) => Some(text.into_owned()),
        Err(_) => None,
    }
}

/// The text with blanks for its plus signs.
pub open spec fn spaced(s: Seq<char>) -> Seq<char> {
    s.map_values(
        |c: char|
            if c == '+' {
                ' '
            } else {
                c
            },
    )
}

/// The value of a query, by its text with blanks for plus signs and by what that decodes
/// to: a text that cannot be decoded is taken as it is.
pub fn decoded_or_plain(spaced_text: String, decoded: Option<String>) -> (r: String)
    ensures
        r == (match decoded {
            Some(d) => d,
            None => spaced_text,
        }),
{
    match decoded {
        Some(d) => d,
        None => spaced_text,
    }
}

/// Reads a value of a query: a plus sign is a blank, and the rest is percent-encoded.
pub fn pct_decode_query(value: &str) -> (r: String)
    ensures
        r@ == (match url_decoded(spaced(value@)) {
            Some(d) => d,
            None => spaced(value@),
        }),
        !value@.contains('%') ==> r@ == spaced(value@),
{
    let spaced_text = text::replace_char(value, '+', ' ');
    assert(spaced_text@ =~= spaced(value@));
    let decoded = url_decode(&spaced_text);
    proof {
        if !value@.contains('%') && spaced(value@).contains('%') {
            let i = choose|i: int| 0 <= i < spaced(value@).len() && spaced(value@)[i] == '%';
            assert(value@[i] == '%');
        }
    }
    decoded_or_plain(spaced_text, decoded)
}

/// Only in a cluster, and only for a target whose home proxy is another node, does a call
/// go through a home proxy; the address of a node is its host and port, by whatever
/// transport.
pub proof fn home_proxy_counts_in_a_cluster_alone(
    target: Location,
    local_addrs: Seq<SipAddr>,
    i: int,
    transport: Option<Transport>,
)
    ensures
        !routes_via_home_proxy(target, local_addrs, false),
        target.home_proxy is None ==> !routes_via_home_proxy(target, local_addrs, true),
        target.home_proxy is Some && local_addrs.len() == 0 ==> routes_via_home_proxy(
            target,
            local_addrs,
            true,
        ),
        0 <= i < local_addrs.len() && (target.home_proxy matches Some(home) && local_addrs[i].host
            == home.host && local_addrs[i].port == home.port) ==> !routes_via_home_proxy(
            target,
            local_addrs,
            true,
        ),
        target.home_proxy matches Some(home) ==> (routes_via_home_proxy(target, local_addrs, true)
            <==> !is_local(local_addrs, home)) && is_local(local_addrs, home) == is_local(
            local_addrs,
            (SipAddr { transport, ..home }),
        ),
        (forall|k: int| 0 <= k < local_addrs.len() ==> (#[trigger] local_addrs[k]).address().len() == 0)
            && (target.home_proxy matches Some(home) && home.address().len() > 0)
            ==> routes_via_home_proxy(target, local_addrs, true),
{
    if target.home_proxy is Some {
        let home = target.home_proxy->0;
        let other = SipAddr { transport, ..home };
        assert(home.address() == other.address());
    }
}

/// Through a home proxy a call goes to the registered user at the host and port of that
/// proxy; any other way it goes to the contact itself.
pub proof fn call_goes_to_the_contact_or_the_proxy(target: Location)
    ensures
        outbound_uri(target, false) == target.aor@,
        target.registered_aor is None ==> outbound_uri(target, true) == target.aor@,
        target.registered_aor is Some && target.home_proxy is Some ==> outbound_uri(target, true).host
            == target.home_proxy->0.host@ && outbound_uri(target, true).port
            == target.home_proxy->0.port && outbound_uri(target, true).auth
            == target.registered_aor->0@.auth,
        target.registered_aor is Some && target.home_proxy is None ==> outbound_uri(target, true)
            == target.registered_aor->0@,
{
}

/// A trunk is reached at the host and the port that are written; the port is that of SIP
/// where none is written, or none that can be read.
pub proof fn trunk_address_is_as_written(host: Seq<char>, port: u16, uri: UriView, dest: Seq<char>)
    requires
        host.len() > 0,
        !host.contains(':'),
        text::trimmed(host).len() > 0,
        text::trimmed(dest).len() > 0,
        text::trimmed(host_port_text(host, Some(port))).len() > 0,
    ensures
        host_and_port(host_port_text(host, Some(port)), None) == Some((host, port)),
        host_and_port(host, None) == Some((host, 5060u16)),
        host_and_port(dest, Some(uri)) matches Some((h, p)) && h == uri.host && (
        uri.port matches Some(q) ==> p == q) && (uri.port is None ==> p == 5060),
{
    reveal_strlit(":");
    text::lemma_split_plain(host, ':');
    let digits = text::decimal(port as nat);
    text::decimal_is_read_back(port as nat, 0xFFFF);
    assert(!digits.contains(':')) by {
        if digits.contains(':') {
            let w = choose|w: int| 0 <= w < digits.len() && digits[w] == ':';
            assert(text::is_ascii_digit(digits[w]));
        }
    }
    text::lemma_split_push(host, digits, ':');
    assert(":"@ =~= seq![':']);
    assert(host_port_text(host, Some(port)) =~= host + seq![':'] + digits);
}

/// A URI is written with its parts in their order: a scheme before a colon, a user before
/// an at sign, then host and port. Without scheme, user, parameters and headers it is just
/// host and port.
pub proof fn uri_is_written_part_by_part(u: UriView)
    ensures
        u.scheme is None && u.auth is None && u.params.len() == 0 && u.headers.len() == 0 ==> u.text()
            == host_port_text(u.host, u.port),
        u.port is None ==> host_port_text(u.host, u.port) == u.host,
        u.port matches Some(p) ==> host_port_text(u.host, u.port) == u.host + ":"@ + text::decimal(
            p as nat,
        ),
        u.scheme matches Some(s) ==> u.text() == s + ":"@ + (UriView { scheme: None, ..u }).text(),
        u.scheme is None ==> (u.auth matches Some(a) ==> u.text() == a + "@"@ + (UriView {
            auth: None,
            ..u
        }).text()),
        u.headers.len() == 0 ==> u.text() == (UriView { params: Seq::empty(), ..u }).text() + u.params,
        u.headers.len() == 1 ==> u.text() == (UriView { headers: Seq::empty(), ..u }).text() + "?"@
            + u.headers[0].0 + "="@ + u.headers[0].1,
{
    if u.headers.len() == 1 {
        assert(header_texts(u.headers)[0] == u.headers[0].0 + "="@ + u.headers[0].1);
        assert(text::joined(header_texts(u.headers), "&"@) == header_texts(u.headers)[0]);
        assert(u.text() =~= (UriView { headers: Seq::empty(), ..u }).text() + "?"@ + u.headers[0].0
            + "="@ + u.headers[0].1);
    }
    if u.scheme is Some {
        assert(u.text() =~= u.scheme->0 + ":"@ + (UriView { scheme: None, ..u }).text());
    } else if u.auth is Some {
        assert(u.text() =~= u.auth->0 + "@"@ + (UriView { auth: None, ..u }).text());
    }
    if u.scheme is None && u.auth is None && u.params.len() == 0 && u.headers.len() == 0 {
        assert(u.text() =~= host_port_text(u.host, u.port));
    }
    if u.headers.len() == 0 {
        assert(u.text() =~= (UriView { params: Seq::empty(), ..u }).text() + u.params);
    }
}

/// The addresses that can be read are taken in their order, and the others left out.
pub proof fn readable_targets_are_taken(targets: Seq<Seq<char>>, t: Seq<char>)
    ensures
        parsed_uri(t) matches Some(u) ==> parsed_targets(targets.push(t)) == parsed_targets(
            targets,
        ).push(u),
        parsed_uri(t) is None ==> parsed_targets(targets.push(t)) == parsed_targets(targets),
        parsed_targets(Seq::empty()).len() == 0,
{
    assert(targets.push(t).drop_last() =~= targets);
}

/// A plus sign stands for a blank, and every other character for itself.
pub proof fn plus_is_a_blank(s: Seq<char>, i: int)
    requires
        0 <= i < s.len(),
    ensures
        spaced(s).len() == s.len(),
        s[i] == '+' ==> spaced(s)[i] == ' ',
        s[i] != '+' ==> spaced(s)[i] == s[i],
        !spaced(s).contains('+'),
{
    if spaced(s).contains('+') {
        let w = choose|w: int| 0 <= w < spaced(s).len() && spaced(s)[w] == '+';
        assert(s[w] == '+' || s[w] != '+');
    }
}

/// Of a bare location nothing is known but its address: it is no WebRTC client, carries no
/// headers, and goes through no proxy.
pub proof fn bare_location_is_an_address(l: Location, local_addrs: Seq<SipAddr>)
    requires
        l.is_bare(),
    ensures
        l.contact_raw is None && l.registered_aor is None && l.destination is None,
        l.home_proxy is None && l.credential is None,
        !l.supports_webrtc,
        l.headers@.len() == 0,
        !routes_via_home_proxy(l, local_addrs, true),
        outbound_uri(l, true) == l.aor@,
{
}

/// A text is taken as it decodes, or as it stands where it does not decode.
pub proof fn undecodable_text_stands(spaced: String, d: String, decoded: String, plain: String)
    requires
        call_ensures(decoded_or_plain, (spaced, Some(d)), decoded),
        call_ensures(decoded_or_plain, (spaced, None), plain),
    ensures
        decoded == d,
        plain == spaced,
{
}

/// A callee that is registered at another node is reached through that node, only where the
/// nodes work together; one that is registered here, or nowhere, is reached at its address.
pub proof fn callee_is_reached_through_its_node(
    target: Location,
    local: Vec<SipAddr>,
    alone: bool,
    together: bool,
    direct: SipUri,
    through: SipUri,
)
    requires
        call_ensures(route_via_home_proxy, (&target, &local, false), alone),
        call_ensures(route_via_home_proxy, (&target, &local, true), together),
        call_ensures(resolve_outbound_callee_uri, (&target, false), direct),
        call_ensures(resolve_outbound_callee_uri, (&target, true), through),
    ensures
        !alone,
        together <==> target.home_proxy is Some && !is_local(local@, target.home_proxy->0),
        direct@ == target.aor@,
        target.registered_aor is None ==> through@ == target.aor@,
        target.registered_aor is Some && target.home_proxy is Some ==> through@.host
            == target.home_proxy->0.host@ && through@.port == target.home_proxy->0.port
            && through@.auth == target.registered_aor->0@.auth,
{
}

} // verus!

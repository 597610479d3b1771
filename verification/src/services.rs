//! Local development services: which listening ports are offered, with a hint of
//! the runtime behind each, and how a probe of an origin is reported.
use std::collections::BTreeMap;
use vstd::prelude::*;
use vstd::string::StringExecFns;

use crate::state::CommandError;
use crate::text::{chars_of, decimal, lower_chars, lower_text, occurs_in, port_text, text_contains};

verus! {

/// A listening port offered to the user, with a hint of what serves it.
#[derive(Debug, Clone, PartialEq, Eq)]
pub struct DetectedService {
    pub port: u16,
    pub hint: Option<String>,
}

/// How an origin answered a probe.
#[derive(Debug, Clone, Copy, PartialEq, Eq, Structural)]
pub struct OriginProbe {
    pub reachable: bool,
    pub http_status: Option<u16>,
    pub http_responded: bool,
}

/// One TCP socket of the system, as the scan reports it: its local port, whether it
/// listens, its IPv4 address (none for another family), and for each process that
/// holds it, the process's name where the process could be found.
#[derive(Debug, Clone, PartialEq, Eq)]
pub struct SocketRecord {
    pub port: u16,
    pub listening: bool,
    pub ipv4: Option<(u8, u8, u8, u8)>,
    pub process_names: Vec<Option<String>>,
}

/// The model of a socket record.
pub ghost struct SocketModel {
    pub port: u16,
    pub listening: bool,
    pub ipv4: Option<(u8, u8, u8, u8)>,
    pub process_names: Seq<Option<Seq<char>>>,
}

/// An optional text, by its characters.
pub open spec fn opt_chars(o: Option<String>) -> Option<Seq<char>> {
    match o {
        Some(s) => Some(s@),
        None => None,
    }
}

impl View for SocketRecord {
    type V = SocketModel;

    open spec fn view(&self) -> SocketModel {
        SocketModel {
            port: self.port,
            listening: self.listening,
            ipv4: self.ipv4,
            process_names: self.process_names@.map_values(|o: Option<String>| opt_chars(o)),
        }
    }
}

/// The model of a detected service: its port and hint.
pub open spec fn service_model(s: DetectedService) -> (u16, Option<Seq<char>>) {
    (s.port, opt_chars(s.hint))
}

/// The hint for a process name: the runtime that the lower-cased name mentions.
pub open spec fn hint_for(name: Seq<char>) -> Option<Seq<char>> {
    let n = lower_text(name);
    if occurs_in(n, "node"@) || occurs_in(n, "deno"@) || occurs_in(n, "bun"@) {
        Some("JavaScript runtime"@)
    } else if occurs_in(n, "python"@) {
        Some("Python"@)
    } else if occurs_in(n, "cargo"@) || occurs_in(n, "rust"@) {
        Some("Rust"@)
    } else if occurs_in(n, "dotnet"@) || occurs_in(n, "iisexpress"@) {
        Some(".NET"@)
    } else if occurs_in(n, "java"@) {
        Some("Java"@)
    } else {
        None
    }
}

/// The hint of a runtime for a process name, where the name shows one.
pub fn process_hint(process_name: &str) -> (r: Option<String>)
    ensures
        opt_chars(r) == hint_for(process_name@),
{
    let name = lower_chars(&chars_of(process_name));
    let hint = if text_contains(&name, "node") || text_contains(&name, "deno") || text_contains(
        &name,
        "bun",
    ) {
        "JavaScript runtime"
    } else if text_contains(&name, "python") {
        "Python"
    } else if text_contains(&name, "cargo") || text_contains(&name, "rust") {
        "Rust"
    } else if text_contains(&name, "dotnet") || text_contains(&name, "iisexpress") {
        ".NET"
    } else if text_contains(&name, "java") {
        "Java"
    } else {
        return None;
    };
    Some(hint.to_owned())
}

/// The name of the first process that could be found, if any.
pub open spec fn first_found(names: Seq<Option<Seq<char>>>) -> Option<Seq<char>>
    decreases names.len(),
{
    if names.len() == 0 {
        None
    } else if names[0] is Some {
        names[0]
    } else {
        first_found(names.drop_first())
    }
}

/// The hint of a socket: that of the first of its processes that could be found.
pub open spec fn socket_hint(s: SocketModel) -> Option<Seq<char>> {
    match first_found(s.process_names) {
        Some(name) => hint_for(name),
        None => None,
    }
}

/// A socket that is offered: listening on the IPv4 loopback or unspecified address.
pub open spec fn is_offered(s: SocketModel) -> bool {
    s.listening && (s.ipv4 == Some((127u8, 0u8, 0u8, 1u8)) || s.ipv4 == Some((0u8, 0u8, 0u8, 0u8)))
}

/// The first hint among the offered sockets on `port`.
pub open spec fn port_hint(sockets: Seq<SocketModel>, port: u16) -> Option<Seq<char>>
    decreases sockets.len(),
{
    if sockets.len() == 0 {
        None
    } else if is_offered(sockets[0]) && sockets[0].port == port && socket_hint(sockets[0]) is Some {
        socket_hint(sockets[0])
    } else {
        port_hint(sockets.drop_first(), port)
    }
}

/// Some offered socket is on `port`.
pub open spec fn port_offered(sockets: Seq<SocketModel>, port: u16) -> bool {
    exists|i: int| 0 <= i < sockets.len() && is_offered(sockets[i]) && #[trigger] sockets[i].port == port
}

/// The services of a scan: one per offered port, in increasing port order, each with
/// the first hint found for that port.
pub open spec fn services_of(sockets: Seq<SocketModel>, services: Seq<(u16, Option<Seq<char>>)>) -> bool {
    &&& forall|i: int, j: int| 0 <= i < j < services.len() ==> services[i].0 < services[j].0
    &&& forall|port: u16| port_offered(sockets, port) <==> exists|i: int| 0 <= i < services.len() && #[trigger] services[i].0 == port
    &&& forall|i: int| 0 <= i < services.len() ==> #[trigger] services[i].1 == port_hint(sockets, services[i].0)
}

/// The name of the first process that could be found.
fn first_found_name(names: &Vec<Option<String>>) -> (r: Option<&String>)
    ensures
        match r {
            Some(s) => first_found(names@.map_values(|o: Option<String>| opt_chars(o))) == Some(s@),
            None => first_found(names@.map_values(|o: Option<String>| opt_chars(o))) is None,
        },
{
    let ghost all = names@.map_values(|o: Option<String>| opt_chars(o));
    let mut i: usize = 0;
    assert(all.skip(0) =~= all);
    while i < names.len()
        invariant
            i <= names.len(),
            all == names@.map_values(|o: Option<String>| opt_chars(o)),
            first_found(all) == first_found(all.skip(i as int)),
        decreases names.len() - i,
    {
        assert(all.skip(i as int)[0] == opt_chars(names@[i as int]));
        assert(all.skip(i as int).drop_first() =~= all.skip(i + 1));
        match &names[i] {
            Some(name) => return Some(name),
            None => {},
        }
        i = i + 1;
    }
    assert(all.skip(i as int) =~= Seq::<Option<Seq<char>>>::empty());
    None
}

/// The hint of one socket.
fn hint_of_socket(s: &SocketRecord) -> (r: Option<String>)
    ensures
        opt_chars(r) == socket_hint(s@),
{
    match first_found_name(&s.process_names) {
        Some(name) => process_hint(name.as_str()),
        None => None,
    }
}

/// Whether a socket is offered.
fn offered(s: &SocketRecord) -> (r: bool)
    ensures
        r == is_offered(s@),
{
    s.listening && match s.ipv4 {
        Some((a, b, c, d)) => (a == 127 && b == 0 && c == 0 && d == 1) || (a == 0 && b == 0 && c
            == 0 && d == 0),
        None => false,
    }
}

proof fn lemma_port_hint_extend(sockets: Seq<SocketModel>, s: SocketModel, port: u16)
    ensures
        port_hint(sockets.push(s), port) == (if port_hint(sockets, port) is Some {
            port_hint(sockets, port)
        } else if is_offered(s) && s.port == port {
            socket_hint(s)
        } else {
            None
        }),
    decreases sockets.len(),
{
    if sockets.len() == 0 {
        assert(sockets.push(s).drop_first() =~= Seq::<SocketModel>::empty());
        assert(sockets.push(s)[0] == s);
        assert(port_hint(Seq::<SocketModel>::empty(), port) is None);
        assert(port_hint(sockets, port) is None);
    } else {
        lemma_port_hint_extend(sockets.drop_first(), s, port);
        assert(sockets.push(s).drop_first() =~= sockets.drop_first().push(s));
        assert(sockets.push(s)[0] == sockets[0]);
    }
}

/// A hint for a port comes from an offered socket on that port.
proof fn lemma_port_hint_offered(sockets: Seq<SocketModel>, port: u16)
    requires
        port_hint(sockets, port) is Some,
    ensures
        port_offered(sockets, port),
    decreases sockets.len(),
{
    if is_offered(sockets[0]) && sockets[0].port == port && socket_hint(sockets[0]) is Some {
        assert(sockets[0].port == port);
    } else {
        lemma_port_hint_offered(sockets.drop_first(), port);
        let i = choose|i: int| 0 <= i < sockets.drop_first().len() && is_offered(sockets.drop_first()[i]) && #[trigger] sockets.drop_first()[i].port == port;
        assert(sockets[i + 1] == sockets.drop_first()[i]);
    }
}

/// Offered ports after one more socket.
proof fn lemma_port_offered_extend(sockets: Seq<SocketModel>, s: SocketModel, port: u16)
    ensures
        port_offered(sockets.push(s), port) == (port_offered(sockets, port) || (is_offered(s) && s.port == port)),
{
    let p2 = sockets.push(s);
    if port_offered(p2, port) {
        let i = choose|i: int| 0 <= i < p2.len() && is_offered(p2[i]) && #[trigger] p2[i].port == port;
        if i < sockets.len() {
            assert(sockets[i] == p2[i]);
        }
    }
    if port_offered(sockets, port) {
        let i = choose|i: int| 0 <= i < sockets.len() && is_offered(sockets[i]) && #[trigger] sockets[i].port == port;
        assert(sockets[i] == p2[i]);
    }
    if is_offered(s) && s.port == port {
        assert(p2[sockets.len() as int] == s);
    }
}

/// The services found so far, kept by port: a port is present exactly when some
/// offered socket is on it, with the first hint found for it.
pub open spec fn services_by_port(sockets: Seq<SocketModel>, m: Map<u16, Option<String>>) -> bool {
    &&& forall|port: u16| #[trigger] m.contains_key(port) <==> port_offered(sockets, port)
    &&& forall|port: u16| #[trigger] m.contains_key(port) ==> opt_chars(m[port]) == port_hint(sockets, port)
}

/// One more socket: an offered one adds its port with its hint, or gives its hint to
/// a port that had none; any other socket changes nothing.
proof fn lemma_services_by_port_extend(
    sockets: Seq<SocketModel>,
    s: SocketModel,
    m: Map<u16, Option<String>>,
    hint: Option<String>,
)
    requires
        services_by_port(sockets, m),
        is_offered(s) ==> opt_chars(hint) == socket_hint(s),
    ensures
        services_by_port(
            sockets.push(s),
            if is_offered(s) && !(m.contains_key(s.port) && m[s.port] is Some) {
                m.insert(s.port, hint)
            } else {
                m
            },
        ),
{
    let m2 = if is_offered(s) && !(m.contains_key(s.port) && m[s.port] is Some) {
        m.insert(s.port, hint)
    } else {
        m
    };
    assert forall|port: u16| #[trigger] m2.contains_key(port) <==> port_offered(sockets.push(s), port) by {
        lemma_port_offered_extend(sockets, s, port);
        assert(m.contains_key(port) <==> port_offered(sockets, port));
    }
    assert forall|port: u16| #[trigger] m2.contains_key(port) implies opt_chars(m2[port]) == port_hint(sockets.push(s), port) by {
        lemma_port_hint_extend(sockets, s, port);
        if port_hint(sockets, port) is Some {
            lemma_port_hint_offered(sockets, port);
        }
        assert(m.contains_key(port) <==> port_offered(sockets, port));
        if m.contains_key(port) {
            assert(opt_chars(m[port]) == port_hint(sockets, port));
        }
    }
}

/// The ports of a map's entries, as its iterator yields them, increase.
proof fn lemma_ports_increase(entries: Seq<(&u16, &Option<String>)>)
    requires
        vstd::std_specs::btree::increasing_seq(entries.map_values(|kv: (&u16, &Option<String>)| *kv.0)),
    ensures
        forall|i: int, j: int| 0 <= i < j < entries.len() ==> *#[trigger] entries[i].0 < *#[trigger] entries[j].0,
{
    let ports = entries.map_values(|kv: (&u16, &Option<String>)| *kv.0);
    assert(vstd::laws_cmp::obeys_cmp::<u16>());
    assert forall|i: int, j: int| 0 <= i < j < entries.len() implies *entries[i].0 < *entries[j].0 by {
        assert(ports[i] == *entries[i].0);
        assert(ports[j] == *entries[j].0);
        assert(vstd::std_specs::cmp::OrdSpec::cmp_spec(&ports[i], &ports[j]) is Less);
    }
}

/// Services listed in increasing port order, each present in the map with its hint,
/// and every port of the map listed, are the services of the scan.
proof fn lemma_services_in_port_order(
    sockets: Seq<SocketModel>,
    m: Map<u16, Option<String>>,
    services: Seq<DetectedService>,
)
    requires
        services_by_port(sockets, m),
        forall|i: int, j: int| 0 <= i < j < services.len() ==> #[trigger] services[i].port < #[trigger] services[j].port,
        forall|i: int| 0 <= i < services.len() ==> m.contains_key(#[trigger] services[i].port) && services[i].hint == m[services[i].port],
        forall|k: u16| #[trigger] m.contains_key(k) ==> exists|i: int| 0 <= i < services.len() && services[i].port == k,
    ensures
        services_of(sockets, services.map_values(|d: DetectedService| service_model(d))),
{
    let n = services.map_values(|d: DetectedService| service_model(d));
    assert forall|i: int, j: int| 0 <= i < j < n.len() implies n[i].0 < n[j].0 by {
        assert(services[i].port < services[j].port);
    }
    assert forall|port: u16| port_offered(sockets, port) <==> exists|i: int| 0 <= i < n.len() && #[trigger] n[i].0 == port by {
        if port_offered(sockets, port) {
            assert(m.contains_key(port));
            let i = choose|i: int| 0 <= i < services.len() && services[i].port == port;
            assert(n[i].0 == port);
        }
        if exists|i: int| 0 <= i < n.len() && #[trigger] n[i].0 == port {
            let i = choose|i: int| 0 <= i < n.len() && #[trigger] n[i].0 == port;
            assert(m.contains_key(services[i].port));
        }
    }
    assert forall|i: int| 0 <= i < n.len() implies #[trigger] n[i].1 == port_hint(sockets, n[i].0) by {
        assert(m.contains_key(services[i].port));
    }
}

/// The services offered by the scanned sockets: one per port that some socket listens
/// on at the IPv4 loopback or unspecified address, in increasing port order, each with
/// the hint of the first such socket whose processes give one.
pub fn collect_services(sockets: &Vec<SocketRecord>) -> (r: Vec<DetectedService>)
    ensures
        services_of(sockets@.map_values(|s: SocketRecord| s@), r@.map_values(|d: DetectedService| service_model(d))),
{
    let ghost all = sockets@.map_values(|s: SocketRecord| s@);
    let mut by_port: BTreeMap<u16, Option<String>> = BTreeMap::new();
    let mut k: usize = 0;
    while k < sockets.len()
        invariant
            k <= sockets.len(),
            all == sockets@.map_values(|s: SocketRecord| s@),
            services_by_port(all.take(k as int), by_port@),
        decreases sockets.len() - k,
    {
        let ghost prefix = all.take(k as int);
        let ghost before = by_port@;
        assert(all.take(k + 1) =~= prefix.push(all[k as int]));
        let socket = &sockets[k];
        assert(all[k as int] == socket@);
        if offered(socket) {
            let hint = hint_of_socket(socket);
            proof {
                lemma_services_by_port_extend(prefix, socket@, before, hint);
            }
            let port = socket.port;
            let has_hint = match by_port.get(&port) {
                Some(existing) => existing.is_some(),
                None => false,
            };
            if !has_hint {
                by_port.insert(port, hint);
            }
        } else {
            proof {
                lemma_services_by_port_extend(prefix, socket@, before, None);
            }
        }
        k = k + 1;
    }
    assert(all.take(k as int) =~= all);
    let ghost m = by_port@;
    let mut services: Vec<DetectedService> = Vec::new();
    let entries = by_port.iter();
    proof {
        lemma_ports_increase(vstd::std_specs::iter::IteratorSpec::remaining(&entries));
    }
    for entry in it: entries
        invariant
            m == by_port@,
            services.len() == it.index(),
            forall|i: int| 0 <= i < it.seq().len() ==> m.contains_key(*#[trigger] it.seq()[i].0) && m[*it.seq()[i].0] == *it.seq()[i].1,
            forall|i: int, j: int| 0 <= i < j < it.seq().len() ==> *#[trigger] it.seq()[i].0 < *#[trigger] it.seq()[j].0,
            forall|k: u16| #[trigger] m.contains_key(k) ==> exists|i: int| 0 <= i < it.seq().len() && *it.seq()[i].0 == k,
            forall|j: int| 0 <= j < it.index() ==> #[trigger] services@[j].port == *it.seq()[j].0 && services@[j].hint == *it.seq()[j].1,
            forall|i: int, j: int| 0 <= i < j < services.len() ==> #[trigger] services@[i].port < #[trigger] services@[j].port,
            forall|i: int| 0 <= i < services.len() ==> m.contains_key(#[trigger] services@[i].port) && services@[i].hint == m[services@[i].port],
            forall|k: u16| #[trigger] m.contains_key(k) ==> (exists|i: int| 0 <= i < services.len() && services@[i].port == k) || (exists|i: int| it.index() <= i < it.seq().len() && *it.seq()[i].0 == k),
    {
        let (port, hint) = entry;
        let hint_copy = match hint {
            Some(h) => Some(h.clone()),
            None => None,
        };
        services.push(DetectedService { port: *port, hint: hint_copy });
        proof {
            let last: int = services.len() - 1;
            assert(services@[last].port == *it.seq()[last].0);
            assert(services@[last].hint == *it.seq()[last].1);
            assert forall|k: u16| #[trigger] m.contains_key(k) implies (exists|i: int| 0 <= i < services.len() && services@[i].port == k) || (exists|i: int| it.index() <= i < it.seq().len() && *it.seq()[i].0 == k) by {
                let i = choose|i: int| 0 <= i < it.seq().len() && *it.seq()[i].0 == k;
                if i < it.index() {
                    assert(services@[i].port == k);
                }
            }
        }
    }
    proof {
        lemma_services_in_port_order(all, m, services@);
    }
    services
}

/// The error for a port on which nothing accepts a connection.
pub fn origin_closed(port: u16) -> (r: CommandError)
    ensures
        r.code@ == "ORIGIN_CLOSED"@,
        r.message@ == "Nothing is running on port "@ + decimal(port as nat) + "."@,
{
    let mut message = "Nothing is running on port ".to_owned();
    let digits = port_text(port);
    message.append(digits.as_str());
    message.append(".");
    CommandError { code: "ORIGIN_CLOSED".to_owned(), message }
}

/// How a probe of the origin on `port` is reported: an error where no connection
/// could be made, or where the HTTP client could not be built; otherwise the origin is
/// reachable, with the HTTP status where the request got an answer.
pub fn probe_outcome(port: u16, connected: bool, client_ready: bool, http_status: Option<u16>) -> (r: Result<OriginProbe, CommandError>)
    ensures
        !connected ==> (r matches Err(e) && e.code@ == "ORIGIN_CLOSED"@ && e.message@
            == "Nothing is running on port "@ + decimal(port as nat) + "."@),
        connected && !client_ready ==> (r matches Err(e) && e.code@ == "ORIGIN_UNRESPONSIVE"@
            && e.message@ == "The HTTP probe could not start."@),
        connected && client_ready ==> r == Ok::<OriginProbe, CommandError>(
            OriginProbe {
                reachable: true,
                http_status,
                http_responded: http_status is Some,
            },
        ),
{
    if !connected {
        return Err(origin_closed(port));
    }
    if !client_ready {
        return Err(CommandError::new("ORIGIN_UNRESPONSIVE", "The HTTP probe could not start."));
    }
    Ok(OriginProbe { reachable: true, http_status, http_responded: http_status.is_some() })
}

} // verus!

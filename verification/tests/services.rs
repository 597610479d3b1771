use locaray::services::{collect_services, probe_outcome, process_hint, OriginProbe, SocketRecord};

#[test]
fn reports_only_reliable_process_hints() {
    assert_eq!(
        process_hint("node.exe").as_deref(),
        Some("JavaScript runtime")
    );
    assert_eq!(process_hint("python3.exe").as_deref(), Some("Python"));
    assert!(process_hint("unknown-server.exe").is_none());
}

#[test]
fn hints_ignore_case_and_cover_each_runtime() {
    assert_eq!(process_hint("Deno.EXE").as_deref(), Some("JavaScript runtime"));
    assert_eq!(process_hint("bun").as_deref(), Some("JavaScript runtime"));
    assert_eq!(process_hint("cargo-watch").as_deref(), Some("Rust"));
    assert_eq!(process_hint("rustc").as_deref(), Some("Rust"));
    assert_eq!(process_hint("dotnet.exe").as_deref(), Some(".NET"));
    assert_eq!(process_hint("IISExpress.exe").as_deref(), Some(".NET"));
    assert_eq!(process_hint("javaw.exe").as_deref(), Some("Java"));
    assert_eq!(process_hint("").as_deref(), None);
}

fn socket(port: u16, listening: bool, ipv4: Option<(u8, u8, u8, u8)>, names: &[Option<&str>]) -> SocketRecord {
    SocketRecord {
        port,
        listening,
        ipv4,
        process_names: names.iter().map(|n| n.map(str::to_owned)).collect(),
    }
}

#[test]
fn collects_offered_ports_in_order_with_the_first_hint() {
    let sockets = vec![
        socket(5173, true, Some((127, 0, 0, 1)), &[Some("unknown.exe")]),
        socket(3000, true, Some((0, 0, 0, 0)), &[None, Some("node.exe")]),
        socket(8080, false, Some((127, 0, 0, 1)), &[Some("java.exe")]),
        socket(9000, true, Some((192, 168, 1, 2)), &[Some("python.exe")]),
        socket(7000, true, None, &[Some("python.exe")]),
        socket(5173, true, Some((127, 0, 0, 1)), &[Some("python.exe")]),
        socket(3000, true, Some((127, 0, 0, 1)), &[Some("python.exe")]),
    ];
    let services = collect_services(&sockets);
    let summary: Vec<(u16, Option<&str>)> =
        services.iter().map(|s| (s.port, s.hint.as_deref())).collect();
    assert_eq!(
        summary,
        vec![(3000, Some("JavaScript runtime")), (5173, Some("Python"))]
    );
}

#[test]
fn a_port_without_any_hint_is_still_offered() {
    let services = collect_services(&vec![socket(4000, true, Some((127, 0, 0, 1)), &[])]);
    assert_eq!(services.len(), 1);
    assert_eq!(services[0].port, 4000);
    assert!(services[0].hint.is_none());
    assert!(collect_services(&vec![]).is_empty());
}

#[test]
fn probe_outcomes() {
    let closed = probe_outcome(4321, false, true, Some(200)).unwrap_err();
    assert_eq!(closed.code, "ORIGIN_CLOSED");
    assert_eq!(closed.message, "Nothing is running on port 4321.");
    let unresponsive = probe_outcome(4321, true, false, None).unwrap_err();
    assert_eq!(unresponsive.code, "ORIGIN_UNRESPONSIVE");
    assert_eq!(
        probe_outcome(80, true, true, Some(404)),
        Ok(OriginProbe { reachable: true, http_status: Some(404), http_responded: true })
    );
    assert_eq!(
        probe_outcome(80, true, true, None),
        Ok(OriginProbe { reachable: true, http_status: None, http_responded: false })
    );
}

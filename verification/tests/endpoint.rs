use server_probe::endpoint::{endpoints, Endpoint, IPEntry, IPPortEntry};

fn port(port: u16) -> IPPortEntry {
    IPPortEntry {
        port,
        proto: String::from("tcp"),
        status: String::from("open"),
        reason: String::from("syn-ack"),
        ttl: 64,
    }
}

fn entry(ip: &str, ports: &[u16]) -> IPEntry {
    IPEntry {
        ip: String::from(ip),
        timestamp: String::from("0"),
        ports: ports.iter().map(|p| port(*p)).collect(),
    }
}

fn endpoint(host: &str, port: u16) -> Endpoint {
    Endpoint { host: String::from(host), port }
}

#[test]
fn endpoints_of_nothing() {
    assert_eq!(endpoints(&vec![]), vec![]);
}

#[test]
fn endpoints_keep_record_and_port_order() {
    let entries = vec![entry("a", &[3, 1]), entry("b", &[]), entry("c", &[2])];
    assert_eq!(
        endpoints(&entries),
        vec![endpoint("a", 3), endpoint("a", 1), endpoint("c", 2)]
    );
}

#[test]
fn endpoints_keep_duplicates() {
    let entries = vec![entry("a", &[1, 1]), entry("a", &[1])];
    assert_eq!(
        endpoints(&entries),
        vec![endpoint("a", 1), endpoint("a", 1), endpoint("a", 1)]
    );
}

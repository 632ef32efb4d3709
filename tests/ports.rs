use ht_mcp::ports::{no_port_error, PortProbe, PortScan, PORT_RANGE_END, PORT_RANGE_START};
use ht_mcp::error::HtMcpError;

fn drive(taken: &dyn Fn(u16) -> bool) -> PortProbe {
    let mut scan = PortScan::new();
    let mut probe = scan.current();
    while let PortProbe::Try(p) = probe {
        probe = scan.record(!taken(p));
    }
    probe
}

#[test]
fn scan_starts_at_the_low_end() {
    let scan = PortScan::new();
    assert_eq!(scan.current(), PortProbe::Try(3618));
    assert_eq!(PORT_RANGE_START, 3618);
    assert_eq!(PORT_RANGE_END, 3999);
}

#[test]
fn scan_takes_the_first_free_port() {
    assert_eq!(drive(&|_| false), PortProbe::Found(3618));
    assert_eq!(drive(&|p| p < 3700), PortProbe::Found(3700));
    assert_eq!(drive(&|p| p != 3998), PortProbe::Found(3998));
}

#[test]
fn scan_exhausts_when_every_port_is_taken() {
    assert_eq!(drive(&|_| true), PortProbe::Exhausted);
    assert_eq!(
        no_port_error(),
        HtMcpError::Internal("No available ports found".to_string())
    );
}

#[test]
fn record_moves_to_the_next_port() {
    let mut scan = PortScan::new();
    assert_eq!(scan.record(false), PortProbe::Try(3619));
    assert_eq!(scan.next, 3619);
    assert_eq!(scan.record(true), PortProbe::Found(3619));
    assert_eq!(scan.next, 3619);
}

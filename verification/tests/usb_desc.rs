use daphne::usb::{dap_endpoints, names_dap, EndpointDesc, ProbeEndpoints};

fn ep(bulk: bool, dir_in: bool, address: u8, max_packet_size: u16) -> EndpointDesc {
    EndpointDesc { bulk, dir_in, address, max_packet_size }
}

#[test]
fn interface_names() {
    assert!(names_dap("CMSIS-DAP v2 Interface"));
    assert!(names_dap("Debugprobe CMSIS-DAP"));
    assert!(names_dap("CMSIS-DAP"));
    assert!(!names_dap("CMSIS-DA"));
    assert!(!names_dap("cmsis-dap"));
    assert!(!names_dap(""));
    assert!(!names_dap("CDC-ACM UART"));
    assert!(names_dap("µ CMSIS-DAP"));
}

#[test]
fn interface_endpoints() {
    let found = dap_endpoints(&[ep(true, false, 0x04, 64), ep(true, true, 0x85, 64)]);
    assert_eq!(found, Some(ProbeEndpoints { tx_ep: 0x04, rx_ep: 0x85, max_pkt_sz: 64 }));
    // IN first is refused.
    assert_eq!(dap_endpoints(&[ep(true, true, 0x85, 64), ep(true, false, 0x04, 64)]), None);
    // Interrupt endpoints are refused.
    assert_eq!(dap_endpoints(&[ep(false, false, 0x04, 64), ep(true, true, 0x85, 64)]), None);
    // Three endpoints are refused.
    assert_eq!(
        dap_endpoints(&[ep(true, false, 0x04, 64), ep(true, true, 0x85, 64), ep(true, true, 0x86, 64)]),
        None
    );
    assert_eq!(dap_endpoints(&[]), None);
}

use pi_kernel::uart::{
    data_ready, read_continues, received_byte, to_crlf, tx_available, UartConfig, WaitStatus,
};

#[test]
fn newline_gets_carriage_return() {
    assert_eq!(to_crlf(b"a\nb"), vec![b'a', b'\r', b'\n', b'b']);
    assert_eq!(to_crlf(b"\n\n"), b"\r\n\r\n".to_vec());
    assert_eq!(to_crlf(b""), Vec::<u8>::new());
}

#[test]
fn line_status_bits() {
    assert!(data_ready(1));
    assert!(data_ready(0x21));
    assert!(!data_ready(0x20));
    assert!(tx_available(0x20));
    assert!(!tx_available(0x1f));
    assert!(tx_available(0x61));
}

#[test]
fn data_register_low_byte() {
    assert_eq!(received_byte(0x1234), 0x34);
    assert_eq!(received_byte(0x41), b'A');
}

#[test]
fn wait_times_out_after_timeout() {
    let mut cfg = UartConfig::new();
    assert_eq!(cfg.read_timeout(), None);
    cfg.set_read_timeout(100);
    assert_eq!(cfg.read_timeout(), Some(100));
    let w = cfg.start_wait(1000);
    assert_eq!(w.poll(false, 1000), WaitStatus::Pending);
    assert_eq!(w.poll(false, 1100), WaitStatus::Pending);
    assert_eq!(w.poll(false, 1101), WaitStatus::TimedOut);
    assert_eq!(w.poll(true, 5000), WaitStatus::Ready);
}

#[test]
fn wait_without_timeout_never_times_out() {
    let w = UartConfig::new().start_wait(0);
    assert_eq!(w.poll(false, u64::MAX), WaitStatus::Pending);
    assert_eq!(w.poll(true, 3), WaitStatus::Ready);
}

#[test]
fn burst_read_stops_when_full_or_idle() {
    assert!(read_continues(true, 0, 4));
    assert!(!read_continues(true, 4, 4));
    assert!(!read_continues(false, 1, 4));
}

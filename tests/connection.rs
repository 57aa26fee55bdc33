use arcus_client::connection::{terminate_line, ChannelSettings, TransportKind};

#[test]
fn lines_are_terminated_with_crlf() {
    assert_eq!(terminate_line(b"get k"), b"get k\r\n".to_vec());
    assert_eq!(terminate_line(b"get k\r"), b"get k\r\n".to_vec());
    assert_eq!(terminate_line(b"get k\r\n"), b"get k\r\n".to_vec());
    assert_eq!(terminate_line(b"get k\n"), b"get k\n\r\n".to_vec());
    assert_eq!(terminate_line(b""), b"\r\n".to_vec());
}

#[test]
fn datagram_settings_take_request_id_and_timeout() {
    let mut s = ChannelSettings::new();
    s.setting(TransportKind::Udp, 7, 100, true);
    assert_eq!(s, ChannelSettings { request_id: 7, timeout: 100, auth: true });
}

#[test]
fn stream_settings_take_only_auth() {
    let mut s = ChannelSettings::new();
    s.setting(TransportKind::Tcp, 7, 100, true);
    assert_eq!(s, ChannelSettings { request_id: 0, timeout: 0, auth: true });
    let mut s = ChannelSettings::new();
    s.setting(TransportKind::Unix, 7, 100, false);
    assert_eq!(s, ChannelSettings { request_id: 0, timeout: 0, auth: false });
}

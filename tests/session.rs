use udp_broadcast::session::{
    client_payload, receive_buffer, server_step, Command, ServerAction, ServerEvent,
    CLIENT_BIND_ADDRESS, DEFAULT_PORT, PAYLOAD_LEN, RECV_BUF_LEN,
};

#[test]
fn payload_is_five_fixed_bytes() {
    let p = client_payload();
    assert_eq!(p, vec![1u8, 2, 3, 4, 5]);
    assert_eq!(p.len(), PAYLOAD_LEN);
    assert_eq!(PAYLOAD_LEN, 5);
}

#[test]
fn receive_buffer_holds_sixty_four_zeros() {
    let b = receive_buffer();
    assert_eq!(b.len(), 64);
    assert_eq!(RECV_BUF_LEN, 64);
    assert!(b.iter().all(|x| *x == 0));
}

#[test]
fn client_defaults() {
    let c = Command::client(false, None, None);
    assert!(matches!(c, Command::Client { .. }));
    assert!(!c.broadcast());
    assert_eq!(c.address(), "255.255.255.255");
    assert_eq!(c.port(), 5555);
    assert_eq!(DEFAULT_PORT, 5555);
    assert_eq!(CLIENT_BIND_ADDRESS, "0.0.0.0:0");
}

#[test]
fn server_defaults() {
    let c = Command::server(false, None, None);
    assert!(matches!(c, Command::Server { .. }));
    assert!(!c.broadcast());
    assert_eq!(c.address(), "0.0.0.0");
    assert_eq!(c.port(), 5555);
}

#[test]
fn given_values_override_defaults() {
    let c = Command::client(true, Some(String::from("127.0.0.1")), Some(0));
    assert!(c.broadcast());
    assert_eq!(c.address(), "127.0.0.1");
    assert_eq!(c.port(), 0);
    let s = Command::server(true, Some(String::from("127.0.0.1")), Some(6000));
    assert!(s.broadcast());
    assert_eq!(s.address(), "127.0.0.1");
    assert_eq!(s.port(), 6000);
}

#[test]
fn server_reports_each_datagram() {
    let e = ServerEvent::Received { len: 5, from: String::from("127.0.0.1:40000") };
    match server_step(&e) {
        ServerAction::Print(line) => assert_eq!(line, "5 bytes from 127.0.0.1:40000"),
        ServerAction::Stop => panic!("a datagram must not stop the loop"),
    }
}

#[test]
fn server_reports_empty_datagram() {
    let e = ServerEvent::Received { len: 0, from: String::from("192.168.1.7:1234") };
    match server_step(&e) {
        ServerAction::Print(line) => assert_eq!(line, "0 bytes from 192.168.1.7:1234"),
        ServerAction::Stop => panic!("a datagram must not stop the loop"),
    }
}

#[test]
fn server_stops_on_failed_receive() {
    assert!(matches!(server_step(&ServerEvent::Failed), ServerAction::Stop));
}

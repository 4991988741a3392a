use crust_core::event::{
    Connection, ContactInfoResult, Endpoint, Event, HolePunchResult, OurContactInfo, Protocol,
};

fn addr(text: &str) -> socket_addr::SocketAddr {
    socket_addr::SocketAddr(text.parse().unwrap())
}

fn connection() -> Connection {
    Connection {
        protocol: Protocol::Tcp,
        our_addr: addr("10.0.0.1:5000"),
        their_addr: addr("10.0.0.2:6000"),
    }
}

fn our_info() -> OurContactInfo<u16> {
    OurContactInfo {
        socket: 4321,
        secret: Some([1, 2, 3, 4]),
        static_addrs: vec![
            Endpoint { protocol: Protocol::Tcp, socket_addr: addr("192.168.1.2:5483") },
            Endpoint { protocol: Protocol::Utp, socket_addr: addr("[::1]:80") },
        ],
        rendezvous_addrs: vec![addr("203.0.113.9:40000"), addr("198.51.100.7:40001")],
    }
}

#[test]
fn their_info_keeps_everything_but_the_socket() {
    let ours = our_info();
    let theirs = ours.make_their_info();
    assert_eq!(theirs.secret, Some([1, 2, 3, 4]));
    assert_eq!(theirs.static_addrs, ours.static_addrs);
    assert_eq!(theirs.rendezvous_addrs, ours.rendezvous_addrs);
    assert_eq!(theirs.static_addrs[1].protocol, Protocol::Utp);
    assert_eq!(theirs.rendezvous_addrs[0], addr("203.0.113.9:40000"));
}

#[test]
fn their_info_of_empty_contact_info_is_empty() {
    let ours: OurContactInfo<()> = OurContactInfo {
        socket: (),
        secret: None,
        static_addrs: Vec::new(),
        rendezvous_addrs: Vec::new(),
    };
    let theirs = ours.make_their_info();
    assert_eq!(theirs.secret, None);
    assert!(theirs.static_addrs.is_empty());
    assert!(theirs.rendezvous_addrs.is_empty());
}

fn punched(token: u32, ok: bool) -> Event<u16> {
    let peer_addr = if ok {
        Ok(addr("203.0.113.9:40000"))
    } else {
        Err(std::io::Error::new(std::io::ErrorKind::TimedOut, "no answer"))
    };
    Event::OnHolePunched(HolePunchResult { result_token: token, udp_socket: 1, peer_addr })
}

#[test]
fn hole_punch_events_carry_their_tokens_in_any_order() {
    let events = vec![punched(9, false), punched(7, true)];
    let mut tokens: Vec<u32> = events.iter().filter_map(|e| e.result_token()).collect();
    tokens.sort();
    assert_eq!(tokens, vec![7, 9]);
    match &events[0] {
        Event::OnHolePunched(r) => assert!(r.peer_addr.is_err()),
        _ => panic!("expected a hole-punch event"),
    }
}

#[test]
fn request_events_carry_their_tokens() {
    let failed: Event<u16> = Event::OnConnect(
        Err(std::io::Error::new(std::io::ErrorKind::ConnectionRefused, "refused")),
        3,
    );
    assert_eq!(failed.result_token(), Some(3));
    let boot: Event<u16> = Event::OnBootstrapConnect(
        Ok((Endpoint { protocol: Protocol::Tcp, socket_addr: addr("10.0.0.2:6000") }, connection())),
        11,
    );
    assert_eq!(boot.result_token(), Some(11));
    let prepared: Event<u16> = Event::ContactInfoPrepared(ContactInfoResult {
        result_token: 42,
        result: Ok(our_info()),
    });
    assert_eq!(prepared.result_token(), Some(42));
}

#[test]
fn unsolicited_events_carry_no_token() {
    let events: Vec<Event<u16>> = vec![
        Event::NewMessage(connection(), vec![1, 2, 3]),
        Event::OnBootstrapAccept(
            Endpoint { protocol: Protocol::Utp, socket_addr: addr("10.0.0.3:7000") },
            connection(),
        ),
        Event::LostConnection(connection()),
        Event::BootstrapFinished,
        Event::ExternalEndpoints(Vec::new()),
    ];
    for e in &events {
        assert_eq!(e.result_token(), None);
    }
}

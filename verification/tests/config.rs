use relay_core::addr::{IpAddress, SocketAddress};
use relay_core::config::{buffer_bytes, Configuration, Protocol, Route, DEFAULT_BUFFER_KIB};
use relay_core::pipe::PumpAction;
use relay_core::tcp::Direction;

fn settings() -> Configuration {
    Configuration {
        log_error: true,
        listen_ip: IpAddress::V4(0),
        tcp_proxy: vec![
            SocketAddress::new(IpAddress::V4(0x7f00_0001), 9100),
            SocketAddress::new(IpAddress::V4(0x0a00_0005), 443),
        ],
        udp_proxy: vec![SocketAddress::new(IpAddress::V4(0x0a00_0005), 53)],
        tcptimeout: 5,
        udptimeout: 30,
        tcp_buffer_size: None,
        udp_buffer_size: Some(64),
        udp_channel_buffer_size: 16,
        tcp_fill_buffer: true,
        tcp_probe_liveness: false,
    }
}

#[test]
fn buffer_sizes_are_given_in_kib() {
    assert_eq!(DEFAULT_BUFFER_KIB, 8);
    assert_eq!(buffer_bytes(None), Some(8192));
    assert_eq!(buffer_bytes(Some(0)), Some(0));
    assert_eq!(buffer_bytes(Some(1)), Some(1024));
    assert_eq!(buffer_bytes(Some(64)), Some(65536));
    assert_eq!(buffer_bytes(Some(usize::MAX / 1024)), Some(usize::MAX / 1024 * 1024));
    assert_eq!(buffer_bytes(Some(usize::MAX / 1024 + 1)), None);
    assert_eq!(buffer_bytes(Some(usize::MAX)), None);
}

#[test]
fn each_target_makes_one_route() {
    let routes = settings().routes().unwrap();
    assert_eq!(
        routes,
        vec![
            Route {
                protocol: Protocol::Tcp,
                listen: SocketAddress::new(IpAddress::V4(0), 9100),
                target: SocketAddress::new(IpAddress::V4(0x7f00_0001), 9100),
                idle_timeout: 5,
                buffer_size: 8192,
                coalescing: true,
                probe_liveness: false,
                mailbox_capacity: 0,
            },
            Route {
                protocol: Protocol::Tcp,
                listen: SocketAddress::new(IpAddress::V4(0), 443),
                target: SocketAddress::new(IpAddress::V4(0x0a00_0005), 443),
                idle_timeout: 5,
                buffer_size: 8192,
                coalescing: true,
                probe_liveness: false,
                mailbox_capacity: 0,
            },
            Route {
                protocol: Protocol::Udp,
                listen: SocketAddress::new(IpAddress::V4(0), 53),
                target: SocketAddress::new(IpAddress::V4(0x0a00_0005), 53),
                idle_timeout: 30,
                buffer_size: 65536,
                coalescing: false,
                probe_liveness: false,
                mailbox_capacity: 16,
            },
        ]
    );
}

#[test]
fn settings_without_targets_have_no_routes() {
    let mut conf = settings();
    conf.tcp_proxy.clear();
    conf.udp_proxy.clear();
    assert_eq!(conf.routes(), Some(vec![]));
}

#[test]
fn buffer_size_that_does_not_fit_gives_no_routes() {
    let mut conf = settings();
    conf.udp_buffer_size = Some(usize::MAX);
    assert_eq!(conf.routes(), None);
    let mut conf = settings();
    conf.tcp_buffer_size = Some(usize::MAX / 1024 + 1);
    conf.tcp_proxy.clear();
    assert_eq!(conf.routes(), None);
}

#[test]
fn route_begins_sessions_with_its_own_settings() {
    let routes = settings().routes().unwrap();
    let session = routes[0].session(Ok(()), 250).unwrap();
    assert_eq!(session.wake_at(), 5250);
    assert!(matches!(
        session.demand(Direction::Outbound),
        Some(PumpAction::Read { limit: 8192, wait: true })
    ));
}

#[test]
fn route_makes_a_listener_with_its_own_settings() {
    let routes = settings().routes().unwrap();
    let listener = routes[2].listener();
    assert_eq!(listener.target, SocketAddress::new(IpAddress::V4(0x0a00_0005), 53));
    assert_eq!(listener.inbound, SocketAddress::new(IpAddress::V4(0), 53));
    assert_eq!(listener.timeout, 30);
    assert_eq!(listener.buffer_size, 65536);
    assert_eq!(listener.table.mailbox_capacity(), 16);
}

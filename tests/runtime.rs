use netcore::fail::Fail;
use netcore::ports::FIRST_PRIVATE_PORT;
use netcore::queue::{CatloopQueue, DemiOpcode, Ipv4Endpoint, QDesc, QToken, QType, Socket};
use netcore::runtime::CatloopRuntime;
use std::collections::HashSet;

const PRIVATE_PORTS: usize = 65536 - 49152;

#[test]
fn queues_take_the_first_vacant_slot() {
    let mut rt = CatloopRuntime::new();
    let a = rt.alloc_queue(QType::TcpSocket);
    let b = rt.alloc_queue(QType::UdpSocket);
    let c = rt.alloc_queue(QType::MemoryQueue);
    assert_eq!((a, b, c), (QDesc(0), QDesc(1), QDesc(2)));
    rt.free_queue(b);
    assert_eq!(rt.get_queue(b), Err(Fail::BadQueueDescriptor));
    assert_eq!(rt.alloc_queue(QType::TcpSocket), QDesc(1));
    assert_eq!(rt.alloc_queue(QType::TcpSocket), QDesc(3));
    assert_eq!(
        rt.get_queue(c),
        Ok(&CatloopQueue { qtype: QType::MemoryQueue, socket: Socket::Active(None) })
    );
}

#[test]
fn unknown_descriptor_is_bad() {
    let mut rt = CatloopRuntime::new();
    let e = rt.get_queue(QDesc(7)).unwrap_err();
    assert_eq!(e, Fail::BadQueueDescriptor);
    assert_eq!(e.errno(), libc::EBADF);
    assert_eq!(e.cause(), "invalid queue descriptor");
    // freeing what is not open changes nothing
    rt.free_queue(QDesc(7));
    assert_eq!(rt.set_queue_socket(QDesc(7), Socket::Active(None)), Err(Fail::BadQueueDescriptor));
}

#[test]
fn errno_codes_follow_libc() {
    assert_eq!(Fail::PortOutOfRange.errno(), libc::EINVAL);
    assert_eq!(Fail::PortInUse.errno(), libc::EADDRINUSE);
    assert_eq!(Fail::PortsExhausted.errno(), libc::EADDRINUSE);
    assert_eq!(Fail::PortNotAllocated.errno(), libc::EINVAL);
}

#[test]
fn token_tables_are_independent() {
    let mut rt = CatloopRuntime::new();
    let qd = rt.alloc_queue(QType::TcpSocket);
    rt.insert_catloop_qt(QToken(11), DemiOpcode::Push, qd);
    rt.insert_catmem_qt(QToken(12), DemiOpcode::Pop, qd);
    assert_eq!(rt.get_catloop_qd(QToken(11)), Some(&(DemiOpcode::Push, qd)));
    assert_eq!(rt.get_catloop_qd(QToken(12)), None);
    assert_eq!(rt.get_catmem_qd(QToken(12)), Some(&(DemiOpcode::Pop, qd)));
    assert_eq!(rt.get_catmem_qd(QToken(11)), None);

    rt.insert_catloop_qt(QToken(11), DemiOpcode::Close, QDesc(4));
    assert_eq!(rt.get_catloop_qd(QToken(11)), Some(&(DemiOpcode::Close, QDesc(4))));

    assert_eq!(rt.free_catloop_qt(QToken(11)), Some((DemiOpcode::Close, QDesc(4))));
    assert_eq!(rt.free_catloop_qt(QToken(11)), None);
    assert_eq!(rt.free_catmem_qt(QToken(12)), Some((DemiOpcode::Pop, qd)));
    assert_eq!(rt.get_catmem_qd(QToken(12)), None);
}

#[test]
fn specific_ephemeral_ports() {
    let mut rt = CatloopRuntime::new();
    assert_eq!(rt.alloc_ephemeral_port(Some(80)), Err(Fail::PortOutOfRange));
    assert_eq!(rt.alloc_ephemeral_port(Some(FIRST_PRIVATE_PORT)), Ok(None));
    assert_eq!(rt.alloc_ephemeral_port(Some(FIRST_PRIVATE_PORT)), Err(Fail::PortInUse));
    assert_eq!(rt.alloc_ephemeral_port(Some(u16::MAX)), Ok(None));
    assert_eq!(rt.free_ephemeral_port(FIRST_PRIVATE_PORT), Ok(()));
    assert_eq!(rt.free_ephemeral_port(FIRST_PRIVATE_PORT), Err(Fail::PortNotAllocated));
    assert_eq!(rt.free_ephemeral_port(1024), Err(Fail::PortOutOfRange));
    assert_eq!(rt.alloc_ephemeral_port(Some(FIRST_PRIVATE_PORT)), Ok(None));
}

#[test]
fn any_ephemeral_port_until_exhausted() {
    let mut rt = CatloopRuntime::new();
    let mut seen: HashSet<u16> = HashSet::new();
    for _ in 0..PRIVATE_PORTS {
        let port = rt.alloc_ephemeral_port(None).unwrap().unwrap();
        assert!(port >= FIRST_PRIVATE_PORT);
        assert!(seen.insert(port));
    }
    assert_eq!(seen.len(), PRIVATE_PORTS);
    assert_eq!(rt.alloc_ephemeral_port(None), Err(Fail::PortsExhausted));
    assert_eq!(rt.free_ephemeral_port(50000), Ok(()));
    assert_eq!(rt.alloc_ephemeral_port(None), Ok(Some(50000)));
}

#[test]
fn bound_addresses() {
    let mut rt = CatloopRuntime::new();
    let local = Ipv4Endpoint { addr: 0x7f00_0001, port: 50001 };
    let other = Ipv4Endpoint { addr: 0x7f00_0001, port: 8080 };
    let a = rt.alloc_queue(QType::TcpSocket);
    let b = rt.alloc_queue(QType::TcpSocket);
    assert!(rt.is_bound_to_addr(local));
    assert_eq!(rt.set_queue_socket(a, Socket::Active(Some(local))), Ok(()));
    assert!(!rt.is_bound_to_addr(local));
    assert!(rt.is_bound_to_addr(other));
    assert_eq!(rt.set_queue_socket(b, Socket::Passive(other)), Ok(()));
    assert!(!rt.is_bound_to_addr(other));
    assert_eq!(rt.get_queue(b).unwrap().socket, Socket::Passive(other));
    rt.free_queue(a);
    assert!(rt.is_bound_to_addr(local));
}

#[test]
fn release_returns_private_ports_of_bound_sockets() {
    let mut rt = CatloopRuntime::new();
    assert_eq!(rt.alloc_ephemeral_port(Some(50001)), Ok(None));
    assert_eq!(rt.alloc_ephemeral_port(Some(50002)), Ok(None));
    let a = rt.alloc_queue(QType::TcpSocket);
    let b = rt.alloc_queue(QType::TcpSocket);
    let c = rt.alloc_queue(QType::TcpSocket);
    let _unbound = rt.alloc_queue(QType::UdpSocket);
    rt.set_queue_socket(a, Socket::Active(Some(Ipv4Endpoint { addr: 1, port: 50001 }))).unwrap();
    rt.set_queue_socket(b, Socket::Passive(Ipv4Endpoint { addr: 1, port: 80 })).unwrap();
    rt.set_queue_socket(c, Socket::Passive(Ipv4Endpoint { addr: 2, port: 50001 })).unwrap();
    rt.release_ports();
    // 50001 is free again (once), 50002 was not bound and stays allocated
    assert_eq!(rt.alloc_ephemeral_port(Some(50001)), Ok(None));
    assert_eq!(rt.alloc_ephemeral_port(Some(50001)), Err(Fail::PortInUse));
    assert_eq!(rt.alloc_ephemeral_port(Some(50002)), Err(Fail::PortInUse));
}

#[test]
fn ephemeral_ports_come_shuffled() {
    let mut rt = CatloopRuntime::new();
    let first: Vec<u16> = (0..16).map(|_| rt.alloc_ephemeral_port(None).unwrap().unwrap()).collect();
    let descending: Vec<u16> = (0..16).map(|i| u16::MAX - i).collect();
    let ascending: Vec<u16> = (0..16).map(|i| FIRST_PRIVATE_PORT + i).collect();
    assert_ne!(first, descending);
    assert_ne!(first, ascending);
}

#[test]
fn failures_describe_themselves() {
    assert_eq!(Fail::PortOutOfRange.cause(), "port number not in the ephemeral range");
    assert_eq!(Fail::PortInUse.cause(), "port number in use");
    assert_eq!(
        Fail::PortsExhausted.cause(),
        "all port numbers in the ephemeral range are currently in use"
    );
    assert_eq!(Fail::PortNotAllocated.cause(), "port number not allocated");
}

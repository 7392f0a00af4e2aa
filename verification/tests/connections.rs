use fault_recorder::services::server::connections::TcpServerConnections;

/// A stand-in for a kept connection: its number and whether its thread has
/// finished.
#[derive(Debug, Clone, Copy, PartialEq)]
struct Conn {
    n: u32,
    finished: bool,
}

fn finished(c: &Conn) -> bool {
    c.finished
}

#[test]
fn connections_new_is_named_after_parent() {
    let conns: TcpServerConnections<Conn> = TcpServerConnections::new("App/TcpServer");
    assert_eq!(conns.id, "App/TcpServer/TcpServerConnections");
    assert_eq!(conns.connections.len(), 0);
}

#[test]
fn connections_repair_unknown_id() {
    let conns: TcpServerConnections<Conn> = TcpServerConnections::new("App/TcpServer");
    let res = conns.repair("c1", finished);
    assert_eq!(
        res,
        Err("App/TcpServer/TcpServerConnections.repair | Keeped connection 'c1' - not found".to_string())
    );
}

#[test]
fn connections_repair_running_and_finished() {
    let mut conns = TcpServerConnections::new("Srv");
    conns.insert("c1", Conn { n: 1, finished: false });
    conns.insert("c2", Conn { n: 2, finished: true });
    assert_eq!(conns.repair("c1", finished), Ok(&Conn { n: 1, finished: false }));
    assert_eq!(
        conns.repair("c2", finished),
        Err("Srv/TcpServerConnections.repair | Keeped connection 'c2' - exceeded".to_string())
    );
}

#[test]
fn connections_insert_replaces_same_id() {
    let mut conns = TcpServerConnections::new("Srv");
    conns.insert("c1", Conn { n: 1, finished: true });
    conns.insert("c1", Conn { n: 7, finished: false });
    assert_eq!(conns.connections.len(), 1);
    assert_eq!(conns.repair("c1", finished), Ok(&Conn { n: 7, finished: false }));
}

#[test]
fn connections_clean_removes_finished_only() {
    let mut conns = TcpServerConnections::new("Srv");
    conns.insert("a", Conn { n: 1, finished: true });
    conns.insert("b", Conn { n: 2, finished: false });
    conns.insert("c", Conn { n: 3, finished: true });
    let removed = conns.clean(finished);
    assert_eq!(
        removed,
        vec![("a".to_string(), Conn { n: 1, finished: true }), ("c".to_string(), Conn { n: 3, finished: true })]
    );
    assert_eq!(conns.connections.len(), 1);
    assert_eq!(conns.repair("b", finished), Ok(&Conn { n: 2, finished: false }));
    assert!(conns.repair("a", finished).is_err());
    assert!(conns.clean(finished).is_empty());
}

#[test]
fn connections_take_first_drains_in_order() {
    let mut conns = TcpServerConnections::new("Srv");
    conns.insert("x", Conn { n: 1, finished: false });
    conns.insert("y", Conn { n: 2, finished: false });
    assert_eq!(conns.take_first(), Some(("x".to_string(), Conn { n: 1, finished: false })));
    assert_eq!(conns.take_first(), Some(("y".to_string(), Conn { n: 2, finished: false })));
    assert_eq!(conns.take_first(), None);
}

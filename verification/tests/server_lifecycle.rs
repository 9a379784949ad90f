use std::time::Duration;

use dtls_transport::error::DtlsError;
use dtls_transport::server::dtls_server::{ConnIndex, DtlsServer};
use dtls_transport::server::registry::AdmitOutcome;

fn expect_err<T>(r: Result<T, DtlsError>) -> DtlsError {
    match r {
        Ok(_) => panic!("expected an error"),
        Err(e) => e,
    }
}

fn finished_handle(
    rt: &tokio::runtime::Runtime,
) -> tokio::task::JoinHandle<Result<(), DtlsError>> {
    rt.spawn(async { Ok(()) })
}

fn admit_index(server: &mut DtlsServer) -> ConnIndex {
    match server.admit_peer() {
        AdmitOutcome::Admitted(idx) => idx,
        AdmitOutcome::Full => panic!("registry unexpectedly full"),
        AdmitOutcome::Exhausted => panic!("index space unexpectedly exhausted"),
    }
}

#[test]
fn new_server_is_closed() {
    let server = DtlsServer::new(4, 1024, 3, Some(5)).unwrap();
    assert!(server.is_closed());
    assert_eq!(server.connected_clients(), 0);
    assert!(server.client_indices().is_empty());
}

#[test]
fn polls_on_closed_server_report_nothing() {
    let mut server = DtlsServer::new(4, 64, 1, None).unwrap();
    assert!(server.acpt().is_none());
    assert!(server.recv().is_none());
    assert!(server.timeout_check().is_ok());
    let h = server.health_check();
    assert!(h.listener.is_none());
    assert!(h.conns.is_empty());
}

#[test]
fn server_start_twice_fails_with_not_closed() {
    let mut server = DtlsServer::new(4, 64, 1, None).unwrap();
    let _wiring = server.start().unwrap();
    assert!(!server.is_closed());
    let e = expect_err(server.start());
    assert!(matches!(e, DtlsError::NotClosed));
}

#[test]
fn indices_start_at_one_and_grow_strictly() {
    let mut server = DtlsServer::new(8, 64, 1, None).unwrap();
    let a = admit_index(&mut server);
    let b = admit_index(&mut server);
    let c = admit_index(&mut server);
    assert_eq!(a.index(), 1);
    assert_eq!(b.index(), 2);
    assert_eq!(c.index(), 3);
    assert!(a.index() >= 1 && a.index() < b.index() && b.index() < c.index());
    assert_eq!(server.connected_clients(), 3);
    assert_eq!(server.client_indices(), vec![1, 2, 3]);
}

#[test]
fn max_clients_rejects_the_next_peer_without_consuming_an_index() {
    let mut server = DtlsServer::new(2, 64, 1, None).unwrap();
    let a = admit_index(&mut server);
    let b = admit_index(&mut server);
    assert_eq!((a.index(), b.index()), (1, 2));
    // The third handshake completes at the library level but the accepter
    // closes the peer: no index is assigned.
    assert!(matches!(server.admit_peer(), AdmitOutcome::Full));
    assert!(matches!(server.admit_peer(), AdmitOutcome::Full));
    assert_eq!(server.connected_clients(), 2);
    assert_eq!(server.client_indices(), vec![1, 2]);
}

#[test]
fn acpt_drains_the_accept_queue_in_admission_order() {
    let mut server = DtlsServer::new(4, 64, 1, None).unwrap();
    let wiring = server.start().unwrap();
    let a = admit_index(&mut server);
    let b = admit_index(&mut server);
    wiring.acpt_tx.send(a).unwrap();
    wiring.acpt_tx.send(b).unwrap();
    assert_eq!(server.acpt().unwrap().index(), 1);
    assert_eq!(server.acpt().unwrap().index(), 2);
    assert!(server.acpt().is_none());
}

#[test]
fn send_to_unknown_connection_fails_with_no_such_conn() {
    let mut server = DtlsServer::new(4, 64, 1, None).unwrap();
    let _wiring = server.start().unwrap();
    let e = server.send(42, vec![1]).unwrap_err();
    assert!(matches!(e, DtlsError::NoSuchConn(42)));
}

#[test]
fn send_before_start_conn_fails_with_no_such_conn() {
    // The send endpoint cannot be found yet, so the send fails the same way
    // as for an unknown index.
    let mut server = DtlsServer::new(4, 64, 1, None).unwrap();
    let _wiring = server.start().unwrap();
    let idx = admit_index(&mut server);
    let e = server.send(idx.index(), vec![1]).unwrap_err();
    assert!(matches!(e, DtlsError::NoSuchConn(k) if k == idx.index()));
}

#[test]
fn send_after_sender_gone_fails_with_no_such_conn() {
    // The peer is registered but its sender loop dropped the queue: the send
    // endpoint cannot be found any more.
    let mut server = DtlsServer::new(4, 64, 1, None).unwrap();
    let _wiring = server.start().unwrap();
    let idx = admit_index(&mut server);
    let conn_wiring = server.start_conn(idx).unwrap();
    drop(conn_wiring);
    let e = server.send(idx.index(), vec![1]).unwrap_err();
    assert!(matches!(e, DtlsError::NoSuchConn(k) if k == idx.index()));
    assert!(server.has_conn(idx.index()));
}

#[test]
fn send_after_disconnect_fails_with_no_such_conn() {
    let mut server = DtlsServer::new(4, 64, 1, None).unwrap();
    let _wiring = server.start().unwrap();
    let idx = admit_index(&mut server);
    let _conn_wiring = server.start_conn(idx).unwrap();
    server.disconnect(idx.index());
    let e = server.send(idx.index(), vec![1]).unwrap_err();
    assert!(matches!(e, DtlsError::NoSuchConn(k) if k == idx.index()));
}

#[test]
fn start_conn_before_start_fails_with_not_started() {
    let mut server = DtlsServer::new(4, 64, 1, None).unwrap();
    let idx = admit_index(&mut server);
    let e = expect_err(server.start_conn(idx));
    assert!(matches!(e, DtlsError::NotStarted));
}

#[test]
fn start_conn_unknown_index_fails_with_no_such_conn() {
    let mut server = DtlsServer::new(4, 64, 1, None).unwrap();
    let _wiring = server.start().unwrap();
    let e = expect_err(server.start_conn(ConnIndex::new(9)));
    assert!(matches!(e, DtlsError::NoSuchConn(9)));
}

#[test]
fn per_connection_send_reaches_that_connection_in_order() {
    let mut server = DtlsServer::new(4, 64, 1, None).unwrap();
    let _wiring = server.start().unwrap();
    let idx = admit_index(&mut server);
    let mut conn_wiring = server.start_conn(idx).unwrap();
    assert_eq!(conn_wiring.recv_buf_size, 64);
    assert_eq!(conn_wiring.send_timeout_secs, 1);
    server.send(idx.index(), b"one".to_vec()).unwrap();
    server.send(idx.index(), b"two".to_vec()).unwrap();
    assert_eq!(conn_wiring.send_rx.try_recv().unwrap(), b"one".to_vec());
    assert_eq!(conn_wiring.send_rx.try_recv().unwrap(), b"two".to_vec());
    assert!(conn_wiring.send_rx.try_recv().is_err());
}

#[test]
fn recv_drains_per_connection_traffic_in_arrival_order() {
    let mut server = DtlsServer::new(4, 64, 1, None).unwrap();
    let _wiring = server.start().unwrap();
    let idx = admit_index(&mut server);
    let conn_wiring = server.start_conn(idx).unwrap();
    conn_wiring.recv_tx.send((idx, b"ping".to_vec())).unwrap();
    conn_wiring.recv_tx.send((idx, b"ping2".to_vec())).unwrap();
    let (i1, b1) = server.recv().unwrap();
    let (i2, b2) = server.recv().unwrap();
    assert_eq!(i1.index(), idx.index());
    assert_eq!(b1, b"ping".to_vec());
    assert_eq!(i2.index(), idx.index());
    assert_eq!(b2, b"ping2".to_vec());
    assert!(server.recv().is_none());
}

#[test]
fn broadcast_reaches_every_live_sender_and_skips_dead_ones() {
    let mut server = DtlsServer::new(4, 64, 1, None).unwrap();
    let _wiring = server.start().unwrap();
    let a = admit_index(&mut server);
    let b = admit_index(&mut server);
    let c = admit_index(&mut server);
    let mut wa = server.start_conn(a).unwrap();
    let mut wb = server.start_conn(b).unwrap();
    // c is admitted but never started: no live sender.
    assert_eq!(server.broadcast_targets(), vec![a.index(), b.index()]);
    server.broadcast(&b"hello".to_vec()).unwrap();
    assert_eq!(wa.send_rx.try_recv().unwrap(), b"hello".to_vec());
    assert_eq!(wb.send_rx.try_recv().unwrap(), b"hello".to_vec());
    // After disconnecting b, only a is reached; b is skipped, not retried.
    server.disconnect(b.index());
    assert_eq!(server.broadcast_targets(), vec![a.index()]);
    server.broadcast(&b"again".to_vec()).unwrap();
    assert_eq!(wa.send_rx.try_recv().unwrap(), b"again".to_vec());
    assert!(wb.send_rx.try_recv().is_err());
    assert_eq!(server.connected_clients(), 3);
    let _ = c;
}

#[test]
fn disconnect_is_idempotent_and_ignores_unknown_indices() {
    let mut server = DtlsServer::new(4, 64, 1, None).unwrap();
    let _wiring = server.start().unwrap();
    let a = admit_index(&mut server);
    let _wa = server.start_conn(a).unwrap();
    server.disconnect(a.index());
    let targets_once = server.broadcast_targets();
    let count_once = server.connected_clients();
    server.disconnect(a.index());
    assert_eq!(server.broadcast_targets(), targets_once);
    assert_eq!(server.connected_clients(), count_once);
    server.disconnect(999);
    assert_eq!(server.connected_clients(), count_once);
}

#[test]
fn disconnect_all_equals_disconnecting_each_and_is_idempotent() {
    let mut server = DtlsServer::new(4, 64, 1, None).unwrap();
    let _wiring = server.start().unwrap();
    let a = admit_index(&mut server);
    let b = admit_index(&mut server);
    let _wa = server.start_conn(a).unwrap();
    let _wb = server.start_conn(b).unwrap();
    server.disconnect_all();
    assert!(server.broadcast_targets().is_empty());
    assert_eq!(server.connected_clients(), 2);
    server.disconnect_all();
    assert!(server.broadcast_targets().is_empty());
    assert_eq!(server.connected_clients(), 2);
}

#[test]
fn close_is_idempotent_and_signals_the_accepter() {
    let mut server = DtlsServer::new(4, 64, 1, None).unwrap();
    let mut wiring = server.start().unwrap();
    server.close();
    assert!(wiring.close_acpt_rx.try_recv().is_ok());
    server.close();
    assert!(server.acpt().is_none());
    assert!(server.recv().is_none());
    assert!(server.timeout_check().is_ok());
}

#[test]
fn reaping_both_workers_removes_the_connection_and_decrements_the_count() {
    let rt = tokio::runtime::Runtime::new().unwrap();
    let mut server = DtlsServer::new(4, 64, 1, Some(1)).unwrap();
    let _wiring = server.start().unwrap();
    let a = admit_index(&mut server);
    let b = admit_index(&mut server);
    let _wa = server.start_conn(a).unwrap();
    let _wb = server.start_conn(b).unwrap();
    server
        .attach_conn_workers(a, finished_handle(&rt), finished_handle(&rt))
        .unwrap();
    assert_eq!(server.connected_clients(), 2);
    server.disconnect(a.index());
    let mut closed_seen = false;
    for _ in 0..2000 {
        let h = server.health_check();
        for ch in &h.conns {
            assert_eq!(ch.conn_index.index(), a.index());
            if ch.closed {
                closed_seen = true;
            }
        }
        if closed_seen {
            break;
        }
        rt.block_on(async { tokio::time::sleep(Duration::from_millis(5)).await });
    }
    assert!(closed_seen);
    assert_eq!(server.connected_clients(), 1);
    assert!(!server.has_conn(a.index()));
    assert!(server.has_conn(b.index()));
}

#[test]
fn accepter_reap_clears_the_listener() {
    let rt = tokio::runtime::Runtime::new().unwrap();
    let mut server = DtlsServer::new(4, 64, 1, None).unwrap();
    let _wiring = server.start().unwrap();
    server.attach_acpt_worker(finished_handle(&rt)).unwrap();
    server.close();
    let mut listener_result = None;
    for _ in 0..2000 {
        let h = server.health_check();
        if h.listener.is_some() {
            listener_result = h.listener;
            break;
        }
        rt.block_on(async { tokio::time::sleep(Duration::from_millis(5)).await });
    }
    assert!(listener_result.unwrap().is_ok());
    assert!(server.is_closed());
}

#[test]
fn attach_conn_workers_twice_is_rejected() {
    let rt = tokio::runtime::Runtime::new().unwrap();
    let mut server = DtlsServer::new(4, 64, 1, None).unwrap();
    let _wiring = server.start().unwrap();
    let a = admit_index(&mut server);
    let _wa = server.start_conn(a).unwrap();
    server
        .attach_conn_workers(a, finished_handle(&rt), finished_handle(&rt))
        .unwrap();
    let e = server
        .attach_conn_workers(a, finished_handle(&rt), finished_handle(&rt))
        .unwrap_err();
    assert!(matches!(e, DtlsError::AlreadyStarted(_)));
    let e2 = expect_err(server.start_conn(a));
    assert!(matches!(e2, DtlsError::AlreadyStarted(_)));
}

#[test]
fn has_conn_tracks_the_registry() {
    let mut server = DtlsServer::new(4, 64, 1, None).unwrap();
    assert!(!server.has_conn(1));
    let a = admit_index(&mut server);
    assert!(server.has_conn(a.index()));
    assert!(!server.has_conn(a.index() + 1));
}

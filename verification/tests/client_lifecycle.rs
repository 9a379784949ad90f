use std::time::Duration;

use dtls_transport::client::dtls_client::{DtlsClient, DtlsClientTimeout};
use dtls_transport::error::DtlsError;

fn expect_err<T>(r: Result<T, DtlsError>) -> DtlsError {
    match r {
        Ok(_) => panic!("expected an error"),
        Err(e) => e,
    }
}

fn finished_handle(
    rt: &tokio::runtime::Runtime,
) -> tokio::task::JoinHandle<Result<(), DtlsError>> {
    rt.spawn(async { Ok(()) })
}

fn failed_handle(
    rt: &tokio::runtime::Runtime,
    msg: &str,
) -> tokio::task::JoinHandle<Result<(), DtlsError>> {
    let m = msg.to_string();
    rt.spawn(async move { Err(DtlsError::Io(m)) })
}

fn reap_until_closed(client: &mut DtlsClient) -> Vec<Option<Result<(), DtlsError>>> {
    let rt = tokio::runtime::Runtime::new().unwrap();
    let mut results = Vec::new();
    for _ in 0..2000 {
        let h = client.health_check();
        if h.sender.is_some() {
            results.push(h.sender);
        }
        if h.recver.is_some() {
            results.push(h.recver);
        }
        if h.closed {
            return results;
        }
        rt.block_on(async { tokio::time::sleep(Duration::from_millis(5)).await });
    }
    panic!("workers were never reaped");
}

#[test]
fn new_client_is_closed() {
    let client = DtlsClient::new(1024, 3).unwrap();
    assert!(client.is_closed());
}

#[test]
fn send_without_start_is_not_connected() {
    let client = DtlsClient::new(64, 1).unwrap();
    let e = client.send(vec![1, 2, 3]).unwrap_err();
    assert!(matches!(e, DtlsError::NotConnected));
}

#[test]
fn polls_on_closed_client_report_nothing() {
    let mut client = DtlsClient::new(64, 1).unwrap();
    assert!(client.recv().is_none());
    assert!(client.timeout_check().is_ok());
    let h = client.health_check();
    assert!(h.sender.is_none());
    assert!(h.recver.is_none());
    assert!(!h.closed);
}

#[test]
fn client_start_twice_fails_with_not_closed() {
    let mut client = DtlsClient::new(64, 1).unwrap();
    let _wiring = client.start().unwrap();
    assert!(!client.is_closed());
    let e = expect_err(client.start());
    assert!(matches!(e, DtlsError::NotClosed));
}

#[test]
fn send_reaches_the_sender_loop_in_order() {
    let mut client = DtlsClient::new(64, 1).unwrap();
    let mut wiring = client.start().unwrap();
    client.send(vec![1]).unwrap();
    client.send(vec![2, 2]).unwrap();
    client.send(vec![3, 3, 3]).unwrap();
    assert_eq!(wiring.send_rx.try_recv().unwrap(), vec![1]);
    assert_eq!(wiring.send_rx.try_recv().unwrap(), vec![2, 2]);
    assert_eq!(wiring.send_rx.try_recv().unwrap(), vec![3, 3, 3]);
    assert!(wiring.send_rx.try_recv().is_err());
}

#[test]
fn send_after_worker_side_dropped_is_not_connected() {
    let mut client = DtlsClient::new(64, 1).unwrap();
    let wiring = client.start().unwrap();
    drop(wiring);
    let e = client.send(vec![9]).unwrap_err();
    assert!(matches!(e, DtlsError::NotConnected));
}

#[test]
fn recv_drains_what_the_receiver_delivered() {
    let mut client = DtlsClient::new(64, 1).unwrap();
    let wiring = client.start().unwrap();
    wiring.recv_tx.send(b"pong".to_vec()).unwrap();
    wiring.recv_tx.send(b"pong2".to_vec()).unwrap();
    assert_eq!(client.recv().unwrap(), b"pong".to_vec());
    assert_eq!(client.recv().unwrap(), b"pong2".to_vec());
    assert!(client.recv().is_none());
}

#[test]
fn timeout_check_carries_back_the_exact_bytes() {
    let mut client = DtlsClient::new(64, 1).unwrap();
    let wiring = client.start().unwrap();
    let original = vec![7u8, 8, 9, 10];
    wiring
        .send_timeout_tx
        .send(DtlsClientTimeout::Send(original.clone()))
        .unwrap();
    match client.timeout_check() {
        Err(DtlsClientTimeout::Send(b)) => {
            assert_eq!(b, original);
            assert_eq!(b.len(), original.len());
        }
        Ok(()) => panic!("expected a send timeout"),
    }
    assert!(client.timeout_check().is_ok());
}

#[test]
fn disconnect_is_idempotent() {
    let mut client = DtlsClient::new(64, 1).unwrap();
    let _wiring = client.start().unwrap();
    client.disconnect();
    let once_closed = client.is_closed();
    client.disconnect();
    assert_eq!(client.is_closed(), once_closed);
    client.send(vec![1]).unwrap_err();
    assert!(client.recv().is_none());
    assert!(client.timeout_check().is_ok());
}

#[test]
fn disconnect_on_closed_client_is_safe() {
    let mut client = DtlsClient::new(64, 1).unwrap();
    client.disconnect();
    client.disconnect();
    assert!(client.is_closed());
}

#[test]
fn close_signal_reaches_both_workers() {
    let mut client = DtlsClient::new(64, 1).unwrap();
    let mut wiring = client.start().unwrap();
    client.disconnect();
    assert!(wiring.close_send_rx.try_recv().is_ok());
    assert!(wiring.close_recv_rx.try_recv().is_ok());
}

#[test]
fn graceful_close_after_sends_then_restart() {
    // Ten successful sends, then disconnect; health checks confirm the
    // close with no fatal result; afterwards a new start succeeds.
    let rt = tokio::runtime::Runtime::new().unwrap();
    let mut client = DtlsClient::new(64, 1).unwrap();
    let mut wiring = client.start().unwrap();
    let send_h = finished_handle(&rt);
    let recv_h = finished_handle(&rt);
    client.attach_workers(send_h, recv_h).unwrap();
    for i in 0..10u8 {
        client.send(vec![i]).unwrap();
    }
    for i in 0..10u8 {
        assert_eq!(wiring.send_rx.try_recv().unwrap(), vec![i]);
    }
    client.disconnect();
    let results = reap_until_closed(&mut client);
    assert_eq!(results.len(), 2);
    for r in results {
        assert!(r.unwrap().is_ok());
    }
    assert!(client.is_closed());
    let _wiring2 = client.start().unwrap();
    assert!(!client.is_closed());
}

#[test]
fn fatal_worker_result_surfaces_through_health_check() {
    let rt = tokio::runtime::Runtime::new().unwrap();
    let mut client = DtlsClient::new(64, 1).unwrap();
    let _wiring = client.start().unwrap();
    let send_h = failed_handle(&rt, "socket torn");
    let recv_h = finished_handle(&rt);
    client.attach_workers(send_h, recv_h).unwrap();
    let results = reap_until_closed(&mut client);
    let mut saw_fatal = false;
    for r in results {
        match r.unwrap() {
            Ok(()) => {}
            Err(DtlsError::Io(msg)) => {
                assert_eq!(msg, "socket torn");
                saw_fatal = true;
            }
            Err(e) => panic!("unexpected error: {e:?}"),
        }
    }
    assert!(saw_fatal);
    // The connection slot is cleared, but the queue ends stay until the
    // foreground reacts to the fatal result with a disconnect.
    assert!(!client.is_closed());
    client.disconnect();
    assert!(client.is_closed());
}

#[test]
fn attach_workers_twice_is_rejected() {
    let rt = tokio::runtime::Runtime::new().unwrap();
    let mut client = DtlsClient::new(64, 1).unwrap();
    let _wiring = client.start().unwrap();
    client
        .attach_workers(finished_handle(&rt), finished_handle(&rt))
        .unwrap();
    let e = client
        .attach_workers(finished_handle(&rt), finished_handle(&rt))
        .unwrap_err();
    assert!(matches!(e, DtlsError::AlreadyStarted(_)));
}

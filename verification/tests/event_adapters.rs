use dtls_transport::client::dtls_client::{DtlsClient, DtlsClientHealth, DtlsClientTimeout};
use dtls_transport::client::event::{events_of_health, DtlsClientEvent};
use dtls_transport::client::health::{errors_of_health as client_errors_of_health, DtlsClientError};
use dtls_transport::error::DtlsError;
use dtls_transport::server::dtls_server::{
    ConnIndex, DtlsConnHealth, DtlsServer, DtlsServerHealth, DtlsServerTimeout,
};
use dtls_transport::server::event as server_event;
use dtls_transport::server::health as server_health;

#[test]
fn client_health_events_order_errors_before_closed() {
    let h = DtlsClientHealth {
        sender: Some(Err(DtlsError::Io("s".to_string()))),
        recver: Some(Err(DtlsError::Io("r".to_string()))),
        closed: true,
    };
    let evs = events_of_health(h);
    assert_eq!(evs.len(), 3);
    assert!(matches!(&evs[0], DtlsClientEvent::Error { err: DtlsError::Io(m) } if m == "s"));
    assert!(matches!(&evs[1], DtlsClientEvent::Error { err: DtlsError::Io(m) } if m == "r"));
    assert!(matches!(&evs[2], DtlsClientEvent::ConnClosed));
}

#[test]
fn client_health_events_skip_graceful_results() {
    let h = DtlsClientHealth {
        sender: Some(Ok(())),
        recver: None,
        closed: false,
    };
    let evs = events_of_health(h);
    assert!(evs.is_empty());
}

#[test]
fn client_error_reports_drop_the_closed_notice() {
    let h = DtlsClientHealth {
        sender: None,
        recver: Some(Err(DtlsError::Io("gone".to_string()))),
        closed: true,
    };
    let evs = client_errors_of_health(h);
    assert_eq!(evs.len(), 1);
    assert!(matches!(&evs[0], DtlsClientError::Fatal { err: DtlsError::Io(m) } if m == "gone"));
}

#[test]
fn client_timeout_event_system_maps_and_bounds_the_drain() {
    let mut client = DtlsClient::new(64, 1).unwrap();
    let wiring = client.start().unwrap();
    for i in 0..5u8 {
        wiring
            .send_timeout_tx
            .send(DtlsClientTimeout::Send(vec![i]))
            .unwrap();
    }
    let evs = dtls_transport::client::event::timeout_event_system(&mut client, 3);
    assert_eq!(evs.len(), 3);
    for (i, ev) in evs.iter().enumerate() {
        match ev {
            DtlsClientEvent::SendTimeout { bytes } => assert_eq!(bytes, &vec![i as u8]),
            _ => panic!("expected only send timeouts"),
        }
    }
    let evs2 = dtls_transport::client::event::timeout_event_system(&mut client, 10);
    assert_eq!(evs2.len(), 2);
}

#[test]
fn server_health_events_tag_each_connection_and_order_within_it() {
    let h = DtlsServerHealth {
        listener: Some(Err(DtlsError::Io("bind lost".to_string()))),
        conns: vec![
            DtlsConnHealth {
                conn_index: ConnIndex::new(1),
                sender: Some(Err(DtlsError::Io("s1".to_string()))),
                recver: None,
                closed: false,
            },
            DtlsConnHealth {
                conn_index: ConnIndex::new(2),
                sender: None,
                recver: Some(Err(DtlsError::Io("r2".to_string()))),
                closed: true,
            },
        ],
    };
    let evs = server_event::events_of_health(h);
    assert_eq!(evs.len(), 5);
    assert!(
        matches!(&evs[0], server_event::DtlsServerEvent::Error { err: DtlsError::Io(m) } if m == "bind lost")
    );
    assert!(matches!(&evs[1], server_event::DtlsServerEvent::ListenerClosed));
    assert!(matches!(
        &evs[2],
        server_event::DtlsServerEvent::ConnError { conn_index: 1, err: DtlsError::Io(m) } if m == "s1"
    ));
    assert!(matches!(
        &evs[3],
        server_event::DtlsServerEvent::ConnError { conn_index: 2, err: DtlsError::Io(m) } if m == "r2"
    ));
    assert!(matches!(
        &evs[4],
        server_event::DtlsServerEvent::ConnClosed { conn_index: 2 }
    ));
}

#[test]
fn server_error_reports_tell_whether_the_listener_closed() {
    let h = DtlsServerHealth {
        listener: Some(Ok(())),
        conns: vec![DtlsConnHealth {
            conn_index: ConnIndex::new(4),
            sender: Some(Err(DtlsError::Io("s4".to_string()))),
            recver: Some(Ok(())),
            closed: true,
        }],
    };
    let (evs, closed) = server_health::errors_of_health(h);
    assert!(closed.is_some());
    assert_eq!(evs.len(), 1);
    assert!(matches!(
        &evs[0],
        server_health::DtlsServerError::ConnError { conn_index, err: DtlsError::Io(m) }
            if conn_index.index() == 4 && m == "s4"
    ));
    let none = DtlsServerHealth { listener: None, conns: Vec::new() };
    let (evs2, closed2) = server_health::errors_of_health(none);
    assert!(evs2.is_empty());
    assert!(closed2.is_none());
}

#[test]
fn server_timeout_event_system_maps_both_kinds() {
    let mut server = DtlsServer::new(4, 64, 1, Some(1)).unwrap();
    let _wiring = server.start().unwrap();
    let idx = match server.admit_peer() {
        dtls_transport::server::registry::AdmitOutcome::Admitted(i) => i,
        _ => panic!("admission failed"),
    };
    let conn_wiring = server.start_conn(idx).unwrap();
    conn_wiring
        .send_timeout_tx
        .send(DtlsServerTimeout::Send { conn_index: idx, bytes: b"lost".to_vec() })
        .unwrap();
    conn_wiring
        .recv_timeout_tx
        .send(DtlsServerTimeout::Recv(idx))
        .unwrap();
    let evs = server_event::timeout_event_system(&mut server, 8);
    assert_eq!(evs.len(), 2);
    assert!(matches!(
        &evs[0],
        server_event::DtlsServerEvent::SendTimeout { conn_index, bytes }
            if *conn_index == idx.index() && bytes == &b"lost".to_vec()
    ));
    assert!(matches!(
        &evs[1],
        server_event::DtlsServerEvent::RecvTimeout { conn_index } if *conn_index == idx.index()
    ));
}

#[test]
fn health_event_systems_run_on_idle_facades() {
    let mut client = DtlsClient::new(64, 1).unwrap();
    assert!(dtls_transport::client::event::health_event_system(&mut client).is_empty());
    assert!(dtls_transport::client::health::fatal_event_system(&mut client).is_empty());
    let mut server = DtlsServer::new(4, 64, 1, None).unwrap();
    assert!(server_event::health_event_system(&mut server).is_empty());
    let (evs, closed) = server_health::fatal_event_system(&mut server);
    assert!(evs.is_empty());
    assert!(closed.is_none());
}

use dtls_transport::client::dtls_client::{
    client_recver_step, client_sender_step, ClientRecverStep, ClientSenderStep, DtlsClientTimeout,
};
use dtls_transport::error::DtlsError;
use dtls_transport::server::dtls_server::{
    accepter_step, server_recver_step, server_sender_step, AccepterEvent, AccepterStep,
    ConnIndex, DtlsServerTimeout, ServerRecverStep, ServerSenderStep,
};
use dtls_transport::server::registry::AdmitOutcome;
use dtls_transport::worker::{take_record, RecvOutcome, SendOutcome};

#[test]
fn take_record_copies_exactly_the_first_n_bytes() {
    let buf = vec![10u8, 20, 30, 40, 50];
    assert_eq!(take_record(&buf, 0), Vec::<u8>::new());
    assert_eq!(take_record(&buf, 3), vec![10, 20, 30]);
    assert_eq!(take_record(&buf, 5), vec![10, 20, 30, 40, 50]);
    // The buffer itself is untouched, so the delivered datagram never
    // aliases it.
    assert_eq!(buf, vec![10, 20, 30, 40, 50]);
}

#[test]
fn one_byte_buffer_delivers_exactly_one_byte() {
    // With a one-byte receive buffer a record is delivered byte for byte as
    // far as the transport reported it; nothing is silently truncated here.
    let buf = vec![42u8];
    assert_eq!(take_record(&buf, 1), vec![42]);
    assert_eq!(take_record(&buf, 0), Vec::<u8>::new());
}

#[test]
fn client_sender_timeout_carries_back_identical_bytes() {
    let msg = vec![1u8, 2, 3, 4, 5];
    match client_sender_step(msg.clone(), SendOutcome::TimedOut) {
        ClientSenderStep::Report(DtlsClientTimeout::Send(b)) => {
            assert_eq!(b, msg);
            assert_eq!(b.len(), msg.len());
        }
        _ => panic!("expected a timeout report"),
    }
}

#[test]
fn client_sender_proceeds_on_success_and_exits_on_error() {
    assert!(matches!(
        client_sender_step(vec![1], SendOutcome::Sent(1)),
        ClientSenderStep::Proceed
    ));
    match client_sender_step(vec![1], SendOutcome::Failed("broken pipe".to_string())) {
        ClientSenderStep::Exit(Err(DtlsError::Io(m))) => assert_eq!(m, "broken pipe"),
        _ => panic!("expected a fatal exit"),
    }
}

#[test]
fn server_sender_timeout_is_tagged_with_the_connection() {
    let idx = ConnIndex::new(7);
    let msg = vec![9u8, 9, 9];
    match server_sender_step(idx, msg.clone(), SendOutcome::TimedOut) {
        ServerSenderStep::Report(DtlsServerTimeout::Send { conn_index, bytes }) => {
            assert_eq!(conn_index.index(), 7);
            assert_eq!(bytes, msg);
        }
        _ => panic!("expected a timeout report"),
    }
    assert!(matches!(
        server_sender_step(idx, vec![1], SendOutcome::Sent(1)),
        ServerSenderStep::Proceed
    ));
}

#[test]
fn accepter_announces_admissions_and_exits_on_fatal_outcomes() {
    let idx = ConnIndex::new(5);
    match accepter_step(AccepterEvent::PeerOffered(AdmitOutcome::Admitted(idx))) {
        AccepterStep::Announce(i) => assert_eq!(i.index(), 5),
        _ => panic!("expected an announcement"),
    }
    assert!(matches!(
        accepter_step(AccepterEvent::PeerOffered(AdmitOutcome::Full)),
        AccepterStep::RejectPeer
    ));
    match accepter_step(AccepterEvent::PeerOffered(AdmitOutcome::Exhausted)) {
        AccepterStep::Exit(Err(DtlsError::IndexExhausted)) => {}
        _ => panic!("expected a fatal exit"),
    }
    match accepter_step(AccepterEvent::AcceptFailed("listener torn".to_string())) {
        AccepterStep::Exit(Err(DtlsError::Io(m))) => assert_eq!(m, "listener torn"),
        _ => panic!("expected a fatal exit"),
    }
    match accepter_step(AccepterEvent::AnnounceFailed) {
        AccepterStep::Exit(Err(DtlsError::Io(_))) => {}
        _ => panic!("expected a fatal exit"),
    }
}

#[test]
fn client_recver_delivers_the_leading_bytes() {
    let buf = vec![5u8, 6, 7, 8];
    match client_recver_step(&buf, Ok(2)) {
        ClientRecverStep::Deliver(d) => assert_eq!(d, vec![5, 6]),
        _ => panic!("expected a delivery"),
    }
    match client_recver_step(&buf, Err("reset".to_string())) {
        ClientRecverStep::Exit(Err(DtlsError::Io(m))) => assert_eq!(m, "reset"),
        _ => panic!("expected a fatal exit"),
    }
}

#[test]
fn server_recver_reports_inactivity_and_delivers_records() {
    let idx = ConnIndex::new(3);
    let buf = vec![1u8, 2, 3, 4];
    match server_recver_step(idx, &buf, RecvOutcome::Datagram(4)) {
        ServerRecverStep::Deliver((i, d)) => {
            assert_eq!(i.index(), 3);
            assert_eq!(d, vec![1, 2, 3, 4]);
        }
        _ => panic!("expected a delivery"),
    }
    match server_recver_step(idx, &buf, RecvOutcome::TimerElapsed) {
        ServerRecverStep::Report(DtlsServerTimeout::Recv(i)) => assert_eq!(i.index(), 3),
        _ => panic!("expected an inactivity report"),
    }
    match server_recver_step(idx, &buf, RecvOutcome::Failed("alert".to_string())) {
        ServerRecverStep::Exit(Err(DtlsError::Io(m))) => assert_eq!(m, "alert"),
        _ => panic!("expected a fatal exit"),
    }
}

use dtls_transport::client::cert_option::ClientCertOption;
use dtls_transport::server::cert_option::ServerCertOption;

#[test]
fn insecure_client_plan_skips_verification_but_requires_ems() {
    let plan = ClientCertOption::Insecure.config_plan();
    assert!(plan.insecure_skip_verify);
    assert!(plan.require_extended_master_secret);
    assert!(plan.server_name.is_none());
    assert!(plan.root_ca_path.is_none());
    assert!(plan.client_identity.is_none());
}

#[test]
fn load_client_plan_verifies_the_server() {
    let plan = ClientCertOption::Load {
        server_name: "webrtc.rs",
        root_ca_path: "certs/server-pub.pem",
    }
    .config_plan();
    assert!(!plan.insecure_skip_verify);
    assert!(plan.require_extended_master_secret);
    assert_eq!(plan.server_name, Some("webrtc.rs"));
    assert_eq!(plan.root_ca_path, Some("certs/server-pub.pem"));
    assert!(plan.client_identity.is_none());
}

#[test]
fn mutual_tls_client_plan_presents_the_client_identity() {
    let plan = ClientCertOption::LoadWithClientAuth {
        server_name: "webrtc.rs",
        priv_key_path: "certs/client.pem",
        certificate_path: "certs/client-pub.pem",
        root_ca_path: "certs/server-pub.pem",
    }
    .config_plan();
    assert!(!plan.insecure_skip_verify);
    assert!(plan.require_extended_master_secret);
    assert_eq!(plan.server_name, Some("webrtc.rs"));
    assert_eq!(plan.root_ca_path, Some("certs/server-pub.pem"));
    assert_eq!(
        plan.client_identity,
        Some(("certs/client.pem", "certs/client-pub.pem"))
    );
}

#[test]
fn self_signed_server_plan_carries_the_subject_alt_name() {
    let plan = ServerCertOption::GenerateSelfSigned {
        subject_alt_name: "webrtc.rs",
    }
    .config_plan();
    assert!(plan.require_extended_master_secret);
    assert_eq!(plan.self_signed_subject_alt_name, Some("webrtc.rs"));
    assert!(plan.identity.is_none());
    assert!(!plan.require_client_cert);
    assert!(plan.client_ca_path.is_none());
}

#[test]
fn load_server_plan_does_not_demand_client_certs() {
    let plan = ServerCertOption::Load {
        priv_key_path: "certs/server.pem",
        certificate_path: "certs/server-pub.pem",
    }
    .config_plan();
    assert!(plan.require_extended_master_secret);
    assert!(plan.self_signed_subject_alt_name.is_none());
    assert_eq!(
        plan.identity,
        Some(("certs/server.pem", "certs/server-pub.pem"))
    );
    assert!(!plan.require_client_cert);
}

#[test]
fn mutual_tls_server_plan_requires_and_verifies_client_certs() {
    let plan = ServerCertOption::LoadWithClientAuth {
        priv_key_path: "certs/server.pem",
        certificate_path: "certs/server-pub.pem",
        client_ca_path: "certs/client-pub.pem",
    }
    .config_plan();
    assert!(plan.require_extended_master_secret);
    assert_eq!(
        plan.identity,
        Some(("certs/server.pem", "certs/server-pub.pem"))
    );
    assert!(plan.require_client_cert);
    assert_eq!(plan.client_ca_path, Some("certs/client-pub.pem"));
}

//! Certificate policy of the client, and the plan of the DTLS configuration
//! each policy asks for.

use vstd::prelude::*;

verus! {

/// How the client treats certificates when dialing.
///
/// `Insecure` bypasses verification entirely; it must be selected by name and
/// is never a default.
#[derive(Clone, Copy, Debug)]
pub enum ClientCertOption {
    /// Skip server certificate verification.
    Insecure,
    /// Verify the server against the CA bundle at `root_ca_path`.
    Load { server_name: &'static str, root_ca_path: &'static str },
    /// Mutual TLS: verify the server and present the client's own key and
    /// certificate chain.
    LoadWithClientAuth {
        server_name: &'static str,
        priv_key_path: &'static str,
        certificate_path: &'static str,
        root_ca_path: &'static str,
    },
}

/// Everything the DTLS configuration built for the client must contain. The
/// unverified shell maps each field one-to-one onto the outside DTLS
/// library's configuration, loading the named files.
#[derive(Clone, Copy, Debug)]
pub struct ClientDtlsConfigPlan {
    /// Accept any server certificate. Only ever set for `Insecure`.
    pub insecure_skip_verify: bool,
    /// The extended master secret extension is required in every mode.
    pub require_extended_master_secret: bool,
    /// Hostname the server certificate is verified against.
    pub server_name: Option<&'static str>,
    /// Path of the CA bundle the server is verified against.
    pub root_ca_path: Option<&'static str>,
    /// Paths of the client's own private key and certificate chain, when the
    /// client authenticates itself.
    pub client_identity: Option<(&'static str, &'static str)>,
}

impl ClientCertOption {
    /// The configuration plan each policy asks for.
    pub open spec fn spec_plan(self) -> ClientDtlsConfigPlan {
        match self {
            ClientCertOption::Insecure => ClientDtlsConfigPlan {
                insecure_skip_verify: true,
                require_extended_master_secret: true,
                server_name: None,
                root_ca_path: None,
                client_identity: None,
            },
            ClientCertOption::Load { server_name, root_ca_path } => ClientDtlsConfigPlan {
                insecure_skip_verify: false,
                require_extended_master_secret: true,
                server_name: Some(server_name),
                root_ca_path: Some(root_ca_path),
                client_identity: None,
            },
            ClientCertOption::LoadWithClientAuth {
                server_name,
                priv_key_path,
                certificate_path,
                root_ca_path,
            } => ClientDtlsConfigPlan {
                insecure_skip_verify: false,
                require_extended_master_secret: true,
                server_name: Some(server_name),
                root_ca_path: Some(root_ca_path),
                client_identity: Some((priv_key_path, certificate_path)),
            },
        }
    }

    /// Builds the plan. Verification is skipped exactly for `Insecure`, and
    /// the extended master secret is required in every mode.
    pub fn config_plan(&self) -> (r: ClientDtlsConfigPlan)
        ensures
            r == self.spec_plan(),
            r.require_extended_master_secret,
            r.insecure_skip_verify <==> self is Insecure,
    {
        match *self {
            ClientCertOption::Insecure => ClientDtlsConfigPlan {
                insecure_skip_verify: true,
                require_extended_master_secret: true,
                server_name: None,
                root_ca_path: None,
                client_identity: None,
            },
            ClientCertOption::Load { server_name, root_ca_path } => ClientDtlsConfigPlan {
                insecure_skip_verify: false,
                require_extended_master_secret: true,
                server_name: Some(server_name),
                root_ca_path: Some(root_ca_path),
                client_identity: None,
            },
            ClientCertOption::LoadWithClientAuth {
                server_name,
                priv_key_path,
                certificate_path,
                root_ca_path,
            } => ClientDtlsConfigPlan {
                insecure_skip_verify: false,
                require_extended_master_secret: true,
                server_name: Some(server_name),
                root_ca_path: Some(root_ca_path),
                client_identity: Some((priv_key_path, certificate_path)),
            },
        }
    }
}

} // verus!

//! Certificate policy of the server, and the plan of the DTLS configuration
//! each policy asks for.

use vstd::prelude::*;

verus! {

/// How the server identifies itself and whether it demands client
/// certificates.
#[derive(Clone, Copy, Debug)]
pub enum ServerCertOption {
    /// Generate a self-signed certificate for this subject alternative name.
    GenerateSelfSigned { subject_alt_name: &'static str },
    /// Present the key and certificate chain loaded from disk; clients are
    /// not authenticated.
    Load { priv_key_path: &'static str, certificate_path: &'static str },
    /// Mutual TLS: present the key and certificate chain from disk, and
    /// require and verify a client certificate against the CA bundle.
    LoadWithClientAuth {
        priv_key_path: &'static str,
        certificate_path: &'static str,
        client_ca_path: &'static str,
    },
}

/// Everything the DTLS configuration built for the server must contain. The
/// unverified shell maps each field one-to-one onto the outside DTLS
/// library's configuration, loading the named files.
#[derive(Clone, Copy, Debug)]
pub struct ServerDtlsConfigPlan {
    /// The extended master secret extension is required in every mode.
    pub require_extended_master_secret: bool,
    /// Generate a self-signed certificate for this name.
    pub self_signed_subject_alt_name: Option<&'static str>,
    /// Paths of the server's private key and certificate chain on disk.
    pub identity: Option<(&'static str, &'static str)>,
    /// Require and verify a client certificate.
    pub require_client_cert: bool,
    /// Path of the CA bundle client certificates are verified against.
    pub client_ca_path: Option<&'static str>,
}

impl ServerCertOption {
    /// The configuration plan each policy asks for.
    pub open spec fn spec_plan(self) -> ServerDtlsConfigPlan {
        match self {
            ServerCertOption::GenerateSelfSigned { subject_alt_name } => ServerDtlsConfigPlan {
                require_extended_master_secret: true,
                self_signed_subject_alt_name: Some(subject_alt_name),
                identity: None,
                require_client_cert: false,
                client_ca_path: None,
            },
            ServerCertOption::Load { priv_key_path, certificate_path } => ServerDtlsConfigPlan {
                require_extended_master_secret: true,
                self_signed_subject_alt_name: None,
                identity: Some((priv_key_path, certificate_path)),
                require_client_cert: false,
                client_ca_path: None,
            },
            ServerCertOption::LoadWithClientAuth {
                priv_key_path,
                certificate_path,
                client_ca_path,
            } => ServerDtlsConfigPlan {
                require_extended_master_secret: true,
                self_signed_subject_alt_name: None,
                identity: Some((priv_key_path, certificate_path)),
                require_client_cert: true,
                client_ca_path: Some(client_ca_path),
            },
        }
    }

    /// Builds the plan. The extended master secret is required in every mode,
    /// and a client certificate is demanded exactly for `LoadWithClientAuth`.
    pub fn config_plan(&self) -> (r: ServerDtlsConfigPlan)
        ensures
            r == self.spec_plan(),
            r.require_extended_master_secret,
            r.require_client_cert <==> self is LoadWithClientAuth,
    {
        match *self {
            ServerCertOption::GenerateSelfSigned { subject_alt_name } => ServerDtlsConfigPlan {
                require_extended_master_secret: true,
                self_signed_subject_alt_name: Some(subject_alt_name),
                identity: None,
                require_client_cert: false,
                client_ca_path: None,
            },
            ServerCertOption::Load { priv_key_path, certificate_path } => ServerDtlsConfigPlan {
                require_extended_master_secret: true,
                self_signed_subject_alt_name: None,
                identity: Some((priv_key_path, certificate_path)),
                require_client_cert: false,
                client_ca_path: None,
            },
            ServerCertOption::LoadWithClientAuth {
                priv_key_path,
                certificate_path,
                client_ca_path,
            } => ServerDtlsConfigPlan {
                require_extended_master_secret: true,
                self_signed_subject_alt_name: None,
                identity: Some((priv_key_path, certificate_path)),
                require_client_cert: true,
                client_ca_path: Some(client_ca_path),
            },
        }
    }
}

} // verus!

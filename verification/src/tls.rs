//! Which certificate files a TLS connection is configured with.

use vstd::prelude::*;

verus! {

/// The certificate files to load into the security context of a TLS
/// connection, all of them PEM files of one directory.
#[derive(Clone, Debug, PartialEq, Eq)]
pub enum TlsSetup {
    /// Default TLS settings: no file is loaded and no client authentication
    /// takes place.
    Default,
    /// The client presents a certificate; the server's is not held against a
    /// CA file.
    ClientAuth { certificate: String, private_key: String },
    /// The client presents a certificate, and the server's certificate is
    /// verified against the CA file.
    VerifiedClientAuth { certificate: String, private_key: String, ca_file: String },
}

pub enum TlsSetupView {
    Default,
    ClientAuth { certificate: Seq<char>, private_key: Seq<char> },
    VerifiedClientAuth { certificate: Seq<char>, private_key: Seq<char>, ca_file: Seq<char> },
}

impl View for TlsSetup {
    type V = TlsSetupView;

    open spec fn view(&self) -> TlsSetupView {
        match self {
            TlsSetup::Default => TlsSetupView::Default,
            TlsSetup::ClientAuth { certificate, private_key } => TlsSetupView::ClientAuth {
                certificate: certificate@,
                private_key: private_key@,
            },
            TlsSetup::VerifiedClientAuth {
                certificate,
                private_key,
                ca_file,
            } => TlsSetupView::VerifiedClientAuth {
                certificate: certificate@,
                private_key: private_key@,
                ca_file: ca_file@,
            },
        }
    }
}

impl TlsSetupView {
    /// The client certificate that is loaded, if any.
    pub open spec fn certificate(self) -> Option<Seq<char>> {
        match self {
            TlsSetupView::Default => None,
            TlsSetupView::ClientAuth { certificate, .. } => Some(certificate),
            TlsSetupView::VerifiedClientAuth { certificate, .. } => Some(certificate),
        }
    }

    /// The client private key that is loaded, if any.
    pub open spec fn private_key(self) -> Option<Seq<char>> {
        match self {
            TlsSetupView::Default => None,
            TlsSetupView::ClientAuth { private_key, .. } => Some(private_key),
            TlsSetupView::VerifiedClientAuth { private_key, .. } => Some(private_key),
        }
    }

    /// The CA file that is set, if any.
    pub open spec fn ca_file(self) -> Option<Seq<char>> {
        match self {
            TlsSetupView::VerifiedClientAuth { ca_file, .. } => Some(ca_file),
            _ => None,
        }
    }

    /// The setup that the two signals ask for. Without a certificate
    /// directory nothing is configured, whatever the verification signal
    /// says; with one, the certificate and the key are loaded from it, and the
    /// CA file as well where verification is asked for.
    pub open spec fn from_signals(cert_dir: Option<Seq<char>>, verify: bool) -> TlsSetupView {
        match cert_dir {
            None => TlsSetupView::Default,
            Some(dir) => if verify {
                TlsSetupView::VerifiedClientAuth {
                    certificate: dir + "/cert.pem"@,
                    private_key: dir + "/key.pem"@,
                    ca_file: dir + "/ca.pem"@,
                }
            } else {
                TlsSetupView::ClientAuth {
                    certificate: dir + "/cert.pem"@,
                    private_key: dir + "/key.pem"@,
                }
            },
        }
    }
}

/// The view of a text that may be absent.
pub open spec fn text_view(text: Option<&str>) -> Option<Seq<char>> {
    match text {
        Some(text) => Some(text@),
        None => None,
    }
}

/// The path of the file `name` in the directory `dir`.
fn file_in(dir: &str, name: &str) -> (path: String)
    ensures
        path@ == dir@ + name@,
{
    let mut path = String::from_str(dir);
    path.append(name);
    path
}

impl TlsSetup {
    pub fn from_signals(cert_dir: Option<&str>, verify: bool) -> (setup: TlsSetup)
        ensures
            setup@ == TlsSetupView::from_signals(text_view(cert_dir), verify),
    {
        match cert_dir {
            None => TlsSetup::Default,
            Some(dir) => {
                let certificate = file_in(dir, "/cert.pem");
                let private_key = file_in(dir, "/key.pem");
                if verify {
                    let ca_file = file_in(dir, "/ca.pem");
                    TlsSetup::VerifiedClientAuth { certificate, private_key, ca_file }
                } else {
                    TlsSetup::ClientAuth { certificate, private_key }
                }
            },
        }
    }
}

/// With a certificate directory and no verification signal, the client
/// certificate and key are loaded from that directory and no CA file is set.
pub proof fn lemma_client_auth_without_ca(dir: Seq<char>)
    ensures
        TlsSetupView::from_signals(Some(dir), false).certificate() == Some(dir + "/cert.pem"@),
        TlsSetupView::from_signals(Some(dir), false).private_key() == Some(dir + "/key.pem"@),
        TlsSetupView::from_signals(Some(dir), false).ca_file() is None,
{
}

/// With both signals, certificate, key and CA file are all loaded, each from
/// the one directory given.
pub proof fn lemma_verified_client_auth(dir: Seq<char>)
    ensures
        TlsSetupView::from_signals(Some(dir), true).certificate() == Some(dir + "/cert.pem"@),
        TlsSetupView::from_signals(Some(dir), true).private_key() == Some(dir + "/key.pem"@),
        TlsSetupView::from_signals(Some(dir), true).ca_file() == Some(dir + "/ca.pem"@),
{
}

/// Without a certificate directory no file is loaded at all, with or without
/// the verification signal.
pub proof fn lemma_no_directory_no_files(verify: bool)
    ensures
        TlsSetupView::from_signals(None, verify) == TlsSetupView::Default,
        TlsSetupView::from_signals(None, verify).certificate() is None,
        TlsSetupView::from_signals(None, verify).private_key() is None,
        TlsSetupView::from_signals(None, verify).ca_file() is None,
{
}

} // verus!

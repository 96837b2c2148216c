//! A minimal client for a container engine's control API.
//!
//! The daemon is reached over a local Unix-domain socket or over HTTP secured
//! by TLS. Which of the two is decided once, from the scheme of the endpoint
//! address. This crate decides and computes; the connection itself is made by
//! the caller, who performs each [`Outgoing`] that a request yields.

pub mod address;
pub mod method;
pub mod tarball;
pub mod tls;
pub mod transport;

pub use address::{Address, Host, SchemeData};
pub use method::{Method, Verb};
pub use tls::TlsSetup;
pub use transport::{Outgoing, Transport};

use address::{parse_url, parsed_url, AddressView};
use tls::TlsSetupView;
use transport::TransportView;
use vstd::prelude::*;

verus! {

/// The variable that holds the endpoint address.
pub const HOST_VARIABLE: &'static str = "DOCKER_HOST";

/// The variable that holds the certificate directory.
pub const CERT_PATH_VARIABLE: &'static str = "DOCKER_CERT_PATH";

/// The variable whose presence asks for the server's certificate to be
/// verified.
pub const TLS_VERIFY_VARIABLE: &'static str = "DOCKER_TLS_VERIFY";

/// What the process environment holds for the client, read once before the
/// client is made: the value of each variable, or `None` where it is not set.
#[derive(Clone, Debug, PartialEq, Eq)]
pub struct Environment {
    /// The endpoint address, a URL.
    pub host: Option<String>,
    /// The directory that holds `cert.pem`, `key.pem` and `ca.pem`.
    pub cert_path: Option<String>,
    /// Asks for the server's certificate to be verified. Only its presence
    /// counts, not its value.
    pub tls_verify: Option<String>,
}

impl Environment {
    pub open spec fn spec_cert_dir(self) -> Option<Seq<char>> {
        match self.cert_path {
            Some(dir) => Some(dir@),
            None => None,
        }
    }

    pub open spec fn spec_verify(self) -> bool {
        self.tls_verify is Some
    }
}

/// Why no client could be made.
#[derive(Clone, Copy, Debug, PartialEq, Eq, Structural)]
pub enum BootstrapError {
    /// No endpoint address is set.
    ExpectedHost,
    /// The endpoint address is not a URL.
    InvalidUrl,
}

/// A client of the daemon, bound to one transport for its whole life.
#[derive(Clone, Debug, PartialEq, Eq)]
pub struct Docker {
    transport: Transport,
}

impl View for Docker {
    type V = TransportView;

    closed spec fn view(&self) -> TransportView {
        self.transport@
    }
}

impl Docker {
    /// The transport that a client for the parsed address `address` is bound
    /// to.
    pub open spec fn spec_from_address(address: AddressView, env: Environment) -> TransportView {
        TransportView::select(
            address.scheme,
            address.domain(),
            env.spec_cert_dir(),
            env.spec_verify(),
        )
    }

    /// The outcome of making a client from `env`: the transport that the
    /// client is bound to, or the reason why there is no client.
    pub open spec fn spec_new(env: Environment) -> Result<TransportView, BootstrapError> {
        match env.host {
            None => Err(BootstrapError::ExpectedHost),
            Some(host) => match parsed_url(host@) {
                None => Err(BootstrapError::InvalidUrl),
                Some(address) => Ok(Self::spec_from_address(address, env)),
            },
        }
    }

    /// The view of an outcome of making a client.
    pub open spec fn outcome_view(made: Result<Docker, BootstrapError>) -> Result<
        TransportView,
        BootstrapError,
    > {
        match made {
            Ok(docker) => Ok(docker@),
            Err(reason) => Err(reason),
        }
    }

    /// Makes the client for an endpoint address that is already parsed.
    pub fn from_address(address: &Address, env: &Environment) -> (docker: Docker)
        ensures
            docker@ == Self::spec_from_address(address@, *env),
    {
        let cert_dir = match &env.cert_path {
            Some(dir) => Some(dir.as_str()),
            None => None,
        };
        let transport = Transport::select(
            address.scheme.as_str(),
            address.domain(),
            cert_dir,
            env.tls_verify.is_some(),
        );
        Docker { transport }
    }

    /// Makes the client that the environment asks for. The endpoint address
    /// must be set and must parse as a URL; its scheme then selects the
    /// transport.
    pub fn new(env: &Environment) -> (made: Result<Docker, BootstrapError>)
        ensures
            Self::outcome_view(made) == Self::spec_new(*env),
    {
        match &env.host {
            None => Err(BootstrapError::ExpectedHost),
            Some(host) => match parse_url(host.as_str()) {
                None => Err(BootstrapError::InvalidUrl),
                Some(address) => Ok(Self::from_address(&address, env)),
            },
        }
    }

    /// The transport that this client is bound to.
    pub fn transport(&self) -> (transport: &Transport)
        ensures
            transport@ == self@,
    {
        &self.transport
    }

    /// The request that lists the images.
    pub fn images(&self) -> (outgoing: Outgoing)
        ensures
            outgoing@ == self@.request(Verb::Get, "/images/json"@),
    {
        self.get("/images/json")
    }

    /// The request for the daemon's version.
    pub fn version(&self) -> (outgoing: Outgoing)
        ensures
            outgoing@ == self@.request(Verb::Get, "/version"@),
    {
        self.get("/version")
    }

    /// The request for system-wide information.
    pub fn info(&self) -> (outgoing: Outgoing)
        ensures
            outgoing@ == self@.request(Verb::Get, "/info"@),
    {
        self.get("/info")
    }

    fn get(&self, endpoint: &str) -> (outgoing: Outgoing)
        ensures
            outgoing@ == self@.request(Verb::Get, endpoint@),
    {
        self.transport.request(&Method::Get, endpoint)
    }
}

/// An address whose scheme is `unix` is served over the socket at the path
/// that the address holds. The certificate signals play no part: the socket
/// transport carries no TLS setup.
pub proof fn lemma_unix_address_selects_socket(address: AddressView, env: Environment)
    requires
        address.scheme == "unix"@,
    ensures
        Docker::spec_from_address(address, env) == (TransportView::UnixSocket {
            path: address.domain(),
        }),
{
}

/// An address of any other scheme is served by HTTP over TLS, with the base
/// URL `https:` followed by the domain value of the address, and with the TLS
/// setup that the two certificate signals ask for.
pub proof fn lemma_other_address_selects_tls(address: AddressView, env: Environment)
    requires
        address.scheme != "unix"@,
    ensures
        Docker::spec_from_address(address, env) == (TransportView::TlsHttp {
            base_url: "https:"@ + address.domain(),
            tls: TlsSetupView::from_signals(env.spec_cert_dir(), env.spec_verify()),
        }),
{
}

/// A client is made exactly where the endpoint address is set and parses, and
/// is then the client for the parsed address.
pub proof fn lemma_new_needs_a_parsed_host(env: Environment)
    ensures
        Docker::spec_new(env) is Ok <==> env.host is Some && parsed_url(env.host->0@) is Some,
        Docker::spec_new(env) is Ok ==> Docker::spec_new(env)->Ok_0 == Docker::spec_from_address(
            parsed_url(env.host->0@)->0,
            env,
        ),
        Docker::spec_new(env) == Err::<TransportView, BootstrapError>(BootstrapError::ExpectedHost)
            <==> env.host is None,
{
}

} // verus!

//! The two transports, and what each puts on the wire for a request.

use crate::method::{Method, Verb};
use crate::tls::{text_view, TlsSetup, TlsSetupView};
use vstd::prelude::*;
use vstd::utf8::{encode_utf8, is_ascii_chars, is_ascii_chars_encode_utf8};

verus! {

/// How the daemon is reached. A client is bound to one of the two when it is
/// made, and stays with it.
#[derive(Clone, Debug, PartialEq, Eq)]
pub enum Transport {
    /// A stream to the Unix-domain socket at `path`.
    UnixSocket { path: String },
    /// An HTTP client with the TLS setup `tls`; every request goes to
    /// `base_url` followed by the request's path.
    TlsHttp { base_url: String, tls: TlsSetup },
}

pub enum TransportView {
    UnixSocket { path: Seq<char> },
    TlsHttp { base_url: Seq<char>, tls: TlsSetupView },
}

impl View for Transport {
    type V = TransportView;

    open spec fn view(&self) -> TransportView {
        match self {
            Transport::UnixSocket { path } => TransportView::UnixSocket { path: path@ },
            Transport::TlsHttp { base_url, tls } => TransportView::TlsHttp {
                base_url: base_url@,
                tls: tls@,
            },
        }
    }
}

/// What is to be done on the connection for one request. Once it is done, the
/// whole reply is the result of the request.
#[derive(Clone, Debug, PartialEq, Eq)]
pub enum Outgoing {
    /// Write `bytes` in full to the socket, then read to the end of the
    /// stream. The reply is handed on as it came, status line and headers
    /// included.
    SocketWrite { bytes: Vec<u8> },
    /// Issue a request of this verb to `url` through the HTTP client, then
    /// read the body of the response.
    Https { verb: Verb, url: String },
}

pub enum OutgoingView {
    SocketWrite { bytes: Seq<u8> },
    Https { verb: Verb, url: Seq<char> },
}

impl View for Outgoing {
    type V = OutgoingView;

    open spec fn view(&self) -> OutgoingView {
        match self {
            Outgoing::SocketWrite { bytes } => OutgoingView::SocketWrite { bytes: bytes@ },
            Outgoing::Https { verb, url } => OutgoingView::Https { verb: *verb, url: url@ },
        }
    }
}

/// The request line of HTTP/1.0 for `verb` and `endpoint`, closed by an empty
/// line: no headers and no body follow.
pub open spec fn spec_request_line(verb: Verb, endpoint: Seq<char>) -> Seq<char> {
    verb.spec_name() + " "@ + endpoint + " HTTP/1.0\r\n\r\n"@
}

impl TransportView {
    /// The transport for an address of this scheme and domain value: the
    /// socket at the path `domain` for the scheme `unix`, else HTTP over TLS
    /// with the base URL `https:` followed by `domain`.
    pub open spec fn select(
        scheme: Seq<char>,
        domain: Seq<char>,
        cert_dir: Option<Seq<char>>,
        verify: bool,
    ) -> TransportView {
        if scheme == "unix"@ {
            TransportView::UnixSocket { path: domain }
        } else {
            TransportView::TlsHttp {
                base_url: "https:"@ + domain,
                tls: TlsSetupView::from_signals(cert_dir, verify),
            }
        }
    }

    /// What a request of `verb` for `endpoint` puts on this transport.
    pub open spec fn request(self, verb: Verb, endpoint: Seq<char>) -> OutgoingView {
        match self {
            TransportView::UnixSocket { .. } => OutgoingView::SocketWrite {
                bytes: encode_utf8(spec_request_line(verb, endpoint)),
            },
            TransportView::TlsHttp { base_url, .. } => OutgoingView::Https {
                verb,
                url: base_url + endpoint,
            },
        }
    }
}

/// The request line that the socket transport writes for `method` and
/// `endpoint`.
pub fn request_line(method: &Method, endpoint: &str) -> (line: String)
    ensures
        line@ == spec_request_line(method.spec_verb(), endpoint@),
{
    let mut line = String::from_str(method.verb().name());
    line.append(" ");
    line.append(endpoint);
    line.append(" HTTP/1.0\r\n\r\n");
    line
}

fn is_unix(scheme: &str) -> (unix: bool)
    ensures
        unix == (scheme@ == "unix"@),
{
    String::from_str(scheme) == String::from_str("unix")
}

impl Transport {
    /// Picks the transport for an address by its scheme alone. The TLS setup
    /// is worked out only where HTTP over TLS is picked.
    pub fn select(scheme: &str, domain: String, cert_dir: Option<&str>, verify: bool) -> (transport: Transport)
        ensures
            transport@ == TransportView::select(scheme@, domain@, text_view(cert_dir), verify),
    {
        if is_unix(scheme) {
            Transport::UnixSocket { path: domain }
        } else {
            let mut base_url = String::from_str("https:");
            base_url.append(domain.as_str());
            Transport::TlsHttp { base_url, tls: TlsSetup::from_signals(cert_dir, verify) }
        }
    }

    /// Works out what to do on the connection for a request of `method` for
    /// the path `endpoint`.
    pub fn request(&self, method: &Method, endpoint: &str) -> (outgoing: Outgoing)
        ensures
            outgoing@ == self@.request(method.spec_verb(), endpoint@),
    {
        match self {
            Transport::UnixSocket { .. } => Outgoing::SocketWrite {
                bytes: request_line(method, endpoint).as_str().as_bytes_vec(),
            },
            Transport::TlsHttp { base_url, .. } => {
                let mut url = base_url.clone();
                url.append(endpoint);
                Outgoing::Https { verb: method.verb(), url }
            },
        }
    }
}

/// A transport never changes its kind by serving a request: the socket
/// transport always answers with bytes to write, HTTP over TLS always with a
/// request to its own base URL.
pub proof fn lemma_request_keeps_transport(transport: TransportView, verb: Verb, endpoint: Seq<char>)
    ensures
        transport is UnixSocket <==> transport.request(verb, endpoint) is SocketWrite,
        transport is TlsHttp <==> transport.request(verb, endpoint) is Https,
        transport matches TransportView::TlsHttp { base_url, .. } ==> base_url.is_prefix_of(
            transport.request(verb, endpoint)->url,
        ),
{
}

/// For an endpoint of ASCII characters, the bytes that the socket transport
/// writes are the characters of the request line, one byte for each.
pub proof fn lemma_ascii_request_bytes(verb: Verb, endpoint: Seq<char>)
    requires
        is_ascii_chars(endpoint),
    ensures
        encode_utf8(spec_request_line(verb, endpoint)).len() == spec_request_line(
            verb,
            endpoint,
        ).len(),
        forall|i: int|
            0 <= i < spec_request_line(verb, endpoint).len() ==> encode_utf8(
                spec_request_line(verb, endpoint),
            )[i] == #[trigger] spec_request_line(verb, endpoint)[i] as u8,
{
    reveal_strlit("GET");
    reveal_strlit("PUT");
    reveal_strlit("POST");
    reveal_strlit("DELETE");
    reveal_strlit(" ");
    reveal_strlit(" HTTP/1.0\r\n\r\n");
    let line = spec_request_line(verb, endpoint);
    assert(is_ascii_chars(line));
    is_ascii_chars_encode_utf8(line);
}

} // verus!

//! The endpoint address: the parts of a parsed URL that decide how the
//! daemon is reached.

use vstd::prelude::*;

verus! {

/// The host of a hierarchical address.
#[derive(Clone, Debug, PartialEq, Eq)]
pub enum Host {
    /// A domain name, or an IPv4 address in its dotted form.
    Domain(String),
    /// An IPv6 address, as its eight 16-bit pieces.
    Ipv6([u16; 8]),
}

/// What follows the scheme of an address.
#[derive(Clone, Debug, PartialEq, Eq)]
pub enum SchemeData {
    /// A hierarchical scheme: the address names a host.
    Relative(Host),
    /// Any other scheme: what stands after the colon, up to a query or a
    /// fragment, as one percent-encoded text.
    NonRelative(String),
}

/// A parsed endpoint address.
#[derive(Clone, Debug, PartialEq, Eq)]
pub struct Address {
    pub scheme: String,
    pub scheme_data: SchemeData,
}

pub enum HostView {
    Domain(Seq<char>),
    Ipv6(Seq<u16>),
}

pub enum SchemeDataView {
    Relative(HostView),
    NonRelative(Seq<char>),
}

pub struct AddressView {
    pub scheme: Seq<char>,
    pub scheme_data: SchemeDataView,
}

impl View for Host {
    type V = HostView;

    open spec fn view(&self) -> HostView {
        match self {
            Host::Domain(name) => HostView::Domain(name@),
            Host::Ipv6(pieces) => HostView::Ipv6(pieces@),
        }
    }
}

impl View for SchemeData {
    type V = SchemeDataView;

    open spec fn view(&self) -> SchemeDataView {
        match self {
            SchemeData::Relative(host) => SchemeDataView::Relative(host@),
            SchemeData::NonRelative(text) => SchemeDataView::NonRelative(text@),
        }
    }
}

impl View for Address {
    type V = AddressView;

    open spec fn view(&self) -> AddressView {
        AddressView { scheme: self.scheme@, scheme_data: self.scheme_data@ }
    }
}

/// The view of what a parse gave.
pub open spec fn parsed_view(parsed: Option<Address>) -> Option<AddressView> {
    match parsed {
        Some(address) => Some(address@),
        None => None,
    }
}

/// What `url::Url::parse` makes of `input`: `None` where it reports an error,
/// else the scheme and scheme data of the URL it returns.
pub uninterp spec fn parsed_url(input: Seq<char>) -> Option<AddressView>;

/// The text that `url::Ipv6Address` displays for an address of these pieces.
pub uninterp spec fn ipv6_text(pieces: Seq<u16>) -> Seq<char>;

/// Parses `input` with `url::Url::parse` and keeps the scheme and, of the
/// scheme data, the host or the non-relative text. The parser reads nothing
/// but its argument, so the outcome is `parsed_url` of the input.
#[verifier::external_body]
pub(crate) fn parse_url(input: &str) -> (parsed: Option<Address>)
    ensures
        parsed_view(parsed) == parsed_url(input@),
{
    match url::Url::parse(input) {
        Ok(parsed) => Some(Address {
            scheme: parsed.scheme,
            scheme_data: match parsed.scheme_data {
                url::SchemeData::NonRelative(text) => SchemeData::NonRelative(text),
                url::SchemeData::Relative(relative) => SchemeData::Relative(match relative.host {
                    url::Host::Domain(name) => Host::Domain(name),
                    url::Host::Ipv6(address) => Host::Ipv6(address.pieces),
                }),
            },
        }),
        Err(_) => None,
    }
}

/// Formats an IPv6 address through the `Display` impl of `url::Ipv6Address`,
/// which writes the pieces in hexadecimal with the longest run of zeros
/// compressed. The result is `ipv6_text` of the pieces.
#[verifier::external_body]
pub(crate) fn format_ipv6(pieces: &[u16; 8]) -> (text: String)
    ensures
        text@ == ipv6_text(pieces@),
{
    url::Ipv6Address { pieces: *pieces }.to_string()
}

impl AddressView {
    /// The one value that the connection is made from: the scheme data of a
    /// non-relative scheme, else the host, a domain name as it stands and an
    /// IPv6 address in its textual form.
    pub open spec fn domain(self) -> Seq<char> {
        match self.scheme_data {
            SchemeDataView::NonRelative(text) => text,
            SchemeDataView::Relative(HostView::Domain(name)) => name,
            SchemeDataView::Relative(HostView::Ipv6(pieces)) => ipv6_text(pieces),
        }
    }
}

impl Address {
    pub fn domain(&self) -> (domain: String)
        ensures
            domain@ == self@.domain(),
    {
        match &self.scheme_data {
            SchemeData::NonRelative(text) => text.clone(),
            SchemeData::Relative(Host::Domain(name)) => name.clone(),
            SchemeData::Relative(Host::Ipv6(pieces)) => format_ipv6(pieces),
        }
    }
}

} // verus!

//! Addresses of either family, and what the two families have in common.

use vstd::prelude::*;
use crate::error::{Error, ErrorView};
use crate::ipv4::{ipv4_of, ipv4_text, lemma_ipv4_text, lemma_ipv4_text_shape, Ipv4Address};
use crate::ipv6::{ipv6_of, ipv6_text, lemma_ipv6_text, lemma_ipv6_text_holds_colon, Ipv6Address};
use crate::record::RecordType;
use crate::text::chars_of;

verus! {

/// An address of either family.
#[derive(Clone, Copy, Debug, PartialEq, Eq)]
pub enum IpAddress {
    V4(Ipv4Address),
    V6(Ipv6Address),
}

/// The address that a text denotes: an IPv4 address where the text is
/// dotted decimal, else an IPv6 address where it is the text of one.
pub open spec fn ip_of(s: Seq<char>) -> Option<IpAddress> {
    match ipv4_of(s) {
        Some(a) => Some(IpAddress::V4(a)),
        None => match ipv6_of(s) {
            Some(a) => Some(IpAddress::V6(a)),
            None => None,
        },
    }
}

impl IpAddress {
    /// The text of the address.
    pub open spec fn text(self) -> Seq<char> {
        match self {
            IpAddress::V4(a) => ipv4_text(a),
            IpAddress::V6(a) => ipv6_text(a),
        }
    }

    /// Reads an address of either family from its text.
    pub fn parse(text: &str) -> (r: Option<IpAddress>)
        ensures
            r == ip_of(text@),
    {
        let chars = chars_of(text);
        match Ipv4Address::parse_chars(&chars) {
            Some(a) => Some(IpAddress::V4(a)),
            None => match Ipv6Address::parse_chars(&chars) {
                Some(a) => Some(IpAddress::V6(a)),
                None => None,
            },
        }
    }

    /// The text of the address.
    pub fn format(&self) -> (r: String)
        ensures
            r@ == self.text(),
    {
        match self {
            IpAddress::V4(a) => a.format(),
            IpAddress::V6(a) => a.format(),
        }
    }
}

/// Every address, of either family, is read back from its text.
pub proof fn lemma_ip_text_is_read_back(ip: IpAddress)
    ensures
        ip_of(ip.text()) == Some(ip),
{
    match ip {
        IpAddress::V4(a) => {
            lemma_ipv4_text(ipv4_text(a), a);
        },
        IpAddress::V6(a) => {
            lemma_ipv6_text(a);
            lemma_ipv6_text_holds_colon(a);
            if ipv4_of(ipv6_text(a)) is Some {
                let b = ipv4_of(ipv6_text(a)).unwrap();
                lemma_ipv4_text(ipv6_text(a), b);
                lemma_ipv4_text_shape(b);
            }
        },
    }
}

/// What the codec, the reconciliation and the update need of an address
/// family.
pub trait Address: Sized + Copy {
    /// The address of this family that a text denotes.
    spec fn of_text(s: Seq<char>) -> Option<Self>;

    /// The text of the address.
    spec fn text(self) -> Seq<char>;

    /// The type of the records that hold addresses of this family.
    spec fn kind() -> RecordType;

    /// The name of the family in messages.
    spec fn label() -> Seq<char>;

    /// The address as one of this family, or the failure that reports the
    /// other family.
    spec fn pick(ip: IpAddress) -> Result<Self, ErrorView>;

    /// Every address is read back from its text.
    proof fn lemma_text_is_read_back(self)
        ensures
            Self::of_text(self.text()) == Some(self),
    ;

    /// Reads an address of this family from its text.
    fn parse(s: &str) -> (r: Option<Self>)
        ensures
            r == Self::of_text(s@),
    ;

    /// The text of the address.
    fn format(&self) -> (r: String)
        ensures
            r@ == self.text(),
    ;

    /// Whether two addresses are the same, bit for bit.
    fn equals(&self, other: &Self) -> (r: bool)
        ensures
            r == (*self == *other),
    ;

    /// The type of the records that hold addresses of this family.
    fn record_type() -> (r: RecordType)
        ensures
            r == Self::kind(),
    ;

    /// The name of the family in messages.
    fn family() -> (r: &'static str)
        ensures
            r@ == Self::label(),
    ;

    /// The address as one of this family, or the failure that reports the
    /// other family.
    fn narrow(ip: IpAddress) -> (r: Result<Self, Error>)
        ensures
            match r {
                Ok(a) => Self::pick(ip) == Ok::<Self, ErrorView>(a),
                Err(e) => Self::pick(ip) == Err::<Self, ErrorView>(e@),
            },
    ;
}

impl Address for Ipv4Address {
    open spec fn of_text(s: Seq<char>) -> Option<Ipv4Address> {
        ipv4_of(s)
    }

    open spec fn text(self) -> Seq<char> {
        ipv4_text(self)
    }

    open spec fn kind() -> RecordType {
        RecordType::A
    }

    open spec fn label() -> Seq<char> {
        "ipv4"@
    }

    open spec fn pick(ip: IpAddress) -> Result<Ipv4Address, ErrorView> {
        match ip {
            IpAddress::V4(a) => Ok(a),
            IpAddress::V6(a) => Err(ErrorView::UnexpectedIpv6(a)),
        }
    }

    proof fn lemma_text_is_read_back(self) {
        lemma_ipv4_text(ipv4_text(self), self);
    }

    fn parse(s: &str) -> (r: Option<Ipv4Address>) {
        Ipv4Address::parse(s)
    }

    fn format(&self) -> (r: String) {
        Ipv4Address::format(self)
    }

    fn equals(&self, other: &Ipv4Address) -> (r: bool) {
        self.same(other)
    }

    fn record_type() -> (r: RecordType) {
        RecordType::A
    }

    fn family() -> (r: &'static str) {
        "ipv4"
    }

    fn narrow(ip: IpAddress) -> (r: Result<Ipv4Address, Error>) {
        match ip {
            IpAddress::V4(a) => Ok(a),
            IpAddress::V6(a) => Err(Error::UnexpectedIpv6(a)),
        }
    }
}

impl Address for Ipv6Address {
    open spec fn of_text(s: Seq<char>) -> Option<Ipv6Address> {
        ipv6_of(s)
    }

    open spec fn text(self) -> Seq<char> {
        ipv6_text(self)
    }

    open spec fn kind() -> RecordType {
        RecordType::Aaaa
    }

    open spec fn label() -> Seq<char> {
        "ipv6"@
    }

    open spec fn pick(ip: IpAddress) -> Result<Ipv6Address, ErrorView> {
        match ip {
            IpAddress::V4(a) => Err(ErrorView::UnexpectedIpv4(a)),
            IpAddress::V6(a) => Ok(a),
        }
    }

    proof fn lemma_text_is_read_back(self) {
        lemma_ipv6_text(self);
    }

    fn parse(s: &str) -> (r: Option<Ipv6Address>) {
        Ipv6Address::parse(s)
    }

    fn format(&self) -> (r: String) {
        Ipv6Address::format(self)
    }

    fn equals(&self, other: &Ipv6Address) -> (r: bool) {
        self.same(other)
    }

    fn record_type() -> (r: RecordType) {
        RecordType::Aaaa
    }

    fn family() -> (r: &'static str) {
        "ipv6"
    }

    fn narrow(ip: IpAddress) -> (r: Result<Ipv6Address, Error>) {
        match ip {
            IpAddress::V4(a) => Err(Error::UnexpectedIpv4(a)),
            IpAddress::V6(a) => Ok(a),
        }
    }
}

} // verus!

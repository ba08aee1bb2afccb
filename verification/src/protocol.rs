//! The closed set of protocols the decode chain understands.

use vstd::prelude::*;

verus! {

/// A protocol tag, one per decodable layer kind.
#[derive(Clone, Copy, PartialEq, Eq, Structural, Debug)]
pub enum Protocol {
    ARP,
    Ethernet,
    IPv4,
    IPv6,
    TCP,
    UDP,
}

/// How many protocol tags exist.
pub const PROTOCOL_COUNT: usize = 6;

impl Protocol {
    /// Position of this tag in the fixed catalog order.
    pub open spec fn spec_repr(self) -> int {
        match self {
            Protocol::ARP => 0,
            Protocol::Ethernet => 1,
            Protocol::IPv4 => 2,
            Protocol::IPv6 => 3,
            Protocol::TCP => 4,
            Protocol::UDP => 5,
        }
    }

    /// The tag at a catalog position, if the position is valid.
    pub open spec fn spec_from_repr(index: int) -> Option<Protocol> {
        if index == 0 {
            Some(Protocol::ARP)
        } else if index == 1 {
            Some(Protocol::Ethernet)
        } else if index == 2 {
            Some(Protocol::IPv4)
        } else if index == 3 {
            Some(Protocol::IPv6)
        } else if index == 4 {
            Some(Protocol::TCP)
        } else if index == 5 {
            Some(Protocol::UDP)
        } else {
            None
        }
    }

    /// Printable name of this tag.
    pub open spec fn spec_name(self) -> Seq<char> {
        match self {
            Protocol::ARP => "ARP"@,
            Protocol::Ethernet => "Ethernet"@,
            Protocol::IPv4 => "IPv4"@,
            Protocol::IPv6 => "IPv6"@,
            Protocol::TCP => "TCP"@,
            Protocol::UDP => "UDP"@,
        }
    }

    /// Catalog position of this tag.
    pub fn repr(self) -> (r: usize)
        ensures
            r == self.spec_repr(),
            r < PROTOCOL_COUNT,
    {
        match self {
            Protocol::ARP => 0,
            Protocol::Ethernet => 1,
            Protocol::IPv4 => 2,
            Protocol::IPv6 => 3,
            Protocol::TCP => 4,
            Protocol::UDP => 5,
        }
    }

    /// Look a tag up by its catalog position.
    pub fn from_repr(index: usize) -> (r: Option<Protocol>)
        ensures
            r == Protocol::spec_from_repr(index as int),
            r is Some <==> index < PROTOCOL_COUNT,
    {
        if index == 0 {
            Some(Protocol::ARP)
        } else if index == 1 {
            Some(Protocol::Ethernet)
        } else if index == 2 {
            Some(Protocol::IPv4)
        } else if index == 3 {
            Some(Protocol::IPv6)
        } else if index == 4 {
            Some(Protocol::TCP)
        } else if index == 5 {
            Some(Protocol::UDP)
        } else {
            None
        }
    }

    /// Printable name of this tag.
    pub fn name(self) -> (r: String)
        ensures
            r@ == self.spec_name(),
    {
        match self {
            Protocol::ARP => String::from_str("ARP"),
            Protocol::Ethernet => String::from_str("Ethernet"),
            Protocol::IPv4 => String::from_str("IPv4"),
            Protocol::IPv6 => String::from_str("IPv6"),
            Protocol::TCP => String::from_str("TCP"),
            Protocol::UDP => String::from_str("UDP"),
        }
    }

    /// Every tag, in catalog order.
    pub fn all() -> (r: Vec<Protocol>)
        ensures
            r@.len() == PROTOCOL_COUNT,
            forall|i: int| 0 <= i < r@.len() ==> r@[i] == Protocol::spec_from_repr(i)->0,
    {
        let mut v: Vec<Protocol> = Vec::new();
        v.push(Protocol::ARP);
        v.push(Protocol::Ethernet);
        v.push(Protocol::IPv4);
        v.push(Protocol::IPv6);
        v.push(Protocol::TCP);
        v.push(Protocol::UDP);
        v
    }
}

/// The compute half of interactive protocol selection: an index read from the
/// operator, if any, is mapped to the tag at that catalog position.
pub fn perform_protocol_selection(index: Option<usize>) -> (r: Option<Protocol>)
    ensures
        r == match index {
            Some(i) => Protocol::spec_from_repr(i as int),
            None => None::<Protocol>,
        },
{
    match index {
        Some(i) => Protocol::from_repr(i),
        None => None,
    }
}

} // verus!

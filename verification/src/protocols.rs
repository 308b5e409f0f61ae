//! Protocol-level enumerations: IP version, transport protocol, traffic
//! direction and type, ICMP message kinds, and the application protocol
//! guessed from well-known port numbers.

use vstd::prelude::*;

verus! {

/// Internet protocol version of a frame's network layer.
#[derive(Clone, Copy, Debug, Hash, PartialEq, Eq, Structural)]
pub enum IpVersion {
    IPv4,
    IPv6,
}

/// Transport protocol of a frame.
#[derive(Clone, Copy, Debug, Hash, PartialEq, Eq, Structural)]
pub enum Protocol {
    TCP,
    UDP,
    ICMP,
}

/// Direction of a connection's traffic with respect to the sniffed interface,
/// fixed when the connection's first packet is observed.
#[derive(Clone, Copy, Debug, Hash, PartialEq, Eq, Structural)]
pub enum TrafficDirection {
    Incoming,
    Outgoing,
}

impl core::default::Default for TrafficDirection {
    fn default() -> (r: Self)
        ensures
            r == TrafficDirection::Incoming,
    {
        TrafficDirection::Incoming
    }
}

/// Kind of the remote endpoint's address: one host, a multicast group, or a
/// broadcast address.
#[derive(Clone, Copy, Debug, Hash, PartialEq, Eq, Structural)]
pub enum TrafficType {
    Unicast,
    Multicast,
    Broadcast,
}

/// Kind of an ICMPv4 message, by its type field.
#[derive(Clone, Copy, Debug, Hash, PartialEq, Eq, Structural)]
pub enum IcmpTypeV4 {
    EchoReply,
    DestinationUnreachable,
    Redirect,
    EchoRequest,
    TimeExceeded,
    ParameterProblem,
    TimestampRequest,
    TimestampReply,
    Unknown,
}

/// Kind of an ICMPv6 message, by its type field.
#[derive(Clone, Copy, Debug, Hash, PartialEq, Eq, Structural)]
pub enum IcmpTypeV6 {
    DestinationUnreachable,
    PacketTooBig,
    TimeExceeded,
    ParameterProblem,
    EchoRequest,
    EchoReply,
    Unknown,
}

/// ICMP message kind of a packet; `NotApplicable` for packets that are not ICMP.
#[derive(Clone, Copy, Debug, Hash, PartialEq, Eq, Structural)]
pub enum IcmpType {
    NotApplicable,
    V4(IcmpTypeV4),
    V6(IcmpTypeV6),
}

impl core::default::Default for IcmpType {
    fn default() -> (r: Self)
        ensures
            r == IcmpType::NotApplicable,
    {
        IcmpType::NotApplicable
    }
}

/// Application layer protocol, guessed from well-known port numbers.
#[derive(Clone, Copy, Debug, Hash, PartialEq, Eq, Structural)]
#[allow(clippy::upper_case_acronyms)]
pub enum AppProtocol {
    /// File Transfer Protocol
    FTP,
    /// Secure Shell
    SSH,
    /// Telnet
    Telnet,
    /// Simple Mail Transfer Protocol
    SMTP,
    /// Terminal Access Controller Access-Control System
    TACACS,
    /// Domain Name System
    DNS,
    /// Dynamic Host Configuration Protocol
    DHCP,
    /// Trivial File Transfer Protocol
    TFTP,
    /// Hypertext Transfer Protocol
    HTTP,
    /// Post Office Protocol
    POP,
    /// Network Time Protocol
    NTP,
    /// NetBIOS
    NetBIOS,
    /// Post Office Protocol 3 over TLS/SSL
    POP3S,
    /// Internet Message Access Protocol
    IMAP,
    /// Simple Network Management Protocol
    SNMP,
    /// Border Gateway Protocol
    BGP,
    /// Lightweight Directory Access Protocol
    LDAP,
    /// Hypertext Transfer Protocol over TLS/SSL
    HTTPS,
    /// Lightweight Directory Access Protocol over TLS/SSL
    LDAPS,
    /// File Transfer Protocol over TLS/SSL
    FTPS,
    /// Multicast DNS
    #[allow(non_camel_case_types)]
    mDNS,
    /// Internet Message Access Protocol over TLS/SSL
    IMAPS,
    /// Simple Service Discovery Protocol
    SSDP,
    /// Extensible Messaging and Presence Protocol
    XMPP,
    /// Not identified
    Unknown,
    /// Not applicable
    NotApplicable,
}

impl core::default::Default for AppProtocol {
    fn default() -> (r: Self)
        ensures
            r == AppProtocol::Unknown,
    {
        AppProtocol::Unknown
    }
}

/// The application protocol that a well-known port denotes; `Unknown` for any
/// other port, `NotApplicable` where the transport carries no port.
pub open spec fn spec_protocol_of_port(port: Option<u16>) -> AppProtocol {
    match port {
        Option::None => AppProtocol::NotApplicable,
        Option::Some(p) => if 20 <= p <= 21 {
            AppProtocol::FTP
        } else if p == 22 {
            AppProtocol::SSH
        } else if p == 23 {
            AppProtocol::Telnet
        } else if p == 25 {
            AppProtocol::SMTP
        } else if p == 49 {
            AppProtocol::TACACS
        } else if p == 53 {
            AppProtocol::DNS
        } else if 67 <= p <= 68 {
            AppProtocol::DHCP
        } else if p == 69 {
            AppProtocol::TFTP
        } else if p == 80 || p == 8080 {
            AppProtocol::HTTP
        } else if 109 <= p <= 110 {
            AppProtocol::POP
        } else if p == 123 {
            AppProtocol::NTP
        } else if 137 <= p <= 139 {
            AppProtocol::NetBIOS
        } else if p == 143 || p == 220 {
            AppProtocol::IMAP
        } else if 161 <= p <= 162 || p == 199 {
            AppProtocol::SNMP
        } else if p == 179 {
            AppProtocol::BGP
        } else if p == 389 {
            AppProtocol::LDAP
        } else if p == 443 {
            AppProtocol::HTTPS
        } else if p == 636 {
            AppProtocol::LDAPS
        } else if 989 <= p <= 990 {
            AppProtocol::FTPS
        } else if p == 993 {
            AppProtocol::IMAPS
        } else if p == 995 {
            AppProtocol::POP3S
        } else if p == 1900 {
            AppProtocol::SSDP
        } else if p == 5222 {
            AppProtocol::XMPP
        } else if p == 5353 {
            AppProtocol::mDNS
        } else {
            AppProtocol::Unknown
        },
    }
}

/// Maps a transport port to the application protocol it is well known for.
pub fn from_port_to_application_protocol(port: Option<u16>) -> (r: AppProtocol)
    ensures
        r == spec_protocol_of_port(port),
{
    if let Some(res) = port {
        match res {
            20..=21 => AppProtocol::FTP,
            22 => AppProtocol::SSH,
            23 => AppProtocol::Telnet,
            25 => AppProtocol::SMTP,
            49 => AppProtocol::TACACS,
            53 => AppProtocol::DNS,
            67..=68 => AppProtocol::DHCP,
            69 => AppProtocol::TFTP,
            80 | 8080 => AppProtocol::HTTP,
            109..=110 => AppProtocol::POP,
            123 => AppProtocol::NTP,
            137..=139 => AppProtocol::NetBIOS,
            143 | 220 => AppProtocol::IMAP,
            161..=162 | 199 => AppProtocol::SNMP,
            179 => AppProtocol::BGP,
            389 => AppProtocol::LDAP,
            443 => AppProtocol::HTTPS,
            636 => AppProtocol::LDAPS,
            989..=990 => AppProtocol::FTPS,
            993 => AppProtocol::IMAPS,
            995 => AppProtocol::POP3S,
            1900 => AppProtocol::SSDP,
            5222 => AppProtocol::XMPP,
            5353 => AppProtocol::mDNS,
            _ => AppProtocol::Unknown,
        }
    } else {
        // a transport without ports (ICMP)
        AppProtocol::NotApplicable
    }
}

/// The application protocol guessed for a connection: from the source port
/// first, from the destination port where the source port is not well known.
pub open spec fn spec_app_protocol(src_port: Option<u16>, dst_port: Option<u16>) -> AppProtocol {
    if spec_protocol_of_port(src_port) == AppProtocol::Unknown {
        spec_protocol_of_port(dst_port)
    } else {
        spec_protocol_of_port(src_port)
    }
}

/// Guesses the application protocol of a connection from its two ports.
pub fn get_app_protocol(src_port: Option<u16>, dst_port: Option<u16>) -> (r: AppProtocol)
    ensures
        r == spec_app_protocol(src_port, dst_port),
{
    let mut application_protocol = from_port_to_application_protocol(src_port);
    if application_protocol == AppProtocol::Unknown {
        application_protocol = from_port_to_application_protocol(dst_port);
    }
    application_protocol
}

/// The text that `AppProtocol::label` returns for each protocol.
pub open spec fn spec_app_protocol_label(p: AppProtocol) -> Seq<char> {
    match p {
        AppProtocol::FTP => "FTP"@,
        AppProtocol::SSH => "SSH"@,
        AppProtocol::Telnet => "Telnet"@,
        AppProtocol::SMTP => "SMTP"@,
        AppProtocol::TACACS => "TACACS"@,
        AppProtocol::DNS => "DNS"@,
        AppProtocol::DHCP => "DHCP"@,
        AppProtocol::TFTP => "TFTP"@,
        AppProtocol::HTTP => "HTTP"@,
        AppProtocol::POP => "POP"@,
        AppProtocol::NTP => "NTP"@,
        AppProtocol::NetBIOS => "NetBIOS"@,
        AppProtocol::POP3S => "POP3S"@,
        AppProtocol::IMAP => "IMAP"@,
        AppProtocol::SNMP => "SNMP"@,
        AppProtocol::BGP => "BGP"@,
        AppProtocol::LDAP => "LDAP"@,
        AppProtocol::HTTPS => "HTTPS"@,
        AppProtocol::LDAPS => "LDAPS"@,
        AppProtocol::FTPS => "FTPS"@,
        AppProtocol::mDNS => "mDNS"@,
        AppProtocol::IMAPS => "IMAPS"@,
        AppProtocol::SSDP => "SSDP"@,
        AppProtocol::XMPP => "XMPP"@,
        AppProtocol::Unknown => "?"@,
        AppProtocol::NotApplicable => "-"@,
    }
}

impl AppProtocol {
    /// The protocol's display text: its acronym, `?` where it is not
    /// identified, `-` where it is not applicable.
    pub fn label(&self) -> (r: String)
        ensures
            r@ == spec_app_protocol_label(*self),
    {
        match self {
            AppProtocol::FTP => "FTP".to_owned(),
            AppProtocol::SSH => "SSH".to_owned(),
            AppProtocol::Telnet => "Telnet".to_owned(),
            AppProtocol::SMTP => "SMTP".to_owned(),
            AppProtocol::TACACS => "TACACS".to_owned(),
            AppProtocol::DNS => "DNS".to_owned(),
            AppProtocol::DHCP => "DHCP".to_owned(),
            AppProtocol::TFTP => "TFTP".to_owned(),
            AppProtocol::HTTP => "HTTP".to_owned(),
            AppProtocol::POP => "POP".to_owned(),
            AppProtocol::NTP => "NTP".to_owned(),
            AppProtocol::NetBIOS => "NetBIOS".to_owned(),
            AppProtocol::POP3S => "POP3S".to_owned(),
            AppProtocol::IMAP => "IMAP".to_owned(),
            AppProtocol::SNMP => "SNMP".to_owned(),
            AppProtocol::BGP => "BGP".to_owned(),
            AppProtocol::LDAP => "LDAP".to_owned(),
            AppProtocol::HTTPS => "HTTPS".to_owned(),
            AppProtocol::LDAPS => "LDAPS".to_owned(),
            AppProtocol::FTPS => "FTPS".to_owned(),
            AppProtocol::mDNS => "mDNS".to_owned(),
            AppProtocol::IMAPS => "IMAPS".to_owned(),
            AppProtocol::SSDP => "SSDP".to_owned(),
            AppProtocol::XMPP => "XMPP".to_owned(),
            AppProtocol::Unknown => "?".to_owned(),
            AppProtocol::NotApplicable => "-".to_owned(),
        }
    }
}

} // verus!

use vstd::prelude::*;

verus! {

/// Why a message could not be decoded or encoded, or why a session was given up.
#[derive(Clone, Copy, Debug, PartialEq, Eq, Structural)]
pub enum SocksError {
    /// The bytes at hand end before the message does. The value is the number
    /// of further bytes that must arrive before decoding can go on; it is never 0.
    Incomplete(usize),
    /// A version byte differs from the one the protocol fixes.
    ProtocolMismatch,
    /// An address carries a type byte other than IPv4, domain name or IPv6.
    UnsupportedAddressType,
    /// A domain name, user name, password or method list is longer than the
    /// 255 that its length byte can hold.
    ValueTooLarge,
    /// A text field is not valid UTF-8.
    InvalidEncoding,
    /// The two sides share no authentication method.
    NoAcceptableAuthMethod,
    /// The proxy asks for a user name and password and the client has none.
    AuthenticationRequired,
    /// The user name and password were turned down.
    AuthenticationFailed,
    /// The proxy answered a connection request with this reply code, which is not 0.
    ProxyRejected(u8),
    /// The request names a command other than CONNECT.
    CommandNotSupported,
    /// The target's name did not resolve, or its host cannot be reached.
    HostUnreachable,
    /// The target's network cannot be reached.
    NetworkUnreachable,
    /// The target refused the connection.
    ConnectionRefused,
    /// The target's address is of a family that the server cannot dial. A
    /// type byte that the protocol does not know is `UnsupportedAddressType`.
    AddressTypeNotSupported,
}

/// The outcome of a connection request, as a reply tells it.
#[derive(Clone, Copy, Debug, PartialEq, Eq, Structural)]
pub enum ReplyCode {
    Succeeded,
    GeneralFailure,
    ConnectionNotAllowed,
    NetworkUnreachable,
    HostUnreachable,
    ConnectionRefused,
    TtlExpired,
    CommandNotSupported,
    AddressTypeNotSupported,
}

impl ReplyCode {
    /// The byte that stands for the outcome on the wire.
    pub open spec fn code(self) -> u8 {
        match self {
            ReplyCode::Succeeded => 0,
            ReplyCode::GeneralFailure => 1,
            ReplyCode::ConnectionNotAllowed => 2,
            ReplyCode::NetworkUnreachable => 3,
            ReplyCode::HostUnreachable => 4,
            ReplyCode::ConnectionRefused => 5,
            ReplyCode::TtlExpired => 6,
            ReplyCode::CommandNotSupported => 7,
            ReplyCode::AddressTypeNotSupported => 8,
        }
    }

    /// The byte that stands for the outcome on the wire.
    pub fn as_u8(self) -> (code: u8)
        ensures
            code == self.code(),
    {
        match self {
            ReplyCode::Succeeded => 0,
            ReplyCode::GeneralFailure => 1,
            ReplyCode::ConnectionNotAllowed => 2,
            ReplyCode::NetworkUnreachable => 3,
            ReplyCode::HostUnreachable => 4,
            ReplyCode::ConnectionRefused => 5,
            ReplyCode::TtlExpired => 6,
            ReplyCode::CommandNotSupported => 7,
            ReplyCode::AddressTypeNotSupported => 8,
        }
    }

    /// The outcome that a reply byte stands for; the bytes above 8 stand for none.
    pub fn from_u8(code: u8) -> (outcome: Option<ReplyCode>)
        ensures
            outcome is Some <==> code <= 8,
            outcome is Some ==> outcome->0.code() == code,
    {
        match code {
            0 => Some(ReplyCode::Succeeded),
            1 => Some(ReplyCode::GeneralFailure),
            2 => Some(ReplyCode::ConnectionNotAllowed),
            3 => Some(ReplyCode::NetworkUnreachable),
            4 => Some(ReplyCode::HostUnreachable),
            5 => Some(ReplyCode::ConnectionRefused),
            6 => Some(ReplyCode::TtlExpired),
            7 => Some(ReplyCode::CommandNotSupported),
            8 => Some(ReplyCode::AddressTypeNotSupported),
            _ => None,
        }
    }
}

impl SocksError {
    /// What the proxy said of a request that it rejected; nothing for any
    /// other error, and nothing for a code that stands for no outcome.
    pub fn rejection(self) -> (outcome: Option<ReplyCode>)
        ensures
            outcome is Some <==> self is ProxyRejected && self->ProxyRejected_0 <= 8,
            outcome is Some ==> outcome->0.code() == self->ProxyRejected_0,
    {
        match self {
            SocksError::ProxyRejected(code) => ReplyCode::from_u8(code),
            _ => None,
        }
    }
}

} // verus!

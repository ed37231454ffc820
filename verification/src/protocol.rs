use vstd::prelude::*;
use vstd::slice::slice_subrange;
use vstd::slice::slice_to_vec;
use vstd::utf8::decode_utf8;
use vstd::utf8::encode_utf8;
use vstd::utf8::valid_utf8;
use crate::error::SocksError;

verus! {

/// Protocol version byte that opens every SOCKS5 message.
pub const SOCKS_VERSION: u8 = 5;

/// Command code of CONNECT, the one command that is carried out.
pub const CMD_CONNECT: u8 = 1;
/// Command code of BIND.
pub const CMD_BIND: u8 = 2;
/// Command code of UDP ASSOCIATE.
pub const CMD_UDP_ASSOCIATE: u8 = 3;

/// Address type byte of an IPv4 address.
pub const ATYP_IPV4: u8 = 1;
/// Address type byte of a domain name.
pub const ATYP_DOMAIN: u8 = 3;
/// Address type byte of an IPv6 address.
pub const ATYP_IPV6: u8 = 4;

/// Method byte: no authentication.
pub const AUTH_NONE: u8 = 0x00;
/// Method byte: GSSAPI.
pub const AUTH_GSSAPI: u8 = 0x01;
/// Method byte: user name and password.
pub const AUTH_PASSWORD: u8 = 0x02;
/// Method byte by which a server turns every offered method down.
pub const AUTH_NOT_ACCEPTABLE: u8 = 0xFF;

/// Reply code: the request succeeded.
pub const REP_SUCCEEDED: u8 = 0;
/// Reply code: general failure.
pub const REP_GENERAL_FAILURE: u8 = 1;
/// Reply code: the rule set does not allow the connection.
pub const REP_CONNECTION_NOT_ALLOWED: u8 = 2;
/// Reply code: network unreachable.
pub const REP_NETWORK_UNREACHABLE: u8 = 3;
/// Reply code: host unreachable.
pub const REP_HOST_UNREACHABLE: u8 = 4;
/// Reply code: connection refused.
pub const REP_CONNECTION_REFUSED: u8 = 5;
/// Reply code: TTL expired.
pub const REP_TTL_EXPIRED: u8 = 6;
/// Reply code: command not supported.
pub const REP_COMMAND_NOT_SUPPORTED: u8 = 7;
/// Reply code: address type not supported.
pub const REP_ADDRESS_TYPE_NOT_SUPPORTED: u8 = 8;

/// Version byte of the user name and password subnegotiation.
pub const AUTH_VERSION: u8 = 1;
/// Status byte: the credentials were accepted.
pub const AUTH_SUCCESS: u8 = 0;
/// Status byte: the credentials were turned down.
pub const AUTH_FAILURE: u8 = 1;

/// The 16-bit value whose big-endian form is the two bytes.
pub open spec fn port_of(hi: u8, lo: u8) -> u16 {
    (hi as int * 256 + lo as int) as u16
}

/// The two bytes of a port in network order.
pub open spec fn port_bytes(port: u16) -> Seq<u8> {
    seq![(port as int / 256) as u8, (port as int % 256) as u8]
}

/// Reading back the two bytes of a port gives the port.
pub proof fn lemma_port_roundtrip(port: u16)
    ensures
        port_bytes(port).len() == 2,
        port_of(port_bytes(port)[0], port_bytes(port)[1]) == port,
{
}

/// A socket address that can be dialled as it stands: an IP address and a port.
#[derive(Clone, Copy, Debug, PartialEq, Eq)]
pub enum Endpoint {
    V4([u8; 4], u16),
    V6([u8; 16], u16),
}

impl Endpoint {
    /// The address that stands for this one in a request or a reply.
    pub open spec fn addr(self) -> AddrModel {
        match self {
            Endpoint::V4(a, port) => AddrModel::Ipv4(a, port),
            Endpoint::V6(a, port) => AddrModel::Ipv6(a, port),
        }
    }

    /// The address that stands for this one in a request or a reply.
    pub fn to_socks_addr(self) -> (r: SocksAddr)
        ensures
            r@ == self.addr(),
    {
        match self {
            Endpoint::V4(addr, port) => SocksAddr::Ipv4(addr, port),
            Endpoint::V6(addr, port) => SocksAddr::Ipv6(addr, port),
        }
    }
}

/// The target of a request, or the bound address of a reply.
#[derive(Debug, PartialEq, Eq)]
pub enum SocksAddr {
    Ipv4([u8; 4], u16),
    Ipv6([u8; 16], u16),
    Domain(String, u16),
}

/// What a `SocksAddr` stands for: the address, or the name's characters, and the port.
pub enum AddrModel {
    Ipv4([u8; 4], u16),
    Ipv6([u8; 16], u16),
    Domain(Seq<char>, u16),
}

/// The four bytes of `s` from `at` on.
pub open spec fn ipv4_at(s: Seq<u8>, at: int) -> [u8; 4] {
    [s[at], s[at + 1], s[at + 2], s[at + 3]]
}

/// The sixteen bytes of `s` from `at` on.
pub open spec fn ipv6_at(s: Seq<u8>, at: int) -> [u8; 16] {
    [
        s[at],
        s[at + 1],
        s[at + 2],
        s[at + 3],
        s[at + 4],
        s[at + 5],
        s[at + 6],
        s[at + 7],
        s[at + 8],
        s[at + 9],
        s[at + 10],
        s[at + 11],
        s[at + 12],
        s[at + 13],
        s[at + 14],
        s[at + 15],
    ]
}

impl AddrModel {
    /// The address has a wire form: it is an IP address, or a name whose
    /// UTF-8 form is at most 255 bytes long.
    pub open spec fn encodable(self) -> bool {
        match self {
            AddrModel::Domain(name, _) => encode_utf8(name).len() <= 255,
            _ => true,
        }
    }

    /// The address as one that can be dialled without a lookup; a domain
    /// name is none.
    pub open spec fn endpoint(self) -> Option<Endpoint> {
        match self {
            AddrModel::Ipv4(a, port) => Some(Endpoint::V4(a, port)),
            AddrModel::Ipv6(a, port) => Some(Endpoint::V6(a, port)),
            AddrModel::Domain(_, _) => None,
        }
    }

    /// The wire form: type byte, address (a name after its length byte), port.
    pub open spec fn wire(self) -> Seq<u8> {
        match self {
            AddrModel::Ipv4(a, port) => seq![ATYP_IPV4] + a@ + port_bytes(port),
            AddrModel::Ipv6(a, port) => seq![ATYP_IPV6] + a@ + port_bytes(port),
            AddrModel::Domain(name, port) => seq![ATYP_DOMAIN, encode_utf8(name).len() as u8]
                + encode_utf8(name) + port_bytes(port),
        }
    }
}

impl View for SocksAddr {
    type V = AddrModel;

    open spec fn view(&self) -> AddrModel {
        match *self {
            SocksAddr::Ipv4(a, port) => AddrModel::Ipv4(a, port),
            SocksAddr::Ipv6(a, port) => AddrModel::Ipv6(a, port),
            SocksAddr::Domain(name, port) => AddrModel::Domain(name@, port),
        }
    }
}

/// What decoding an address from the front of `s` gives: the address and the
/// number of bytes it takes up, or the error. Each field is looked at only
/// once the bytes before it are there, so an error is reported as soon as the
/// bytes at hand decide it.
pub open spec fn parse_addr(s: Seq<u8>) -> Result<(AddrModel, nat), SocksError> {
    if s.len() < 1 {
        Err(SocksError::Incomplete(1))
    } else if s[0] == ATYP_IPV4 {
        if s.len() < 7 {
            Err(SocksError::Incomplete((7 - s.len()) as usize))
        } else {
            Ok((AddrModel::Ipv4(ipv4_at(s, 1), port_of(s[5], s[6])), 7))
        }
    } else if s[0] == ATYP_IPV6 {
        if s.len() < 19 {
            Err(SocksError::Incomplete((19 - s.len()) as usize))
        } else {
            Ok((AddrModel::Ipv6(ipv6_at(s, 1), port_of(s[17], s[18])), 19))
        }
    } else if s[0] == ATYP_DOMAIN {
        if s.len() < 2 {
            Err(SocksError::Incomplete(1))
        } else {
            let n = s[1] as int;
            if s.len() < 2 + n {
                Err(SocksError::Incomplete((2 + n - s.len()) as usize))
            } else if !valid_utf8(s.subrange(2, 2 + n)) {
                Err(SocksError::InvalidEncoding)
            } else if s.len() < 4 + n {
                Err(SocksError::Incomplete((4 + n - s.len()) as usize))
            } else {
                Ok(
                    (
                        AddrModel::Domain(
                            decode_utf8(s.subrange(2, 2 + n)),
                            port_of(s[2 + n], s[3 + n]),
                        ),
                        (4 + n) as nat,
                    ),
                )
            }
        }
    } else {
        Err(SocksError::UnsupportedAddressType)
    }
}

/// The result of a decoder as its contract speaks of it: the decoded value by
/// its view and the count as a natural number.
pub open spec fn decoded<T: View>(r: Result<(T, usize), SocksError>) -> Result<
    (T::V, nat),
    SocksError,
> {
    match r {
        Ok((value, used)) => Ok((value@, used as nat)),
        Err(e) => Err(e),
    }
}

/// `String::from_utf8` of std: the text that the bytes encode, if they are
/// valid UTF-8, and nothing if they are not.
#[verifier::external_body]
fn string_from_utf8(bytes: Vec<u8>) -> (text: Option<String>)
    ensures
        text is Some <==> valid_utf8(bytes@),
        text is Some ==> text->0@ == decode_utf8(bytes@),
{
    match String::from_utf8(bytes) {
        Ok(text) => Some(text),
        Err(_) => None,
    }
}

/// The text held in the `n` bytes of `input` from `start` on, if they are
/// valid UTF-8.
fn read_text(input: &[u8], start: usize, n: usize) -> (text: Option<String>)
    requires
        start + n <= input@.len(),
    ensures
        text is Some <==> valid_utf8(input@.subrange(start as int, start + n)),
        text is Some ==> text->0@ == decode_utf8(input@.subrange(start as int, start + n)),
{
    assert(input@.len() == input.len());
    string_from_utf8(slice_to_vec(slice_subrange(input, start, start + n)))
}

/// Appends the two bytes of a port in network order.
fn write_port(port: u16, out: &mut Vec<u8>)
    ensures
        final(out)@ == old(out)@ + port_bytes(port),
{
    out.push((port / 256) as u8);
    out.push((port % 256) as u8);
    assert(out@ =~= old(out)@ + port_bytes(port));
}

/// Joins the two bytes of a port as they stand on the wire.
fn read_port(hi: u8, lo: u8) -> (port: u16)
    ensures
        port == port_of(hi, lo),
{
    (hi as u16) * 256 + (lo as u16)
}

impl SocksAddr {
    /// Appends the wire form of the address to `out`. A domain name longer
    /// than 255 bytes has none: the call fails and `out` is left as it was.
    pub fn write_to(&self, out: &mut Vec<u8>) -> (r: Result<(), SocksError>)
        ensures
            self@.encodable() ==> r is Ok && final(out)@ == old(out)@ + self@.wire(),
            !self@.encodable() ==> r == Err::<(), SocksError>(SocksError::ValueTooLarge)
                && final(out)@ == old(out)@,
    {
        match self {
            SocksAddr::Ipv4(addr, port) => {
                out.push(ATYP_IPV4);
                out.extend_from_slice(addr.as_slice());
                write_port(*port, out);
                assert(out@ =~= old(out)@ + self@.wire());
            },
            SocksAddr::Ipv6(addr, port) => {
                out.push(ATYP_IPV6);
                out.extend_from_slice(addr.as_slice());
                write_port(*port, out);
                assert(out@ =~= old(out)@ + self@.wire());
            },
            SocksAddr::Domain(domain, port) => {
                let name: &[u8] = domain.as_str().as_bytes();
                if name.len() > 255 {
                    return Err(SocksError::ValueTooLarge);
                }
                out.push(ATYP_DOMAIN);
                out.push(name.len() as u8);
                out.extend_from_slice(name);
                write_port(*port, out);
                assert(out@ =~= old(out)@ + self@.wire());
            },
        }
        Ok(())
    }

    /// Decodes an address from the front of `input`, and says how many bytes
    /// it takes up.
    pub fn read_from(input: &[u8]) -> (r: Result<(SocksAddr, usize), SocksError>)
        ensures
            decoded(r) == parse_addr(input@),
    {
        let len: usize = input.len();
        if len < 1 {
            return Err(SocksError::Incomplete(1));
        }
        let kind: u8 = input[0];
        if kind == ATYP_IPV4 {
            if len < 7 {
                return Err(SocksError::Incomplete(7 - len));
            }
            let addr: [u8; 4] = [input[1], input[2], input[3], input[4]];
            let port: u16 = read_port(input[5], input[6]);
            assert(addr =~= ipv4_at(input@, 1));
            Ok((SocksAddr::Ipv4(addr, port), 7))
        } else if kind == ATYP_IPV6 {
            if len < 19 {
                return Err(SocksError::Incomplete(19 - len));
            }
            let addr: [u8; 16] = [
                input[1], input[2], input[3], input[4], input[5], input[6], input[7], input[8],
                input[9], input[10], input[11], input[12], input[13], input[14], input[15],
                input[16],
            ];
            let port: u16 = read_port(input[17], input[18]);
            assert(addr =~= ipv6_at(input@, 1));
            Ok((SocksAddr::Ipv6(addr, port), 19))
        } else if kind == ATYP_DOMAIN {
            if len < 2 {
                return Err(SocksError::Incomplete(1));
            }
            let n: usize = input[1] as usize;
            if len < 2 + n {
                return Err(SocksError::Incomplete(2 + n - len));
            }
            match read_text(input, 2, n) {
                None => Err(SocksError::InvalidEncoding),
                Some(name) => {
                    if len < 4 + n {
                        return Err(SocksError::Incomplete(4 + n - len));
                    }
                    let port: u16 = read_port(input[2 + n], input[3 + n]);
                    Ok((SocksAddr::Domain(name, port), 4 + n))
                },
            }
        } else {
            Err(SocksError::UnsupportedAddressType)
        }
    }

    /// The address as one that can be dialled without a lookup; a domain name
    /// is none.
    pub fn to_socket_addr(&self) -> (r: Option<Endpoint>)
        ensures
            r == self@.endpoint(),
    {
        match self {
            SocksAddr::Ipv4(addr, port) => Some(Endpoint::V4(*addr, *port)),
            SocksAddr::Ipv6(addr, port) => Some(Endpoint::V6(*addr, *port)),
            SocksAddr::Domain(_, _) => None,
        }
    }
}

impl Clone for SocksAddr {
    fn clone(&self) -> (r: Self)
        ensures
            r == *self,
    {
        match self {
            SocksAddr::Ipv4(addr, port) => SocksAddr::Ipv4(*addr, *port),
            SocksAddr::Ipv6(addr, port) => SocksAddr::Ipv6(*addr, *port),
            SocksAddr::Domain(domain, port) => SocksAddr::Domain(domain.clone(), *port),
        }
    }
}

/// An encoded address decodes to itself, whatever follows it, and takes up
/// exactly the bytes of its wire form.
pub proof fn lemma_addr_roundtrip(a: AddrModel, rest: Seq<u8>)
    requires
        a.encodable(),
    ensures
        parse_addr(a.wire() + rest) == Ok::<(AddrModel, nat), SocksError>((a, a.wire().len())),
{
    let s = a.wire() + rest;
    match a {
        AddrModel::Ipv4(addr, port) => {
            lemma_port_roundtrip(port);
            assert(ipv4_at(s, 1) =~= addr);
        },
        AddrModel::Ipv6(addr, port) => {
            lemma_port_roundtrip(port);
            assert(ipv6_at(s, 1) =~= addr);
        },
        AddrModel::Domain(name, port) => {
            lemma_port_roundtrip(port);
            let n = encode_utf8(name).len() as int;
            assert(s.subrange(2, 2 + n) =~= encode_utf8(name));
            vstd::utf8::encode_utf8_valid_utf8(name);
            vstd::utf8::encode_utf8_decode_utf8(name);
        },
    }
}

/// The greeting by which a client opens a session: the methods it can use.
#[derive(Debug, PartialEq, Eq)]
pub struct HandshakeRequest {
    pub version: u8,
    pub methods: Vec<u8>,
}

/// What a `HandshakeRequest` stands for.
pub struct GreetingModel {
    pub version: u8,
    pub methods: Seq<u8>,
}

impl GreetingModel {
    /// The method list can be counted in one byte.
    pub open spec fn encodable(self) -> bool {
        self.methods.len() <= 255
    }

    /// The wire form: version, method count, methods.
    pub open spec fn wire(self) -> Seq<u8> {
        seq![self.version, self.methods.len() as u8] + self.methods
    }
}

impl View for HandshakeRequest {
    type V = GreetingModel;

    open spec fn view(&self) -> GreetingModel {
        GreetingModel { version: self.version, methods: self.methods@ }
    }
}

/// What decoding a greeting from the front of `s` gives. The version byte is
/// judged as soon as it is there, before anything behind it is asked for.
pub open spec fn parse_greeting(s: Seq<u8>) -> Result<(GreetingModel, nat), SocksError> {
    if s.len() < 1 {
        Err(SocksError::Incomplete(1))
    } else if s[0] != SOCKS_VERSION {
        Err(SocksError::ProtocolMismatch)
    } else if s.len() < 2 {
        Err(SocksError::Incomplete(1))
    } else {
        let n = s[1] as int;
        if s.len() < 2 + n {
            Err(SocksError::Incomplete((2 + n - s.len()) as usize))
        } else {
            Ok((GreetingModel { version: s[0], methods: s.subrange(2, 2 + n) }, (2 + n) as nat))
        }
    }
}

impl HandshakeRequest {
    /// Appends the wire form of the greeting to `out`. A list of more than
    /// 255 methods has none: the call fails and `out` is left as it was.
    pub fn write_to(&self, out: &mut Vec<u8>) -> (r: Result<(), SocksError>)
        ensures
            self@.encodable() ==> r is Ok && final(out)@ == old(out)@ + self@.wire(),
            !self@.encodable() ==> r == Err::<(), SocksError>(SocksError::ValueTooLarge)
                && final(out)@ == old(out)@,
    {
        if self.methods.len() > 255 {
            return Err(SocksError::ValueTooLarge);
        }
        out.push(self.version);
        out.push(self.methods.len() as u8);
        out.extend_from_slice(self.methods.as_slice());
        assert(out@ =~= old(out)@ + self@.wire());
        Ok(())
    }

    /// Decodes a greeting from the front of `input`, and says how many bytes
    /// it takes up.
    pub fn read_from(input: &[u8]) -> (r: Result<(HandshakeRequest, usize), SocksError>)
        ensures
            decoded(r) == parse_greeting(input@),
    {
        let len: usize = input.len();
        if len < 1 {
            return Err(SocksError::Incomplete(1));
        }
        let version: u8 = input[0];
        if version != SOCKS_VERSION {
            return Err(SocksError::ProtocolMismatch);
        }
        if len < 2 {
            return Err(SocksError::Incomplete(1));
        }
        let n: usize = input[1] as usize;
        if len < 2 + n {
            return Err(SocksError::Incomplete(2 + n - len));
        }
        let methods: Vec<u8> = slice_to_vec(slice_subrange(input, 2, 2 + n));
        Ok((HandshakeRequest { version, methods }, 2 + n))
    }
}

/// The wire form of a server's choice of method: version, method.
pub open spec fn choice_wire(method: u8) -> Seq<u8> {
    seq![SOCKS_VERSION, method]
}

/// What decoding a method choice from the front of `s` gives. Both bytes are
/// taken in before the version is judged.
pub open spec fn parse_choice(s: Seq<u8>) -> Result<(u8, nat), SocksError> {
    if s.len() < 2 {
        Err(SocksError::Incomplete((2 - s.len()) as usize))
    } else if s[0] != SOCKS_VERSION {
        Err(SocksError::ProtocolMismatch)
    } else {
        Ok((s[1], 2))
    }
}

/// Appends a server's choice of method to `out`.
pub fn encode_choice(method: u8, out: &mut Vec<u8>)
    ensures
        final(out)@ == old(out)@ + choice_wire(method),
{
    out.push(SOCKS_VERSION);
    out.push(method);
    assert(out@ =~= old(out)@ + choice_wire(method));
}

/// Decodes a server's choice of method from the front of `input`.
pub fn decode_choice(input: &[u8]) -> (r: Result<(u8, usize), SocksError>)
    ensures
        decoded(r) == parse_choice(input@),
{
    let len: usize = input.len();
    if len < 2 {
        return Err(SocksError::Incomplete(2 - len));
    }
    if input[0] != SOCKS_VERSION {
        return Err(SocksError::ProtocolMismatch);
    }
    Ok((input[1], 2))
}

/// A user name and password, as the subnegotiation carries them.
#[derive(Debug, PartialEq, Eq)]
pub struct UserPassAuth {
    pub username: String,
    pub password: String,
}

/// What a `UserPassAuth` stands for.
pub struct AuthModel {
    pub username: Seq<char>,
    pub password: Seq<char>,
}

impl AuthModel {
    /// Each field's UTF-8 form is at most 255 bytes long.
    pub open spec fn encodable(self) -> bool {
        encode_utf8(self.username).len() <= 255 && encode_utf8(self.password).len() <= 255
    }

    /// The wire form: subnegotiation version, then each field after its length byte.
    pub open spec fn wire(self) -> Seq<u8> {
        seq![AUTH_VERSION, encode_utf8(self.username).len() as u8] + encode_utf8(self.username)
            + seq![encode_utf8(self.password).len() as u8] + encode_utf8(self.password)
    }
}

impl View for UserPassAuth {
    type V = AuthModel;

    open spec fn view(&self) -> AuthModel {
        AuthModel { username: self.username@, password: self.password@ }
    }
}

/// What decoding a user name and password from the front of `s` gives. The
/// version byte is judged first, and each field's text once the field is
/// there, before anything behind it is asked for.
pub open spec fn parse_auth(s: Seq<u8>) -> Result<(AuthModel, nat), SocksError> {
    if s.len() < 1 {
        Err(SocksError::Incomplete(1))
    } else if s[0] != AUTH_VERSION {
        Err(SocksError::ProtocolMismatch)
    } else if s.len() < 2 {
        Err(SocksError::Incomplete(1))
    } else {
        let n = s[1] as int;
        if s.len() < 2 + n {
            Err(SocksError::Incomplete((2 + n - s.len()) as usize))
        } else if !valid_utf8(s.subrange(2, 2 + n)) {
            Err(SocksError::InvalidEncoding)
        } else if s.len() < 3 + n {
            Err(SocksError::Incomplete(1))
        } else {
            let m = s[2 + n] as int;
            if s.len() < 3 + n + m {
                Err(SocksError::Incomplete((3 + n + m - s.len()) as usize))
            } else if !valid_utf8(s.subrange(3 + n, 3 + n + m)) {
                Err(SocksError::InvalidEncoding)
            } else {
                Ok(
                    (
                        AuthModel {
                            username: decode_utf8(s.subrange(2, 2 + n)),
                            password: decode_utf8(s.subrange(3 + n, 3 + n + m)),
                        },
                        (3 + n + m) as nat,
                    ),
                )
            }
        }
    }
}

impl UserPassAuth {
    pub fn new(username: String, password: String) -> (r: Self)
        ensures
            r.username == username,
            r.password == password,
    {
        UserPassAuth { username, password }
    }

    /// Appends the wire form of the credentials to `out`. If either field is
    /// longer than 255 bytes there is none: the call fails and `out` is left
    /// as it was.
    pub fn write_to(&self, out: &mut Vec<u8>) -> (r: Result<(), SocksError>)
        ensures
            self@.encodable() ==> r is Ok && final(out)@ == old(out)@ + self@.wire(),
            !self@.encodable() ==> r == Err::<(), SocksError>(SocksError::ValueTooLarge)
                && final(out)@ == old(out)@,
    {
        let username: &[u8] = self.username.as_str().as_bytes();
        let password: &[u8] = self.password.as_str().as_bytes();
        if username.len() > 255 || password.len() > 255 {
            return Err(SocksError::ValueTooLarge);
        }
        out.push(AUTH_VERSION);
        out.push(username.len() as u8);
        out.extend_from_slice(username);
        out.push(password.len() as u8);
        out.extend_from_slice(password);
        assert(out@ =~= old(out)@ + self@.wire());
        Ok(())
    }

    /// Decodes a user name and password from the front of `input`, and says
    /// how many bytes they take up.
    pub fn read_from(input: &[u8]) -> (r: Result<(UserPassAuth, usize), SocksError>)
        ensures
            decoded(r) == parse_auth(input@),
    {
        let len: usize = input.len();
        if len < 1 {
            return Err(SocksError::Incomplete(1));
        }
        if input[0] != AUTH_VERSION {
            return Err(SocksError::ProtocolMismatch);
        }
        if len < 2 {
            return Err(SocksError::Incomplete(1));
        }
        let n: usize = input[1] as usize;
        if len < 2 + n {
            return Err(SocksError::Incomplete(2 + n - len));
        }
        let username: String = match read_text(input, 2, n) {
            None => { return Err(SocksError::InvalidEncoding); },
            Some(text) => text,
        };
        if len < 3 + n {
            return Err(SocksError::Incomplete(1));
        }
        let m: usize = input[2 + n] as usize;
        if len < 3 + n + m {
            return Err(SocksError::Incomplete(3 + n + m - len));
        }
        let password: String = match read_text(input, 3 + n, m) {
            None => { return Err(SocksError::InvalidEncoding); },
            Some(text) => text,
        };
        Ok((UserPassAuth { username, password }, 3 + n + m))
    }
}

/// The wire form of the answer to a user name and password: version, status.
pub open spec fn status_wire(success: bool) -> Seq<u8> {
    seq![AUTH_VERSION, if success { AUTH_SUCCESS } else { AUTH_FAILURE }]
}

/// What decoding such an answer from the front of `s` gives. Both bytes are
/// taken in before the version is judged; status 0 alone means success.
pub open spec fn parse_status(s: Seq<u8>) -> Result<(bool, nat), SocksError> {
    if s.len() < 2 {
        Err(SocksError::Incomplete((2 - s.len()) as usize))
    } else if s[0] != AUTH_VERSION {
        Err(SocksError::ProtocolMismatch)
    } else {
        Ok((s[1] == AUTH_SUCCESS, 2))
    }
}

/// Appends the answer to a user name and password to `out`.
pub fn encode_status(success: bool, out: &mut Vec<u8>)
    ensures
        final(out)@ == old(out)@ + status_wire(success),
{
    out.push(AUTH_VERSION);
    out.push(if success { AUTH_SUCCESS } else { AUTH_FAILURE });
    assert(out@ =~= old(out)@ + status_wire(success));
}

/// Decodes the answer to a user name and password from the front of `input`.
pub fn decode_status(input: &[u8]) -> (r: Result<(bool, usize), SocksError>)
    ensures
        decoded(r) == parse_status(input@),
{
    let len: usize = input.len();
    if len < 2 {
        return Err(SocksError::Incomplete(2 - len));
    }
    if input[0] != AUTH_VERSION {
        return Err(SocksError::ProtocolMismatch);
    }
    Ok((input[1] == AUTH_SUCCESS, 2))
}

/// A connection request: what the client asks the proxy to do, and with which target.
#[derive(Debug, PartialEq, Eq)]
pub struct Request {
    pub version: u8,
    pub command: u8,
    pub addr: SocksAddr,
}

/// What a `Request` stands for.
pub struct RequestModel {
    pub version: u8,
    pub command: u8,
    pub addr: AddrModel,
}

impl RequestModel {
    /// The wire form: version, command, a reserved 0, address.
    pub open spec fn wire(self) -> Seq<u8> {
        seq![self.version, self.command, 0u8] + self.addr.wire()
    }
}

impl View for Request {
    type V = RequestModel;

    open spec fn view(&self) -> RequestModel {
        RequestModel { version: self.version, command: self.command, addr: self.addr@ }
    }
}

/// What decoding a request from the front of `s` gives. The version byte is
/// judged as soon as it is there; the reserved byte may hold anything.
pub open spec fn parse_request(s: Seq<u8>) -> Result<(RequestModel, nat), SocksError> {
    if s.len() < 1 {
        Err(SocksError::Incomplete(1))
    } else if s[0] != SOCKS_VERSION {
        Err(SocksError::ProtocolMismatch)
    } else if s.len() < 3 {
        Err(SocksError::Incomplete((3 - s.len()) as usize))
    } else {
        match parse_addr(s.skip(3)) {
            Ok((addr, used)) => Ok(
                (RequestModel { version: s[0], command: s[1], addr }, 3 + used),
            ),
            Err(e) => Err(e),
        }
    }
}

impl Request {
    /// Appends the wire form of the request to `out`. If the address has none
    /// the call fails and `out` is left as it was.
    pub fn write_to(&self, out: &mut Vec<u8>) -> (r: Result<(), SocksError>)
        ensures
            self.addr@.encodable() ==> r is Ok && final(out)@ == old(out)@ + self@.wire(),
            !self.addr@.encodable() ==> r == Err::<(), SocksError>(SocksError::ValueTooLarge)
                && final(out)@ == old(out)@,
    {
        write_message(self.version, self.command, &self.addr, out)
    }

    /// Decodes a request from the front of `input`, and says how many bytes
    /// it takes up.
    pub fn read_from(input: &[u8]) -> (r: Result<(Request, usize), SocksError>)
        ensures
            decoded(r) == parse_request(input@),
    {
        let len: usize = input.len();
        if len < 1 {
            return Err(SocksError::Incomplete(1));
        }
        let version: u8 = input[0];
        if version != SOCKS_VERSION {
            return Err(SocksError::ProtocolMismatch);
        }
        if len < 3 {
            return Err(SocksError::Incomplete(3 - len));
        }
        let command: u8 = input[1];
        assert(input@.subrange(3, len as int) == input@.skip(3));
        match SocksAddr::read_from(slice_subrange(input, 3, len)) {
            Ok((addr, used)) => Ok((Request { version, command, addr }, 3 + used)),
            Err(e) => Err(e),
        }
    }
}

/// A reply to a connection request: the outcome, and the address the proxy bound.
#[derive(Debug, PartialEq, Eq)]
pub struct Reply {
    pub version: u8,
    pub reply: u8,
    pub addr: SocksAddr,
}

/// What a `Reply` stands for.
pub struct ReplyModel {
    pub version: u8,
    pub reply: u8,
    pub addr: AddrModel,
}

impl ReplyModel {
    /// The wire form: version, reply code, a reserved 0, address.
    pub open spec fn wire(self) -> Seq<u8> {
        seq![self.version, self.reply, 0u8] + self.addr.wire()
    }
}

impl View for Reply {
    type V = ReplyModel;

    open spec fn view(&self) -> ReplyModel {
        ReplyModel { version: self.version, reply: self.reply, addr: self.addr@ }
    }
}

impl Reply {
    pub fn new(reply: u8, addr: SocksAddr) -> (r: Self)
        ensures
            r.version == SOCKS_VERSION,
            r.reply == reply,
            r.addr == addr,
    {
        Reply { version: SOCKS_VERSION, reply, addr }
    }

    /// Appends the wire form of the reply to `out`. If the address has none
    /// the call fails and `out` is left as it was.
    pub fn write_to(&self, out: &mut Vec<u8>) -> (r: Result<(), SocksError>)
        ensures
            self.addr@.encodable() ==> r is Ok && final(out)@ == old(out)@ + self@.wire(),
            !self.addr@.encodable() ==> r == Err::<(), SocksError>(SocksError::ValueTooLarge)
                && final(out)@ == old(out)@,
    {
        write_message(self.version, self.reply, &self.addr, out)
    }
}

/// Appends the frame that requests and replies share: version, a code, a
/// reserved 0, address. Nothing is appended if the address has no wire form.
fn write_message(version: u8, code: u8, addr: &SocksAddr, out: &mut Vec<u8>) -> (r: Result<
    (),
    SocksError,
>)
    ensures
        addr@.encodable() ==> r is Ok && final(out)@ == old(out)@ + seq![version, code, 0u8]
            + addr@.wire(),
        !addr@.encodable() ==> r == Err::<(), SocksError>(SocksError::ValueTooLarge)
            && final(out)@ == old(out)@,
{
    let mut tail: Vec<u8> = Vec::new();
    match addr.write_to(&mut tail) {
        Err(e) => Err(e),
        Ok(()) => {
            out.push(version);
            out.push(code);
            out.push(0);
            out.append(&mut tail);
            assert(out@ =~= old(out)@ + seq![version, code, 0u8] + addr@.wire());
            Ok(())
        },
    }
}

/// An encoded greeting that opens with the protocol's version decodes to
/// itself, whatever follows it.
pub proof fn lemma_greeting_roundtrip(g: GreetingModel, rest: Seq<u8>)
    requires
        g.encodable(),
        g.version == SOCKS_VERSION,
    ensures
        parse_greeting(g.wire() + rest) == Ok::<(GreetingModel, nat), SocksError>(
            (g, g.wire().len()),
        ),
{
    let s = g.wire() + rest;
    assert(s.subrange(2, 2 + g.methods.len() as int) =~= g.methods);
}

/// A greeting whose first byte is not the protocol's version is refused on
/// that byte alone: whatever follows it, and whether anything follows it.
pub proof fn lemma_greeting_version_checked_first(s: Seq<u8>)
    requires
        s.len() >= 1,
        s[0] != SOCKS_VERSION,
    ensures
        parse_greeting(s) == Err::<(GreetingModel, nat), SocksError>(SocksError::ProtocolMismatch),
        parse_greeting(s.take(1)) == parse_greeting(s),
{
}

/// Encoded credentials decode to themselves, whatever follows them.
pub proof fn lemma_auth_roundtrip(c: AuthModel, rest: Seq<u8>)
    requires
        c.encodable(),
    ensures
        parse_auth(c.wire() + rest) == Ok::<(AuthModel, nat), SocksError>((c, c.wire().len())),
{
    let s = c.wire() + rest;
    let n = encode_utf8(c.username).len() as int;
    let m = encode_utf8(c.password).len() as int;
    assert(s.subrange(2, 2 + n) =~= encode_utf8(c.username));
    assert(s[2 + n] == m as u8);
    assert(s.subrange(3 + n, 3 + n + m) =~= encode_utf8(c.password));
    vstd::utf8::encode_utf8_valid_utf8(c.username);
    vstd::utf8::encode_utf8_decode_utf8(c.username);
    vstd::utf8::encode_utf8_valid_utf8(c.password);
    vstd::utf8::encode_utf8_decode_utf8(c.password);
}

/// An encoded method choice decodes to the method, and an encoded status to
/// the outcome, whatever follows them.
pub proof fn lemma_choice_status_roundtrip(method: u8, success: bool, rest: Seq<u8>)
    ensures
        parse_choice(choice_wire(method) + rest) == Ok::<(u8, nat), SocksError>((method, 2)),
        parse_status(status_wire(success) + rest) == Ok::<(bool, nat), SocksError>((success, 2)),
{
}

/// An encoded request that opens with the protocol's version decodes to
/// itself, whatever follows it.
pub proof fn lemma_request_roundtrip(q: RequestModel, rest: Seq<u8>)
    requires
        q.addr.encodable(),
        q.version == SOCKS_VERSION,
    ensures
        parse_request(q.wire() + rest) == Ok::<(RequestModel, nat), SocksError>(
            (q, q.wire().len()),
        ),
{
    let s = q.wire() + rest;
    assert(s.skip(3) =~= q.addr.wire() + rest);
    lemma_addr_roundtrip(q.addr, rest);
}

/// What it is for a decoder to decide on the shortest prefix that can bear
/// the decision, told of its result `before` on some bytes and its result
/// `after` on the same bytes with `added` more behind them. A decoded
/// message lies within the bytes and stays as it is. An error other than
/// `Incomplete` stays as it is. `Incomplete` asks for at least one byte,
/// and for as many as it asks nothing else can be decided: with fewer
/// added, the rest is still asked for.
pub open spec fn decides_on_prefix<T>(
    before: Result<(T, nat), SocksError>,
    after: Result<(T, nat), SocksError>,
    len: nat,
    added: nat,
) -> bool {
    match before {
        Ok((_, used)) => used <= len && after == before,
        Err(SocksError::Incomplete(missing)) => missing > 0 && (added < missing ==> after == Err::<
            (T, nat),
            SocksError,
        >(SocksError::Incomplete((missing - added) as usize))),
        Err(_) => after == before,
    }
}

/// The address decoder decides on the shortest prefix that can bear the
/// decision, and a decoded address depends on no byte behind it.
pub proof fn lemma_addr_decided_on_prefix(s: Seq<u8>, t: Seq<u8>)
    ensures
        decides_on_prefix(parse_addr(s), parse_addr(s + t), s.len(), t.len()),
        parse_addr(s) is Ok ==> parse_addr(s.take(parse_addr(s)->Ok_0.1 as int)) == parse_addr(s),
{
    let st = s + t;
    if s.len() >= 2 && s[0] == ATYP_DOMAIN {
        let n = s[1] as int;
        if s.len() >= 2 + n {
            assert(st.subrange(2, 2 + n) =~= s.subrange(2, 2 + n));
            if s.len() >= 4 + n {
                assert(s.take(4 + n).subrange(2, 2 + n) =~= s.subrange(2, 2 + n));
            }
        }
    }
    if parse_addr(s) is Ok {
        let used = parse_addr(s)->Ok_0.1 as int;
        let cut = s.take(used);
        if s[0] == ATYP_IPV4 {
            assert(ipv4_at(cut, 1) =~= ipv4_at(s, 1));
            assert(ipv4_at(st, 1) =~= ipv4_at(s, 1));
        } else if s[0] == ATYP_IPV6 {
            assert(ipv6_at(cut, 1) =~= ipv6_at(s, 1));
            assert(ipv6_at(st, 1) =~= ipv6_at(s, 1));
        }
    }
}

/// The greeting decoder decides on the shortest prefix that can bear the
/// decision, and a decoded greeting depends on no byte behind it.
pub proof fn lemma_greeting_decided_on_prefix(s: Seq<u8>, t: Seq<u8>)
    ensures
        decides_on_prefix(parse_greeting(s), parse_greeting(s + t), s.len(), t.len()),
        parse_greeting(s) is Ok ==> parse_greeting(s.take(parse_greeting(s)->Ok_0.1 as int))
            == parse_greeting(s),
{
    let st = s + t;
    if parse_greeting(s) is Ok {
        let n = s[1] as int;
        assert(st.subrange(2, 2 + n) =~= s.subrange(2, 2 + n));
        assert(s.take(2 + n).subrange(2, 2 + n) =~= s.subrange(2, 2 + n));
    }
}

/// The decoders of a method choice and of a login's verdict decide on the
/// shortest prefix that can bear the decision.
pub proof fn lemma_choice_status_decided_on_prefix(s: Seq<u8>, t: Seq<u8>)
    ensures
        decides_on_prefix(parse_choice(s), parse_choice(s + t), s.len(), t.len()),
        decides_on_prefix(parse_status(s), parse_status(s + t), s.len(), t.len()),
        parse_choice(s) is Ok ==> parse_choice(s.take(2)) == parse_choice(s),
        parse_status(s) is Ok ==> parse_status(s.take(2)) == parse_status(s),
{
}

/// The decoder of a user name and password decides on the shortest prefix
/// that can bear the decision, and what it decodes depends on no byte
/// behind it.
pub proof fn lemma_auth_decided_on_prefix(s: Seq<u8>, t: Seq<u8>)
    ensures
        decides_on_prefix(parse_auth(s), parse_auth(s + t), s.len(), t.len()),
        parse_auth(s) is Ok ==> parse_auth(s.take(parse_auth(s)->Ok_0.1 as int)) == parse_auth(s),
{
    let st = s + t;
    if s.len() >= 2 && s[0] == AUTH_VERSION {
        let n = s[1] as int;
        if s.len() >= 2 + n {
            assert(st.subrange(2, 2 + n) =~= s.subrange(2, 2 + n));
            if s.len() >= 3 + n {
                let m = s[2 + n] as int;
                if s.len() >= 3 + n + m {
                    let cut = s.take(3 + n + m);
                    assert(st.subrange(3 + n, 3 + n + m) =~= s.subrange(3 + n, 3 + n + m));
                    assert(cut.subrange(2, 2 + n) =~= s.subrange(2, 2 + n));
                    assert(cut.subrange(3 + n, 3 + n + m) =~= s.subrange(3 + n, 3 + n + m));
                }
            }
        }
    }
}

/// The request decoder decides on the shortest prefix that can bear the
/// decision, and a decoded request depends on no byte behind it.
pub proof fn lemma_request_decided_on_prefix(s: Seq<u8>, t: Seq<u8>)
    ensures
        decides_on_prefix(parse_request(s), parse_request(s + t), s.len(), t.len()),
        parse_request(s) is Ok ==> parse_request(s.take(parse_request(s)->Ok_0.1 as int))
            == parse_request(s),
{
    if s.len() >= 3 {
        lemma_addr_decided_on_prefix(s.skip(3), t);
        assert((s + t).skip(3) =~= s.skip(3) + t);
        if parse_request(s) is Ok {
            let used = parse_addr(s.skip(3))->Ok_0.1 as int;
            assert(s.take(3 + used).skip(3) =~= s.skip(3).take(used));
        }
    }
}

/// The two bytes of the port that two bytes form are those bytes.
pub proof fn lemma_port_bytes_of(hi: u8, lo: u8)
    ensures
        port_bytes(port_of(hi, lo)) == seq![hi, lo],
{
    assert(port_bytes(port_of(hi, lo)) =~= seq![hi, lo]);
}

/// The address decoder takes wire forms only: what it decodes has a wire
/// form, and that is the bytes that were used up.
pub proof fn lemma_addr_decodes_wire_form(s: Seq<u8>)
    requires
        parse_addr(s) is Ok,
    ensures
        parse_addr(s)->Ok_0.0.encodable(),
        parse_addr(s)->Ok_0.0.wire() == s.take(parse_addr(s)->Ok_0.1 as int),
{
    let (a, used) = parse_addr(s)->Ok_0;
    match a {
        AddrModel::Ipv4(addr, port) => {
            lemma_port_bytes_of(s[5], s[6]);
            assert(a.wire() =~= s.take(7));
        },
        AddrModel::Ipv6(addr, port) => {
            lemma_port_bytes_of(s[17], s[18]);
            assert(a.wire() =~= s.take(19));
        },
        AddrModel::Domain(name, port) => {
            let n = s[1] as int;
            vstd::utf8::decode_utf8_encode_utf8(s.subrange(2, 2 + n));
            lemma_port_bytes_of(s[2 + n], s[3 + n]);
            assert(a.wire() =~= s.take(4 + n));
        },
    }
}

/// The greeting decoder takes wire forms only.
pub proof fn lemma_greeting_decodes_wire_form(s: Seq<u8>)
    requires
        parse_greeting(s) is Ok,
    ensures
        parse_greeting(s)->Ok_0.0.encodable(),
        parse_greeting(s)->Ok_0.0.version == SOCKS_VERSION,
        parse_greeting(s)->Ok_0.0.wire() == s.take(parse_greeting(s)->Ok_0.1 as int),
{
    let (g, used) = parse_greeting(s)->Ok_0;
    assert(g.wire() =~= s.take(used as int));
}

/// The decoder of a user name and password takes wire forms only.
pub proof fn lemma_auth_decodes_wire_form(s: Seq<u8>)
    requires
        parse_auth(s) is Ok,
    ensures
        parse_auth(s)->Ok_0.0.encodable(),
        parse_auth(s)->Ok_0.0.wire() == s.take(parse_auth(s)->Ok_0.1 as int),
{
    let (c, used) = parse_auth(s)->Ok_0;
    let n = s[1] as int;
    let m = s[2 + n] as int;
    vstd::utf8::decode_utf8_encode_utf8(s.subrange(2, 2 + n));
    vstd::utf8::decode_utf8_encode_utf8(s.subrange(3 + n, 3 + n + m));
    assert(c.wire() =~= s.take(3 + n + m));
}

/// The request decoder takes wire forms only, but for the reserved byte,
/// which it does not judge.
pub proof fn lemma_request_decodes_wire_form(s: Seq<u8>)
    requires
        parse_request(s) is Ok,
    ensures
        parse_request(s)->Ok_0.0.addr.encodable(),
        parse_request(s)->Ok_0.0.version == SOCKS_VERSION,
        parse_request(s)->Ok_0.0.wire() == s.take(parse_request(s)->Ok_0.1 as int).update(2, 0u8),
{
    let (q, used) = parse_request(s)->Ok_0;
    lemma_addr_decodes_wire_form(s.skip(3));
    let n = parse_addr(s.skip(3))->Ok_0.1 as int;
    lemma_addr_decided_on_prefix(s.skip(3), Seq::empty());
    assert(s.skip(3).take(n) =~= s.take(3 + n).skip(3));
    assert(q.wire() =~= s.take(3 + n).update(2, 0u8));
}

} // verus!

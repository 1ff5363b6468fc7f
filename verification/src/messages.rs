//! The data carried by the handshake messages, and their wire encodings.

use vstd::prelude::*;

use crate::error::Error;
use crate::utf8::is_utf8;
use crate::wire::{be_port, push_bytes};

verus! {

/// An authentication method this server understands.
///
/// On the wire: `0x00` for no authentication, `0x02` for username/password.
/// Every other byte offered by a client names a method the server does not
/// support and is dropped while parsing the hello.
#[derive(Debug, Copy, Clone, PartialEq, Eq, Structural)]
pub enum AuthenticationMethod {
    NoAuthentication,
    UsernamePassword,
}

/// The one request command this server supports, `CONNECT` (`0x01`).
#[derive(Debug, Copy, Clone, PartialEq, Eq, Structural)]
pub enum Command {
    Connect,
}

/// The wire discriminator of a destination address.
#[derive(Debug, Copy, Clone, PartialEq, Eq, Structural)]
pub enum AddressType {
    Ipv4,
    Domain,
    Ipv6,
}

/// The status of a connection request, as reported back to the client.
#[derive(Debug, Copy, Clone, PartialEq, Eq, Structural)]
pub enum ResponseCode {
    Success,
    GeneralFailure,
}

/// The status of an authentication attempt, as reported back to the client.
#[derive(Debug, Copy, Clone, PartialEq, Eq, Structural)]
pub enum AuthStatusCode {
    Success,
    Failure,
}

impl AuthenticationMethod {
    /// The byte that stands for this method on the wire.
    pub open spec fn spec_to_byte(self) -> u8 {
        match self {
            AuthenticationMethod::NoAuthentication => 0,
            AuthenticationMethod::UsernamePassword => 2,
        }
    }

    /// The method a wire byte stands for, if the server supports it.
    pub open spec fn spec_from_byte(b: u8) -> Option<AuthenticationMethod> {
        if b == 0 {
            Some(AuthenticationMethod::NoAuthentication)
        } else if b == 2 {
            Some(AuthenticationMethod::UsernamePassword)
        } else {
            None
        }
    }

    /// Encodes this method as its wire byte.
    pub fn to_byte(self) -> (r: u8)
        ensures
            r == self.spec_to_byte(),
    {
        match self {
            AuthenticationMethod::NoAuthentication => 0,
            AuthenticationMethod::UsernamePassword => 2,
        }
    }

    /// Decodes a wire byte into a supported method.
    pub fn from_byte(b: u8) -> (r: Option<AuthenticationMethod>)
        ensures
            r == AuthenticationMethod::spec_from_byte(b),
    {
        if b == 0 {
            Some(AuthenticationMethod::NoAuthentication)
        } else if b == 2 {
            Some(AuthenticationMethod::UsernamePassword)
        } else {
            None
        }
    }
}

impl Command {
    /// The byte that stands for this command on the wire.
    pub open spec fn spec_to_byte(self) -> u8 {
        1
    }

    /// The command a wire byte stands for, if supported.
    pub open spec fn spec_from_byte(b: u8) -> Option<Command> {
        if b == 1 {
            Some(Command::Connect)
        } else {
            None
        }
    }

    /// Encodes this command as its wire byte.
    pub fn to_byte(self) -> (r: u8)
        ensures
            r == self.spec_to_byte(),
    {
        1
    }

    /// Decodes a wire byte into a supported command.
    pub fn from_byte(b: u8) -> (r: Option<Command>)
        ensures
            r == Command::spec_from_byte(b),
    {
        if b == 1 {
            Some(Command::Connect)
        } else {
            None
        }
    }
}

impl AddressType {
    /// The byte that stands for this address type on the wire.
    pub open spec fn spec_to_byte(self) -> u8 {
        match self {
            AddressType::Ipv4 => 1,
            AddressType::Domain => 3,
            AddressType::Ipv6 => 4,
        }
    }

    /// The address type a wire byte stands for, if any.
    pub open spec fn spec_from_byte(b: u8) -> Option<AddressType> {
        if b == 1 {
            Some(AddressType::Ipv4)
        } else if b == 3 {
            Some(AddressType::Domain)
        } else if b == 4 {
            Some(AddressType::Ipv6)
        } else {
            None
        }
    }

    /// Encodes this address type as its wire byte.
    pub fn to_byte(self) -> (r: u8)
        ensures
            r == self.spec_to_byte(),
    {
        match self {
            AddressType::Ipv4 => 1,
            AddressType::Domain => 3,
            AddressType::Ipv6 => 4,
        }
    }

    /// Decodes a wire byte into an address type.
    pub fn from_byte(b: u8) -> (r: Option<AddressType>)
        ensures
            r == AddressType::spec_from_byte(b),
    {
        if b == 1 {
            Some(AddressType::Ipv4)
        } else if b == 3 {
            Some(AddressType::Domain)
        } else if b == 4 {
            Some(AddressType::Ipv6)
        } else {
            None
        }
    }
}

impl ResponseCode {
    /// The byte that stands for this response code on the wire.
    pub open spec fn spec_to_byte(self) -> u8 {
        match self {
            ResponseCode::Success => 0,
            ResponseCode::GeneralFailure => 1,
        }
    }

    /// The response code a wire byte stands for, if this server emits it.
    pub open spec fn spec_from_byte(b: u8) -> Option<ResponseCode> {
        if b == 0 {
            Some(ResponseCode::Success)
        } else if b == 1 {
            Some(ResponseCode::GeneralFailure)
        } else {
            None
        }
    }

    /// Encodes this response code as its wire byte.
    pub fn to_byte(self) -> (r: u8)
        ensures
            r == self.spec_to_byte(),
    {
        match self {
            ResponseCode::Success => 0,
            ResponseCode::GeneralFailure => 1,
        }
    }

    /// Decodes a wire byte into a response code.
    pub fn from_byte(b: u8) -> (r: Option<ResponseCode>)
        ensures
            r == ResponseCode::spec_from_byte(b),
    {
        if b == 0 {
            Some(ResponseCode::Success)
        } else if b == 1 {
            Some(ResponseCode::GeneralFailure)
        } else {
            None
        }
    }
}

impl AuthStatusCode {
    /// The byte that stands for this status on the wire.
    pub open spec fn spec_to_byte(self) -> u8 {
        match self {
            AuthStatusCode::Success => 0,
            AuthStatusCode::Failure => 1,
        }
    }

    /// The status a wire byte stands for, if defined.
    pub open spec fn spec_from_byte(b: u8) -> Option<AuthStatusCode> {
        if b == 0 {
            Some(AuthStatusCode::Success)
        } else if b == 1 {
            Some(AuthStatusCode::Failure)
        } else {
            None
        }
    }

    /// Encodes this status as its wire byte.
    pub fn to_byte(self) -> (r: u8)
        ensures
            r == self.spec_to_byte(),
    {
        match self {
            AuthStatusCode::Success => 0,
            AuthStatusCode::Failure => 1,
        }
    }

    /// Decodes a wire byte into an authentication status.
    pub fn from_byte(b: u8) -> (r: Option<AuthStatusCode>)
        ensures
            r == AuthStatusCode::spec_from_byte(b),
    {
        if b == 0 {
            Some(AuthStatusCode::Success)
        } else if b == 1 {
            Some(AuthStatusCode::Failure)
        } else {
            None
        }
    }
}

/// A destination address as it appears in a client request, or the bind
/// address of a reply. The payload is the exact wire form: four octets for
/// IPv4, sixteen for IPv6, and for a domain the name's UTF-8 bytes.
#[derive(Debug, PartialEq, Eq)]
pub enum Address {
    Ipv4(Vec<u8>),
    Domain(Vec<u8>),
    Ipv6(Vec<u8>),
}

/// The mathematical content of an `Address`.
pub ghost enum AddressV {
    Ipv4(Seq<u8>),
    Domain(Seq<u8>),
    Ipv6(Seq<u8>),
}

impl View for Address {
    type V = AddressV;

    open spec fn view(&self) -> AddressV {
        match self {
            Address::Ipv4(o) => AddressV::Ipv4(o@),
            Address::Domain(d) => AddressV::Domain(d@),
            Address::Ipv6(o) => AddressV::Ipv6(o@),
        }
    }
}

impl AddressV {
    /// Validity: the payload has the length its kind demands, and a domain
    /// name is one to 255 bytes of well-formed UTF-8.
    pub open spec fn wf(self) -> bool {
        match self {
            AddressV::Ipv4(o) => o.len() == 4,
            AddressV::Domain(d) => 1 <= d.len() <= 255 && is_utf8(d),
            AddressV::Ipv6(o) => o.len() == 16,
        }
    }

    /// The wire encoding of this address: its type byte, then for a domain a
    /// length byte and the name, else the raw octets.
    pub open spec fn encoded(self) -> Seq<u8> {
        match self {
            AddressV::Ipv4(o) => seq![AddressType::Ipv4.spec_to_byte()] + o,
            AddressV::Domain(d) => seq![AddressType::Domain.spec_to_byte(), d.len() as u8] + d,
            AddressV::Ipv6(o) => seq![AddressType::Ipv6.spec_to_byte()] + o,
        }
    }
}

impl Address {
    /// Appends the wire encoding of this address to `out`.
    pub fn encode_onto(&self, out: &mut Vec<u8>)
        requires
            self@.wf(),
        ensures
            final(out)@ == old(out)@ + self@.encoded(),
    {
        match self {
            Address::Ipv4(o) => {
                out.push(AddressType::Ipv4.to_byte());
                push_bytes(out, o.as_slice());
                proof {
                    assert(out@ =~= old(out)@ + self@.encoded());
                }
            },
            Address::Domain(d) => {
                out.push(AddressType::Domain.to_byte());
                out.push(d.len() as u8);
                push_bytes(out, d.as_slice());
                proof {
                    assert(out@ =~= old(out)@ + self@.encoded());
                }
            },
            Address::Ipv6(o) => {
                out.push(AddressType::Ipv6.to_byte());
                push_bytes(out, o.as_slice());
                proof {
                    assert(out@ =~= old(out)@ + self@.encoded());
                }
            },
        }
    }
}

// Messages

/// The client's opening message: its protocol version and the
/// authentication methods it offers.
#[derive(Debug, PartialEq, Eq)]
pub struct HelloRequest {
    pub version: u8,
    pub methods: Vec<AuthenticationMethod>,
}

/// The mathematical content of a `HelloRequest`.
pub ghost struct HelloRequestV {
    pub version: u8,
    pub methods: Seq<AuthenticationMethod>,
}

impl View for HelloRequest {
    type V = HelloRequestV;

    open spec fn view(&self) -> HelloRequestV {
        HelloRequestV { version: self.version, methods: self.methods@ }
    }
}

impl HelloRequestV {
    /// Validity: at least one method, and few enough for the count byte.
    pub open spec fn wf(self) -> bool {
        1 <= self.methods.len() <= 255
    }

    /// The wire encoding: version, method count, then one byte per method.
    pub open spec fn encoded(self) -> Seq<u8> {
        seq![self.version, self.methods.len() as u8] + self.methods.map_values(
            |m: AuthenticationMethod| m.spec_to_byte(),
        )
    }
}

impl HelloRequest {
    /// Serializes this message into its wire bytes.
    pub fn to_bytes(&self) -> (r: Vec<u8>)
        requires
            self@.wf(),
        ensures
            r@ == self@.encoded(),
    {
        let mut out: Vec<u8> = Vec::new();
        out.push(self.version);
        out.push(self.methods.len() as u8);
        let mut i: usize = 0;
        while i < self.methods.len()
            invariant
                i <= self.methods@.len(),
                self.methods@.len() <= 255,
                out@ == seq![self.version, self.methods@.len() as u8] + self.methods@.subrange(
                    0,
                    i as int,
                ).map_values(|m: AuthenticationMethod| m.spec_to_byte()),
            decreases self.methods@.len() - i,
        {
            out.push(self.methods[i].to_byte());
            proof {
                assert(self.methods@.subrange(0, i + 1).drop_last() =~= self.methods@.subrange(
                    0,
                    i as int,
                ));
            }
            i = i + 1;
        }
        proof {
            assert(self.methods@.subrange(0, self.methods@.len() as int) =~= self.methods@);
            assert(out@ =~= self@.encoded());
        }
        out
    }
}

/// The server's answer to a hello: the selected authentication method.
#[derive(Debug, PartialEq, Eq, Structural)]
pub struct HelloResponse {
    pub version: u8,
    pub method: AuthenticationMethod,
}

/// The mathematical content of a `HelloResponse`.
pub ghost struct HelloResponseV {
    pub version: u8,
    pub method: AuthenticationMethod,
}

impl View for HelloResponse {
    type V = HelloResponseV;

    open spec fn view(&self) -> HelloResponseV {
        HelloResponseV { version: self.version, method: self.method }
    }
}

impl HelloResponseV {
    /// The wire encoding: version byte, then the method byte.
    pub open spec fn encoded(self) -> Seq<u8> {
        seq![self.version, self.method.spec_to_byte()]
    }
}

impl HelloResponse {
    /// A hello reply with the given version and method.
    pub fn new(version: u8, method: AuthenticationMethod) -> (r: Self)
        ensures
            r@ == (HelloResponseV { version, method }),
    {
        HelloResponse { version, method }
    }

    /// Serializes this reply into its two wire bytes.
    pub fn to_bytes(&self) -> (r: Vec<u8>)
        ensures
            r@ == self@.encoded(),
    {
        let mut out: Vec<u8> = Vec::new();
        out.push(self.version);
        out.push(self.method.to_byte());
        proof {
            assert(out@ =~= self@.encoded());
        }
        out
    }
}

/// The client's username/password submission.
#[derive(Debug, PartialEq, Eq)]
pub struct AuthRequest {
    pub version: u8,
    pub username: Vec<u8>,
    pub password: Vec<u8>,
}

/// The mathematical content of an `AuthRequest`.
pub ghost struct AuthRequestV {
    pub version: u8,
    pub username: Seq<u8>,
    pub password: Seq<u8>,
}

impl View for AuthRequest {
    type V = AuthRequestV;

    open spec fn view(&self) -> AuthRequestV {
        AuthRequestV { version: self.version, username: self.username@, password: self.password@ }
    }
}

impl AuthRequestV {
    /// Validity: the sub-negotiation version, and strings of one to 255
    /// bytes of well-formed UTF-8.
    pub open spec fn wf(self) -> bool {
        &&& self.version == crate::AUTH_VERSION
        &&& 1 <= self.username.len() <= 255
        &&& is_utf8(self.username)
        &&& 1 <= self.password.len() <= 255
        &&& is_utf8(self.password)
    }

    /// The wire encoding: version, then each string length-prefixed.
    pub open spec fn encoded(self) -> Seq<u8> {
        seq![self.version, self.username.len() as u8] + self.username + seq![
            self.password.len() as u8,
        ] + self.password
    }
}

impl AuthRequest {
    /// Serializes this request into its wire bytes.
    pub fn to_bytes(&self) -> (r: Vec<u8>)
        requires
            self@.wf(),
        ensures
            r@ == self@.encoded(),
    {
        let mut out: Vec<u8> = Vec::new();
        out.push(self.version);
        out.push(self.username.len() as u8);
        push_bytes(&mut out, self.username.as_slice());
        out.push(self.password.len() as u8);
        push_bytes(&mut out, self.password.as_slice());
        proof {
            assert(out@ =~= self@.encoded());
        }
        out
    }
}

/// The server's answer to an authentication attempt.
#[derive(Debug, PartialEq, Eq, Structural)]
pub struct AuthResponse {
    pub version: u8,
    pub status: AuthStatusCode,
}

/// The mathematical content of an `AuthResponse`.
pub ghost struct AuthResponseV {
    pub version: u8,
    pub status: AuthStatusCode,
}

impl View for AuthResponse {
    type V = AuthResponseV;

    open spec fn view(&self) -> AuthResponseV {
        AuthResponseV { version: self.version, status: self.status }
    }
}

impl AuthResponseV {
    /// The wire encoding: version byte, then the status byte.
    pub open spec fn encoded(self) -> Seq<u8> {
        seq![self.version, self.status.spec_to_byte()]
    }
}

impl AuthResponse {
    /// An authentication reply with the given version and status.
    pub fn new(version: u8, status: AuthStatusCode) -> (r: Self)
        ensures
            r@ == (AuthResponseV { version, status }),
    {
        AuthResponse { version, status }
    }

    /// Serializes this reply into its two wire bytes.
    pub fn to_bytes(&self) -> (r: Vec<u8>)
        ensures
            r@ == self@.encoded(),
    {
        let mut out: Vec<u8> = Vec::new();
        out.push(self.version);
        out.push(self.status.to_byte());
        proof {
            assert(out@ =~= self@.encoded());
        }
        out
    }
}

/// The client's connection request: a command and a destination.
#[derive(Debug, PartialEq, Eq)]
pub struct ClientRequest {
    pub version: u8,
    pub command: Command,
    pub address: Address,
    pub port: u16,
}

/// The mathematical content of a `ClientRequest`.
pub ghost struct ClientRequestV {
    pub version: u8,
    pub command: Command,
    pub address: AddressV,
    pub port: u16,
}

impl View for ClientRequest {
    type V = ClientRequestV;

    open spec fn view(&self) -> ClientRequestV {
        ClientRequestV {
            version: self.version,
            command: self.command,
            address: self.address@,
            port: self.port,
        }
    }
}

impl ClientRequestV {
    /// Validity: the destination address is well-formed.
    pub open spec fn wf(self) -> bool {
        self.address.wf()
    }

    /// The wire encoding: version, command, a zero reserved byte, the
    /// address, then the big-endian port.
    pub open spec fn encoded(self) -> Seq<u8> {
        seq![self.version, self.command.spec_to_byte(), 0u8] + self.address.encoded() + be_port(
            self.port,
        )
    }
}

impl ClientRequest {
    /// Serializes this request into its wire bytes (with a zero reserved
    /// byte).
    pub fn to_bytes(&self) -> (r: Vec<u8>)
        requires
            self@.wf(),
        ensures
            r@ == self@.encoded(),
    {
        let mut out: Vec<u8> = Vec::new();
        out.push(self.version);
        out.push(self.command.to_byte());
        out.push(0);
        self.address.encode_onto(&mut out);
        out.push((self.port / 256) as u8);
        out.push((self.port % 256) as u8);
        proof {
            assert(out@ =~= self@.encoded());
        }
        out
    }
}

/// The server's answer to a connection request: a status and the bind
/// address it reports to the client.
#[derive(Debug, PartialEq, Eq)]
pub struct RequestResponse {
    pub version: u8,
    pub response_code: ResponseCode,
    pub bind_address: Address,
    pub port: u16,
}

/// The mathematical content of a `RequestResponse`.
pub ghost struct RequestResponseV {
    pub version: u8,
    pub response_code: ResponseCode,
    pub bind_address: AddressV,
    pub port: u16,
}

impl View for RequestResponse {
    type V = RequestResponseV;

    open spec fn view(&self) -> RequestResponseV {
        RequestResponseV {
            version: self.version,
            response_code: self.response_code,
            bind_address: self.bind_address@,
            port: self.port,
        }
    }
}

impl RequestResponseV {
    /// Validity: a well-formed bind address that is not a domain — this
    /// server only ever reports an IP address back to the client.
    pub open spec fn wf(self) -> bool {
        self.bind_address.wf() && !(self.bind_address is Domain)
    }

    /// The wire encoding: version, response code, a zero reserved byte, the
    /// bind address, then the big-endian port.
    pub open spec fn encoded(self) -> Seq<u8> {
        seq![self.version, self.response_code.spec_to_byte(), 0u8] + self.bind_address.encoded()
            + be_port(self.port)
    }
}

impl RequestResponse {
    /// A connection reply with the given fields.
    pub fn new(version: u8, response_code: ResponseCode, bind_address: Address, port: u16) -> (r:
        Self)
        ensures
            r@ == (RequestResponseV {
                version,
                response_code,
                bind_address: bind_address@,
                port,
            }),
    {
        RequestResponse { version, response_code, bind_address, port }
    }

    /// Serializes this reply into its wire bytes. A domain bind address is
    /// never sent by this server and is refused as an internal error.
    pub fn to_bytes(&self) -> (r: Result<Vec<u8>, Error>)
        ensures
            r is Err <==> self@.bind_address is Domain,
            r matches Ok(bytes) ==> bytes@ == self@.encoded(),
            r matches Err(e) ==> e is Generic,
    {
        let mut out: Vec<u8> = Vec::new();
        out.push(self.version);
        out.push(self.response_code.to_byte());
        out.push(0);
        match &self.bind_address {
            Address::Ipv4(o) => {
                out.push(AddressType::Ipv4.to_byte());
                push_bytes(&mut out, o.as_slice());
            },
            Address::Ipv6(o) => {
                out.push(AddressType::Ipv6.to_byte());
                push_bytes(&mut out, o.as_slice());
            },
            Address::Domain(_) => {
                return Err(Error::Generic("domain used for bind address"));
            },
        }
        out.push((self.port / 256) as u8);
        out.push((self.port % 256) as u8);
        proof {
            assert(out@ =~= self@.encoded());
        }
        Ok(out)
    }
}

} // verus!

//! The wire codec: parsing the handshake messages out of byte buffers.
//!
//! Each parser consumes a prefix of its input and reports how many bytes it
//! used, so a driver can feed it a growing buffer: `Io` means the buffer does
//! not yet hold a complete message, `MalformedMessage` that the bytes already
//! present violate the grammar. The spec-level parsers below are the
//! reference against which both the executable parsers and the serializers
//! in `messages` are held.

use vstd::prelude::*;

use crate::error::Error;
use crate::messages::{
    Address, AddressType, AddressV, AuthRequest, AuthRequestV, AuthResponse, AuthResponseV,
    AuthStatusCode, AuthenticationMethod, ClientRequest, ClientRequestV, Command, HelloRequest,
    HelloRequestV, HelloResponse, HelloResponseV, RequestResponse, RequestResponseV, ResponseCode,
};
use crate::utf8::{is_utf8, validate_utf8};
use crate::wire::{copy_range, port_from, read_port};

verus! {

/// What a parser finds in a byte buffer: a complete message and the number
/// of bytes it occupies, a protocol violation, or too few bytes to decide.
pub ghost enum Parsed<T> {
    Found(T, int),
    Malformed,
    Incomplete,
}

/// The methods a client offered, keeping wire order and dropping any byte
/// that names a method this server does not know.
pub open spec fn known_methods(s: Seq<u8>) -> Seq<AuthenticationMethod>
    decreases s.len(),
{
    if s.len() == 0 {
        Seq::empty()
    } else {
        let rest = known_methods(s.drop_last());
        match AuthenticationMethod::spec_from_byte(s.last()) {
            Some(m) => rest.push(m),
            None => rest,
        }
    }
}

/// The hello message at the front of `s`: version, method count (which must
/// not be zero), then one byte per offered method.
pub open spec fn spec_parse_hello_request(s: Seq<u8>) -> Parsed<HelloRequestV> {
    if s.len() < 2 {
        Parsed::Incomplete
    } else {
        let count = s[1] as int;
        if count == 0 {
            Parsed::Malformed
        } else if s.len() < 2 + count {
            Parsed::Incomplete
        } else {
            Parsed::Found(
                HelloRequestV { version: s[0], methods: known_methods(s.subrange(2, 2 + count)) },
                2 + count,
            )
        }
    }
}

/// The authentication message at the front of `s`: the version byte (which
/// must be 1), then username and password, each a length byte in 1..=255
/// followed by that many bytes of well-formed UTF-8.
pub open spec fn spec_parse_auth_request(s: Seq<u8>) -> Parsed<AuthRequestV> {
    if s.len() < 1 {
        Parsed::Incomplete
    } else if s[0] != crate::AUTH_VERSION {
        Parsed::Malformed
    } else if s.len() < 2 {
        Parsed::Incomplete
    } else {
        let ulen = s[1] as int;
        if ulen == 0 {
            Parsed::Malformed
        } else if s.len() < 2 + ulen {
            Parsed::Incomplete
        } else {
            let username = s.subrange(2, 2 + ulen);
            if !is_utf8(username) {
                Parsed::Malformed
            } else if s.len() < 3 + ulen {
                Parsed::Incomplete
            } else {
                let plen = s[2 + ulen] as int;
                if plen == 0 {
                    Parsed::Malformed
                } else if s.len() < 3 + ulen + plen {
                    Parsed::Incomplete
                } else {
                    let password = s.subrange(3 + ulen, 3 + ulen + plen);
                    if !is_utf8(password) {
                        Parsed::Malformed
                    } else {
                        Parsed::Found(
                            AuthRequestV { version: crate::AUTH_VERSION, username, password },
                            3 + ulen + plen,
                        )
                    }
                }
            }
        }
    }
}

/// The connection request at the front of `s`: version, command (only
/// CONNECT is known), a reserved byte that is read and ignored, the address
/// type, the address, then the big-endian port.
pub open spec fn spec_parse_client_request(s: Seq<u8>) -> Parsed<ClientRequestV> {
    if s.len() < 2 {
        Parsed::Incomplete
    } else if Command::spec_from_byte(s[1]) is None {
        Parsed::Malformed
    } else if s.len() < 4 {
        Parsed::Incomplete
    } else if AddressType::spec_from_byte(s[3]) is None {
        Parsed::Malformed
    } else if s[3] == AddressType::Ipv4.spec_to_byte() {
        if s.len() < 10 {
            Parsed::Incomplete
        } else {
            Parsed::Found(
                ClientRequestV {
                    version: s[0],
                    command: Command::Connect,
                    address: AddressV::Ipv4(s.subrange(4, 8)),
                    port: port_from(s[8], s[9]),
                },
                10,
            )
        }
    } else if s[3] == AddressType::Ipv6.spec_to_byte() {
        if s.len() < 22 {
            Parsed::Incomplete
        } else {
            Parsed::Found(
                ClientRequestV {
                    version: s[0],
                    command: Command::Connect,
                    address: AddressV::Ipv6(s.subrange(4, 20)),
                    port: port_from(s[20], s[21]),
                },
                22,
            )
        }
    } else {
        if s.len() < 5 {
            Parsed::Incomplete
        } else {
            let dlen = s[4] as int;
            if dlen == 0 {
                Parsed::Malformed
            } else if s.len() < 5 + dlen {
                Parsed::Incomplete
            } else {
                let domain = s.subrange(5, 5 + dlen);
                if !is_utf8(domain) {
                    Parsed::Malformed
                } else if s.len() < 7 + dlen {
                    Parsed::Incomplete
                } else {
                    Parsed::Found(
                        ClientRequestV {
                            version: s[0],
                            command: Command::Connect,
                            address: AddressV::Domain(domain),
                            port: port_from(s[5 + dlen], s[6 + dlen]),
                        },
                        7 + dlen,
                    )
                }
            }
        }
    }
}

/// Parses a hello message. Unknown offered methods are dropped; a method
/// count of zero is a protocol violation.
pub fn parse_hello_request(input: &[u8]) -> (r: Result<(HelloRequest, usize), Error>)
    ensures
        (match spec_parse_hello_request(input@) {
            Parsed::Found(v, n) => r matches Ok((m, c)) && m@ == v && c == n,
            Parsed::Malformed => r matches Err(e) && e is MalformedMessage,
            Parsed::Incomplete => r matches Err(e) && e is Io,
        }),
{
    if input.len() < 2 {
        return Err(Error::Io("unexpected end of stream"));
    }
    let version = input[0];
    let count = input[1] as usize;
    if count == 0 {
        return Err(Error::MalformedMessage("no methods provided"));
    }
    if input.len() < 2 + count {
        return Err(Error::Io("unexpected end of stream"));
    }
    let mut methods: Vec<AuthenticationMethod> = Vec::new();
    let mut i: usize = 0;
    while i < count
        invariant
            i <= count,
            count == input@[1] as int,
            2 + count <= input@.len(),
            methods@ == known_methods(input@.subrange(2, 2 + i as int)),
        decreases count - i,
    {
        match AuthenticationMethod::from_byte(input[2 + i]) {
            Some(m) => methods.push(m),
            None => (),
        }
        proof {
            let whole = input@.subrange(2, 2 + (i + 1) as int);
            assert(whole.drop_last() =~= input@.subrange(2, 2 + i as int));
            assert(whole.last() == input@[2 + i]);
        }
        i = i + 1;
    }
    Ok((HelloRequest { version, methods }, 2 + count))
}

/// Parses an authentication message. Rejects a version other than 1, an
/// empty username or password, and bytes that are not well-formed UTF-8.
pub fn parse_auth_request(input: &[u8]) -> (r: Result<(AuthRequest, usize), Error>)
    ensures
        (match spec_parse_auth_request(input@) {
            Parsed::Found(v, n) => r matches Ok((m, c)) && m@ == v && c == n && v.wf(),
            Parsed::Malformed => r matches Err(e) && e is MalformedMessage,
            Parsed::Incomplete => r matches Err(e) && e is Io,
        }),
{
    if input.len() < 1 {
        return Err(Error::Io("unexpected end of stream"));
    }
    if input[0] != crate::AUTH_VERSION {
        return Err(Error::MalformedMessage("unsupported auth version"));
    }
    if input.len() < 2 {
        return Err(Error::Io("unexpected end of stream"));
    }
    let ulen = input[1] as usize;
    if ulen == 0 {
        return Err(Error::MalformedMessage("empty string in stream"));
    }
    if input.len() < 2 + ulen {
        return Err(Error::Io("unexpected end of stream"));
    }
    let username = copy_range(input, 2, 2 + ulen);
    if !validate_utf8(username.as_slice()) {
        return Err(Error::MalformedMessage("invalid string in stream"));
    }
    if input.len() < 3 + ulen {
        return Err(Error::Io("unexpected end of stream"));
    }
    let plen = input[2 + ulen] as usize;
    if plen == 0 {
        return Err(Error::MalformedMessage("empty string in stream"));
    }
    if input.len() < 3 + ulen + plen {
        return Err(Error::Io("unexpected end of stream"));
    }
    let password = copy_range(input, 3 + ulen, 3 + ulen + plen);
    if !validate_utf8(password.as_slice()) {
        return Err(Error::MalformedMessage("invalid string in stream"));
    }
    Ok((AuthRequest { version: crate::AUTH_VERSION, username, password }, 3 + ulen + plen))
}

/// Parses a connection request. Rejects an unknown command or address type,
/// an empty domain, and a domain that is not well-formed UTF-8; the reserved
/// byte is read and ignored.
pub fn parse_client_request(input: &[u8]) -> (r: Result<(ClientRequest, usize), Error>)
    ensures
        (match spec_parse_client_request(input@) {
            Parsed::Found(v, n) => r matches Ok((m, c)) && m@ == v && c == n && v.wf(),
            Parsed::Malformed => r matches Err(e) && e is MalformedMessage,
            Parsed::Incomplete => r matches Err(e) && e is Io,
        }),
{
    if input.len() < 2 {
        return Err(Error::Io("unexpected end of stream"));
    }
    let version = input[0];
    let command = match Command::from_byte(input[1]) {
        Some(c) => c,
        None => {
            return Err(Error::MalformedMessage("unsupported command"));
        },
    };
    if input.len() < 4 {
        return Err(Error::Io("unexpected end of stream"));
    }
    let address_type = match AddressType::from_byte(input[3]) {
        Some(t) => t,
        None => {
            return Err(Error::MalformedMessage("invalid address type"));
        },
    };
    match address_type {
        AddressType::Ipv4 => {
            if input.len() < 10 {
                return Err(Error::Io("unexpected end of stream"));
            }
            let octets = copy_range(input, 4, 8);
            let port = read_port(input[8], input[9]);
            Ok((ClientRequest { version, command, address: Address::Ipv4(octets), port }, 10))
        },
        AddressType::Ipv6 => {
            if input.len() < 22 {
                return Err(Error::Io("unexpected end of stream"));
            }
            let octets = copy_range(input, 4, 20);
            let port = read_port(input[20], input[21]);
            Ok((ClientRequest { version, command, address: Address::Ipv6(octets), port }, 22))
        },
        AddressType::Domain => {
            if input.len() < 5 {
                return Err(Error::Io("unexpected end of stream"));
            }
            let dlen = input[4] as usize;
            if dlen == 0 {
                return Err(Error::MalformedMessage("empty string in stream"));
            }
            if input.len() < 5 + dlen {
                return Err(Error::Io("unexpected end of stream"));
            }
            let domain = copy_range(input, 5, 5 + dlen);
            if !validate_utf8(domain.as_slice()) {
                return Err(Error::MalformedMessage("invalid string in stream"));
            }
            if input.len() < 7 + dlen {
                return Err(Error::Io("unexpected end of stream"));
            }
            let port = read_port(input[5 + dlen], input[6 + dlen]);
            Ok((ClientRequest { version, command, address: Address::Domain(domain), port }, 7 + dlen))
        },
    }
}

/// The hello reply at the front of `s`: version, then the selected method,
/// which must be one the codec knows.
pub open spec fn spec_parse_hello_response(s: Seq<u8>) -> Parsed<HelloResponseV> {
    if s.len() < 2 {
        Parsed::Incomplete
    } else {
        match AuthenticationMethod::spec_from_byte(s[1]) {
            Some(m) => Parsed::Found(HelloResponseV { version: s[0], method: m }, 2),
            None => Parsed::Malformed,
        }
    }
}

/// The authentication reply at the front of `s`: version, then the status.
pub open spec fn spec_parse_auth_response(s: Seq<u8>) -> Parsed<AuthResponseV> {
    if s.len() < 2 {
        Parsed::Incomplete
    } else {
        match AuthStatusCode::spec_from_byte(s[1]) {
            Some(c) => Parsed::Found(AuthResponseV { version: s[0], status: c }, 2),
            None => Parsed::Malformed,
        }
    }
}

/// The connection reply at the front of `s`: version, response code, a
/// reserved byte that is ignored, then an IPv4 or IPv6 bind address and the
/// port. A domain bind address is never emitted by this server, so the
/// reference parser rejects it.
pub open spec fn spec_parse_request_response(s: Seq<u8>) -> Parsed<RequestResponseV> {
    if s.len() < 2 {
        Parsed::Incomplete
    } else if ResponseCode::spec_from_byte(s[1]) is None {
        Parsed::Malformed
    } else if s.len() < 4 {
        Parsed::Incomplete
    } else {
        let code = ResponseCode::spec_from_byte(s[1]).unwrap();
        if s[3] == AddressType::Ipv4.spec_to_byte() {
            if s.len() < 10 {
                Parsed::Incomplete
            } else {
                Parsed::Found(
                    RequestResponseV {
                        version: s[0],
                        response_code: code,
                        bind_address: AddressV::Ipv4(s.subrange(4, 8)),
                        port: port_from(s[8], s[9]),
                    },
                    10,
                )
            }
        } else if s[3] == AddressType::Ipv6.spec_to_byte() {
            if s.len() < 22 {
                Parsed::Incomplete
            } else {
                Parsed::Found(
                    RequestResponseV {
                        version: s[0],
                        response_code: code,
                        bind_address: AddressV::Ipv6(s.subrange(4, 20)),
                        port: port_from(s[20], s[21]),
                    },
                    22,
                )
            }
        } else {
            Parsed::Malformed
        }
    }
}

/// Parses a hello reply.
pub fn parse_hello_response(input: &[u8]) -> (r: Result<(HelloResponse, usize), Error>)
    ensures
        (match spec_parse_hello_response(input@) {
            Parsed::Found(v, n) => r matches Ok((m, c)) && m@ == v && c == n,
            Parsed::Malformed => r matches Err(e) && e is MalformedMessage,
            Parsed::Incomplete => r matches Err(e) && e is Io,
        }),
{
    if input.len() < 2 {
        return Err(Error::Io("unexpected end of stream"));
    }
    match AuthenticationMethod::from_byte(input[1]) {
        Some(method) => Ok((HelloResponse { version: input[0], method }, 2)),
        None => Err(Error::MalformedMessage("unsupported method")),
    }
}

/// Parses an authentication reply.
pub fn parse_auth_response(input: &[u8]) -> (r: Result<(AuthResponse, usize), Error>)
    ensures
        (match spec_parse_auth_response(input@) {
            Parsed::Found(v, n) => r matches Ok((m, c)) && m@ == v && c == n,
            Parsed::Malformed => r matches Err(e) && e is MalformedMessage,
            Parsed::Incomplete => r matches Err(e) && e is Io,
        }),
{
    if input.len() < 2 {
        return Err(Error::Io("unexpected end of stream"));
    }
    match AuthStatusCode::from_byte(input[1]) {
        Some(status) => Ok((AuthResponse { version: input[0], status }, 2)),
        None => Err(Error::MalformedMessage("invalid auth status")),
    }
}

/// Parses a connection reply.
pub fn parse_request_response(input: &[u8]) -> (r: Result<(RequestResponse, usize), Error>)
    ensures
        (match spec_parse_request_response(input@) {
            Parsed::Found(v, n) => r matches Ok((m, c)) && m@ == v && c == n,
            Parsed::Malformed => r matches Err(e) && e is MalformedMessage,
            Parsed::Incomplete => r matches Err(e) && e is Io,
        }),
{
    if input.len() < 2 {
        return Err(Error::Io("unexpected end of stream"));
    }
    let version = input[0];
    let response_code = match ResponseCode::from_byte(input[1]) {
        Some(c) => c,
        None => {
            return Err(Error::MalformedMessage("invalid response code"));
        },
    };
    if input.len() < 4 {
        return Err(Error::Io("unexpected end of stream"));
    }
    if input[3] == 1 {
        if input.len() < 10 {
            return Err(Error::Io("unexpected end of stream"));
        }
        let octets = copy_range(input, 4, 8);
        let port = read_port(input[8], input[9]);
        Ok((
            RequestResponse { version, response_code, bind_address: Address::Ipv4(octets), port },
            10,
        ))
    } else if input[3] == 4 {
        if input.len() < 22 {
            return Err(Error::Io("unexpected end of stream"));
        }
        let octets = copy_range(input, 4, 20);
        let port = read_port(input[20], input[21]);
        Ok((
            RequestResponse { version, response_code, bind_address: Address::Ipv6(octets), port },
            22,
        ))
    } else {
        Err(Error::MalformedMessage("invalid address type"))
    }
}

// Round-trip laws: serializing a reply and parsing it back yields the
// original value, and parsing a well-formed request and serializing the
// result yields the original bytes.

/// At most one method comes out of `known_methods` per input byte.
proof fn lemma_known_methods_len(s: Seq<u8>)
    ensures
        known_methods(s).len() <= s.len(),
    decreases s.len(),
{
    if s.len() > 0 {
        lemma_known_methods_len(s.drop_last());
    }
}

/// When no offered byte was dropped, the methods re-encode to the very
/// bytes they were parsed from.
proof fn lemma_known_methods_all_known(s: Seq<u8>)
    requires
        known_methods(s).len() == s.len(),
    ensures
        forall|j: int|
            0 <= j < s.len() ==> (#[trigger] known_methods(s)[j]).spec_to_byte() == s[j],
    decreases s.len(),
{
    if s.len() > 0 {
        let rest = known_methods(s.drop_last());
        lemma_known_methods_len(s.drop_last());
        match AuthenticationMethod::spec_from_byte(s.last()) {
            Some(m) => {
                lemma_known_methods_all_known(s.drop_last());
                assert(forall|j: int|
                    0 <= j < s.len() - 1 ==> known_methods(s)[j] == rest[j]);
            },
            None => {
                assert(false);
            },
        }
    }
}

/// Law: parsing a hello message in which every offered method is known, and
/// serializing the result, yields exactly the bytes consumed.
pub proof fn lemma_hello_request_round_trip(s: Seq<u8>, v: HelloRequestV, n: int)
    requires
        spec_parse_hello_request(s) == Parsed::Found(v, n),
        v.methods.len() == s[1] as int,
    ensures
        v.encoded() == s.subrange(0, n),
{
    let count = s[1] as int;
    let raw = s.subrange(2, 2 + count);
    assert(v.methods == known_methods(raw));
    lemma_known_methods_all_known(raw);
    assert(v.encoded() =~= s.subrange(0, n));
}

/// Law: parsing an authentication message and serializing the result yields
/// exactly the bytes consumed.
pub proof fn lemma_auth_request_round_trip(s: Seq<u8>, v: AuthRequestV, n: int)
    requires
        spec_parse_auth_request(s) == Parsed::Found(v, n),
    ensures
        v.encoded() == s.subrange(0, n),
{
    assert(v.encoded() =~= s.subrange(0, n));
}

/// Law: parsing a connection request whose reserved byte is zero and
/// serializing the result yields exactly the bytes consumed.
pub proof fn lemma_client_request_round_trip(s: Seq<u8>, v: ClientRequestV, n: int)
    requires
        spec_parse_client_request(s) == Parsed::Found(v, n),
        s[2] == 0,
    ensures
        v.encoded() == s.subrange(0, n),
{
    crate::wire::lemma_be_port_round_trip(v.port);
    assert(v.encoded() =~= s.subrange(0, n));
}

/// Law: serializing a hello reply and parsing it back yields the original
/// value, consuming its two bytes.
pub proof fn lemma_hello_response_round_trip(m: HelloResponseV)
    ensures
        spec_parse_hello_response(m.encoded()) == Parsed::Found(m, 2),
{
}

/// Law: serializing an authentication reply and parsing it back yields the
/// original value, consuming its two bytes.
pub proof fn lemma_auth_response_round_trip(m: AuthResponseV)
    ensures
        spec_parse_auth_response(m.encoded()) == Parsed::Found(m, 2),
{
}

/// Law: serializing a well-formed connection reply and parsing it back
/// yields the original value, consuming the whole encoding.
pub proof fn lemma_request_response_round_trip(m: RequestResponseV)
    requires
        m.wf(),
    ensures
        spec_parse_request_response(m.encoded()) == Parsed::Found(
            m,
            m.encoded().len() as int,
        ),
{
    let s = m.encoded();
    crate::wire::lemma_be_port_round_trip(m.port);
    match m.bind_address {
        AddressV::Ipv4(o) => {
            assert(s.len() == 10);
            assert(s.subrange(4, 8) =~= o);
        },
        AddressV::Ipv6(o) => {
            assert(s.len() == 22);
            assert(s.subrange(4, 20) =~= o);
        },
        AddressV::Domain(_) => {
            assert(false);
        },
    }
}

} // verus!

//! The per-connection state machine.
//!
//! One `process` step takes the current state and the bytes received so far,
//! and decides everything that does not need a socket: which message the
//! bytes hold, what to reply, and which state comes next. The surrounding
//! application performs the returned action — writing the reply, opening the
//! outbound connection, running the relay — and calls back in with the next
//! event. `Io` from a parse means the buffer does not yet hold a complete
//! message and more bytes must be read.

use vstd::prelude::*;

use crate::codec::{
    parse_auth_request, parse_client_request, parse_hello_request, spec_parse_auth_request,
    spec_parse_client_request, spec_parse_hello_request, Parsed,
};
use crate::context::{credentials_accepted, selected_method, Context, CredentialsV};
use crate::error::Error;
use crate::messages::{
    Address, AuthResponse, AuthStatusCode, AuthenticationMethod, HelloResponse,
    RequestResponse, ResponseCode,
};

verus! {

/// Where a connection stands in its life cycle. The streams themselves stay
/// with the driver; `Proxying` means both the client and the outbound stream
/// exist and bytes are being relayed.
#[derive(Debug, Copy, Clone, PartialEq, Eq, Structural)]
pub enum State {
    AwaitingHello,
    AwaitingAuth,
    AwaitingClientRequest,
    Proxying,
    Finished,
}

/// What the driver must do after a successful `process` step.
#[derive(Debug, PartialEq, Eq)]
pub enum Action {
    /// Write `reply` to the client, then continue in state `next`.
    Reply { reply: Vec<u8>, next: State },
    /// Open an outbound connection to the destination, then report the
    /// outcome through `process_connect`.
    Connect { address: Address, port: u16 },
    /// Both streams exist: relay bytes until either side terminates, then
    /// the connection is finished.
    RunRelay,
}

/// The wire bytes of the hello reply selecting method `m`.
pub open spec fn hello_reply(m: AuthenticationMethod) -> Seq<u8> {
    seq![crate::SOCKS_VERSION, m.spec_to_byte()]
}

/// The wire bytes of the hello reply that refuses every offered method
/// (`0xFF`, "no acceptable methods").
pub open spec fn no_acceptable_reply() -> Seq<u8> {
    seq![crate::SOCKS_VERSION, 255u8]
}

/// The wire bytes of the authentication reply for an accepted or rejected
/// credential.
pub open spec fn auth_reply(accepted: bool) -> Seq<u8> {
    seq![crate::AUTH_VERSION, if accepted { 0u8 } else { 1u8 }]
}

/// The wire bytes of the connection reply: success or general failure, with
/// the bind address this server always reports, 0.0.0.0:0.
pub open spec fn connect_reply(success: bool) -> Seq<u8> {
    seq![
        crate::SOCKS_VERSION,
        if success { 0u8 } else { 1u8 },
        0u8,
        1u8,
        0u8,
        0u8,
        0u8,
        0u8,
        0u8,
        0u8,
    ]
}

/// The state that follows a hello which selected method `m`: straight to the
/// connection request under no authentication, else to the credential
/// exchange.
pub open spec fn state_after_hello(m: AuthenticationMethod) -> State {
    match m {
        AuthenticationMethod::NoAuthentication => State::AwaitingClientRequest,
        AuthenticationMethod::UsernamePassword => State::AwaitingAuth,
    }
}

/// What `process` must produce in `AwaitingHello`: a protocol-version or
/// parse failure is an error; otherwise the policy picks a method and the
/// reply and next state follow, with the refusal byte and a finished
/// connection when nothing offered is acceptable.
pub open spec fn hello_step_ok(
    ctx: Option<CredentialsV>,
    input: Seq<u8>,
    r: Result<(usize, Action), Error>,
) -> bool {
    match spec_parse_hello_request(input) {
        Parsed::Found(v, n) => {
            if v.version != crate::SOCKS_VERSION {
                r matches Err(e) && e is MalformedMessage
            } else {
                match selected_method(ctx, v.methods) {
                    Some(m) => r matches Ok((c, a)) && c == n && (a matches Action::Reply {
                        reply,
                        next,
                    } && reply@ == hello_reply(m) && next == state_after_hello(m)),
                    None => r matches Ok((c, a)) && c == n && (a matches Action::Reply {
                        reply,
                        next,
                    } && reply@ == no_acceptable_reply() && next == State::Finished),
                }
            }
        },
        Parsed::Malformed => r matches Err(e) && e is MalformedMessage,
        Parsed::Incomplete => r matches Err(e) && e is Io,
    }
}

/// What `process` must produce in `AwaitingAuth`: the submitted pair is
/// checked against the policy, the status reply is written either way, and
/// one failure finishes the connection.
pub open spec fn auth_step_ok(
    ctx: Option<CredentialsV>,
    input: Seq<u8>,
    r: Result<(usize, Action), Error>,
) -> bool {
    match spec_parse_auth_request(input) {
        Parsed::Found(v, n) => {
            let accepted = credentials_accepted(ctx, v.username, v.password);
            r matches Ok((c, a)) && c == n && (a matches Action::Reply { reply, next }
                && reply@ == auth_reply(accepted) && next == (if accepted {
                State::AwaitingClientRequest
            } else {
                State::Finished
            }))
        },
        Parsed::Malformed => r matches Err(e) && e is MalformedMessage,
        Parsed::Incomplete => r matches Err(e) && e is Io,
    }
}

/// What `process` must produce in `AwaitingClientRequest`: a well-formed
/// CONNECT becomes a connect action carrying exactly the requested
/// destination; a wrong protocol version or a parse failure is an error.
pub open spec fn request_step_ok(input: Seq<u8>, r: Result<(usize, Action), Error>) -> bool {
    match spec_parse_client_request(input) {
        Parsed::Found(v, n) => {
            if v.version != crate::SOCKS_VERSION {
                r matches Err(e) && e is MalformedMessage
            } else {
                r matches Ok((c, a)) && c == n && (a matches Action::Connect { address, port }
                    && address@ == v.address && port == v.port)
            }
        },
        Parsed::Malformed => r matches Err(e) && e is MalformedMessage,
        Parsed::Incomplete => r matches Err(e) && e is Io,
    }
}

impl State {
    /// The state a fresh connection starts in.
    pub fn new() -> (r: Self)
        ensures
            r == State::AwaitingHello,
    {
        State::AwaitingHello
    }

    /// Whether the connection is over. `Finished` is terminal: `process`
    /// refuses to step out of it.
    pub fn is_finished(&self) -> (r: bool)
        ensures
            r == (*self is Finished),
    {
        matches!(self, State::Finished)
    }

    /// Runs one step of the handshake on the bytes received so far and
    /// returns how many bytes the step consumed together with the action the
    /// driver must perform. `Err(Io)` asks for more input; any other error
    /// drops the connection.
    pub fn process(self, context: &Context, input: &[u8]) -> (r: Result<(usize, Action), Error>)
        ensures
            (match self {
                State::AwaitingHello => hello_step_ok(context@, input@, r),
                State::AwaitingAuth => auth_step_ok(context@, input@, r),
                State::AwaitingClientRequest => request_step_ok(input@, r),
                State::Proxying => r matches Ok((c, a)) && c == 0 && a is RunRelay,
                State::Finished => r matches Err(e) && e is Finished,
            }),
    {
        match self {
            State::AwaitingHello => State::process_await_hello(context, input),
            State::AwaitingAuth => State::process_await_auth(context, input),
            State::AwaitingClientRequest => State::process_await_client_request(input),
            State::Proxying => Ok((0, Action::RunRelay)),
            State::Finished => Err(Error::Finished),
        }
    }

    /// The hello step: parse the offered methods, let the policy select one,
    /// and either accept it or refuse the connection.
    fn process_await_hello(context: &Context, input: &[u8]) -> (r: Result<(usize, Action), Error>)
        ensures
            hello_step_ok(context@, input@, r),
    {
        let (request, consumed) = match parse_hello_request(input) {
            Ok(p) => p,
            Err(e) => {
                return Err(e);
            },
        };
        if request.version != crate::SOCKS_VERSION {
            return Err(Error::MalformedMessage("unsupported socks version"));
        }
        match context.select_authentication(request.methods) {
            Some(method) => {
                let reply = HelloResponse::new(crate::SOCKS_VERSION, method).to_bytes();
                let next = match method {
                    AuthenticationMethod::NoAuthentication => State::AwaitingClientRequest,
                    AuthenticationMethod::UsernamePassword => State::AwaitingAuth,
                };
                Ok((consumed, Action::Reply { reply, next }))
            },
            None => {
                let mut reply: Vec<u8> = Vec::new();
                reply.push(crate::SOCKS_VERSION);
                reply.push(255);
                proof {
                    assert(reply@ =~= no_acceptable_reply());
                }
                Ok((consumed, Action::Reply { reply, next: State::Finished }))
            },
        }
    }

    /// The authentication step: check the submitted pair, reply with the
    /// status, and finish the connection after a failure.
    fn process_await_auth(context: &Context, input: &[u8]) -> (r: Result<(usize, Action), Error>)
        ensures
            auth_step_ok(context@, input@, r),
    {
        let (request, consumed) = match parse_auth_request(input) {
            Ok(p) => p,
            Err(e) => {
                return Err(e);
            },
        };
        let accepted = context.authenticate(
            request.username.as_slice(),
            request.password.as_slice(),
        );
        let status = if accepted {
            AuthStatusCode::Success
        } else {
            AuthStatusCode::Failure
        };
        let reply = AuthResponse::new(request.version, status).to_bytes();
        let next = if accepted {
            State::AwaitingClientRequest
        } else {
            State::Finished
        };
        Ok((consumed, Action::Reply { reply, next }))
    }

    /// The connection-request step: validate the version and hand the
    /// destination to the driver for the outbound connect.
    fn process_await_client_request(input: &[u8]) -> (r: Result<(usize, Action), Error>)
        ensures
            request_step_ok(input@, r),
    {
        let (request, consumed) = match parse_client_request(input) {
            Ok(p) => p,
            Err(e) => {
                return Err(e);
            },
        };
        if request.version != crate::SOCKS_VERSION {
            return Err(Error::MalformedMessage("invalid socks version"));
        }
        Ok((consumed, Action::Connect { address: request.address, port: request.port }))
    }
}

/// The step after the driver tried the outbound connect: the reply to send
/// to the client (best-effort on failure) and the state that follows —
/// relaying on success, finished on failure.
pub fn process_connect(success: bool) -> (r: (Vec<u8>, State))
    ensures
        r.0@ == connect_reply(success),
        r.1 == (if success {
            State::Proxying
        } else {
            State::Finished
        }),
{
    let code = if success {
        ResponseCode::Success
    } else {
        ResponseCode::GeneralFailure
    };
    let mut octets: Vec<u8> = Vec::new();
    octets.push(0);
    octets.push(0);
    octets.push(0);
    octets.push(0);
    let response = RequestResponse::new(crate::SOCKS_VERSION, code, Address::Ipv4(octets), 0);
    let reply = match response.to_bytes() {
        Ok(bytes) => bytes,
        Err(_) => {
            proof {
                assert(false);
            }
            Vec::new()
        },
    };
    proof {
        assert(reply@ =~= connect_reply(success));
    }
    let next = if success {
        State::Proxying
    } else {
        State::Finished
    };
    (reply, next)
}

} // verus!

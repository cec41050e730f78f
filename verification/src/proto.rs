//! The SOCKS5 handshake as a state machine.
//!
//! The handshake is a fixed sequence of exact-size reads: every state that
//! expects bytes says how many, the caller reads exactly that many and feeds
//! them to [`step`], and the transition says what to send back and where the
//! machine goes. Once a request is parsed the caller dials the destination
//! and reports the outcome to [`on_dial`], which picks the reply. A
//! [`HandshakeState::Failed`] state is terminal: nothing more is read.

use vstd::prelude::*;

use crate::addr::Address;

verus! {

pub const SOCKS_VERSION: u8 = 5;

pub const AUTH_NONE: u8 = 0;

pub const NO_ACCEPTABLE_METHOD: u8 = 255;

pub const CMD_CONNECT: u8 = 1;

pub const ATYP_V4: u8 = 1;

pub const ATYP_DOMAIN: u8 = 3;

pub const ATYP_V6: u8 = 4;

pub const REPLY_SUCCESS: u8 = 0;

pub const REPLY_GENERAL_FAILURE: u8 = 1;

pub const REPLY_CONNECTION_REFUSED: u8 = 5;

/// Why a connection was abandoned.
#[derive(Debug, Clone, Copy, PartialEq, Eq, Structural)]
pub enum SocksError {
    /// The greeting or the request named a protocol version other than five.
    /// No reply is sent: the peer is not known to speak SOCKS5.
    WrongVersion,
    /// The greeting offered no authentication method the server accepts.
    NoAcceptableMethod,
    /// The request asked for a command other than CONNECT.
    UnsupportedCommand,
    /// The request carried an unknown address type.
    UnsupportedAddressType,
    /// The dialer rejected the destination text as malformed.
    InvalidDestination,
    /// The dialer could not reach the destination.
    DestinationUnreachable,
}

/// The one supported request command.
#[derive(Debug, Clone, Copy, PartialEq, Eq, Structural)]
pub enum Command {
    Connect,
}

/// A parsed CONNECT request: destination address and port.
pub struct ConnectRequest {
    pub command: Command,
    pub address: Address,
    pub port: u16,
}

/// Where the handshake stands. The states up to `V6Address` expect bytes from
/// the client; `Connecting` waits on the dialer; `Relaying` and `Failed` are
/// the two ends of the handshake.
pub enum HandshakeState {
    /// Expecting the two greeting bytes: version and method count.
    Greeting,
    /// Expecting `count` offered authentication methods.
    Methods { count: u8 },
    /// Expecting the four request header bytes: version, command, reserved,
    /// address type.
    RequestHeader,
    /// Expecting four IPv4 octets and the two port bytes.
    V4Address,
    /// Expecting the domain length byte.
    DomainLength,
    /// Expecting `len` domain bytes and the two port bytes.
    DomainAddress { len: u8 },
    /// Expecting sixteen IPv6 octets and the two port bytes.
    V6Address,
    /// The request is parsed; the caller dials the destination.
    Connecting { request: ConnectRequest },
    /// The reply is sent; bytes now flow both ways.
    Relaying,
    /// The connection is abandoned; nothing more is read.
    Failed { error: SocksError },
}

/// What one step of the handshake decides: the bytes to send to the client
/// (often none) and the state the machine moves to.
pub struct Transition {
    pub send: Vec<u8>,
    pub next: HandshakeState,
}

impl HandshakeState {
    /// Every address the machine carries has its prescribed octet count.
    pub open spec fn well_formed(&self) -> bool {
        match self {
            HandshakeState::Connecting { request } => request.address.well_formed(),
            _ => true,
        }
    }

    /// Whether the machine expects bytes from the client in this state.
    pub open spec fn spec_is_reading(&self) -> bool {
        match self {
            HandshakeState::Connecting { .. } => false,
            HandshakeState::Relaying => false,
            HandshakeState::Failed { .. } => false,
            _ => true,
        }
    }

    /// How many bytes the machine expects in this state.
    pub open spec fn spec_bytes_needed(&self) -> nat {
        match self {
            HandshakeState::Greeting => 2,
            HandshakeState::Methods { count } => count as nat,
            HandshakeState::RequestHeader => 4,
            HandshakeState::V4Address => 6,
            HandshakeState::DomainLength => 1,
            HandshakeState::DomainAddress { len } => len as nat + 2,
            HandshakeState::V6Address => 18,
            HandshakeState::Connecting { .. } => 0,
            HandshakeState::Relaying => 0,
            HandshakeState::Failed { .. } => 0,
        }
    }

    /// Whether the machine expects bytes from the client in this state.
    pub fn is_reading(&self) -> (r: bool)
        ensures
            r == self.spec_is_reading(),
    {
        match self {
            HandshakeState::Connecting { .. } => false,
            HandshakeState::Relaying => false,
            HandshakeState::Failed { .. } => false,
            _ => true,
        }
    }

    /// How many bytes to read before the next call to [`step`].
    pub fn bytes_needed(&self) -> (n: usize)
        ensures
            n == self.spec_bytes_needed(),
    {
        match self {
            HandshakeState::Greeting => 2,
            HandshakeState::Methods { count } => *count as usize,
            HandshakeState::RequestHeader => 4,
            HandshakeState::V4Address => 6,
            HandshakeState::DomainLength => 1,
            HandshakeState::DomainAddress { len } => *len as usize + 2,
            HandshakeState::V6Address => 18,
            HandshakeState::Connecting { .. } => 0,
            HandshakeState::Relaying => 0,
            HandshakeState::Failed { .. } => 0,
        }
    }
}

/// The ten bytes of a SOCKS5 reply with code `code`: version, code, reserved
/// zero, IPv4 address type, and the wildcard `0.0.0.0:0` bound address the
/// gateway always reports.
pub open spec fn reply_bytes(code: u8) -> Seq<u8> {
    seq![SOCKS_VERSION, code, 0u8, ATYP_V4, 0u8, 0u8, 0u8, 0u8, 0u8, 0u8]
}

/// The two method-selection bytes: no-authentication when accepted, the
/// no-acceptable-methods marker otherwise.
pub open spec fn method_reply(accepted: bool) -> Seq<u8> {
    if accepted {
        seq![SOCKS_VERSION, AUTH_NONE]
    } else {
        seq![SOCKS_VERSION, NO_ACCEPTABLE_METHOD]
    }
}

/// Encodes the ten-byte SOCKS5 reply for `code`.
pub fn encode_reply(code: u8) -> (r: Vec<u8>)
    ensures
        r@ == reply_bytes(code),
{
    let mut v: Vec<u8> = Vec::new();
    v.push(SOCKS_VERSION);
    v.push(code);
    v.push(0);
    v.push(ATYP_V4);
    v.push(0);
    v.push(0);
    v.push(0);
    v.push(0);
    v.push(0);
    v.push(0);
    proof {
        assert(v@ =~= reply_bytes(code));
    }
    v
}

/// Encodes the two method-selection bytes.
pub fn encode_method_reply(accepted: bool) -> (r: Vec<u8>)
    ensures
        r@ == method_reply(accepted),
{
    let mut v: Vec<u8> = Vec::new();
    v.push(SOCKS_VERSION);
    if accepted {
        v.push(AUTH_NONE);
    } else {
        v.push(NO_ACCEPTABLE_METHOD);
    }
    proof {
        assert(v@ =~= method_reply(accepted));
    }
    v
}

/// Reads a 16-bit integer from its two big-endian bytes, as SOCKS5 carries
/// ports on the wire.
pub fn u16_from_be(hi: u8, lo: u8) -> (n: u16)
    ensures
        n == hi as u16 * 256 + lo as u16,
{
    (hi as u16) * 256 + (lo as u16)
}

fn contains_byte(v: &Vec<u8>, b: u8) -> (r: bool)
    ensures
        r == v@.contains(b),
{
    let mut i: usize = 0;
    while i < v.len()
        invariant
            0 <= i <= v@.len(),
            forall|j: int| 0 <= j < i ==> v@[j] != b,
        decreases v@.len() - i,
    {
        if v[i] == b {
            assert(v@.contains(b)) by {
                assert(v@[i as int] == b);
            }
            return true;
        }
        i = i + 1;
    }
    false
}

/// On the greeting: a version other than five drops the connection with no
/// reply; otherwise the machine waits for the offered methods.
pub open spec fn greeting_step(input: Seq<u8>, t: Transition) -> bool {
    &&& t.send@ == Seq::<u8>::empty()
    &&& if input[0] != SOCKS_VERSION {
        t.next == (HandshakeState::Failed { error: SocksError::WrongVersion })
    } else {
        t.next == (HandshakeState::Methods { count: input[1] })
    }
}

/// On the offered methods: a greeting that offers no-authentication is
/// answered with exactly the accepting bytes and the machine awaits the
/// request; any other greeting is answered with exactly the refusing bytes
/// and the connection is abandoned without reading a request.
pub open spec fn methods_step(input: Seq<u8>, t: Transition) -> bool {
    if input.contains(AUTH_NONE) {
        &&& t.send@ == method_reply(true)
        &&& t.next == HandshakeState::RequestHeader
    } else {
        &&& t.send@ == method_reply(false)
        &&& t.next == (HandshakeState::Failed { error: SocksError::NoAcceptableMethod })
    }
}

/// On the request header: wrong version drops the connection silently; a
/// command other than CONNECT or an unknown address type is answered with a
/// general-failure reply and abandoned; otherwise the machine moves to the
/// reader for the named address type.
pub open spec fn request_header_step(input: Seq<u8>, t: Transition) -> bool {
    if input[0] != SOCKS_VERSION {
        &&& t.send@ == Seq::<u8>::empty()
        &&& t.next == (HandshakeState::Failed { error: SocksError::WrongVersion })
    } else if input[1] != CMD_CONNECT {
        &&& t.send@ == reply_bytes(REPLY_GENERAL_FAILURE)
        &&& t.next == (HandshakeState::Failed { error: SocksError::UnsupportedCommand })
    } else if input[3] == ATYP_V4 {
        &&& t.send@ == Seq::<u8>::empty()
        &&& t.next == HandshakeState::V4Address
    } else if input[3] == ATYP_DOMAIN {
        &&& t.send@ == Seq::<u8>::empty()
        &&& t.next == HandshakeState::DomainLength
    } else if input[3] == ATYP_V6 {
        &&& t.send@ == Seq::<u8>::empty()
        &&& t.next == HandshakeState::V6Address
    } else {
        &&& t.send@ == reply_bytes(REPLY_GENERAL_FAILURE)
        &&& t.next == (HandshakeState::Failed { error: SocksError::UnsupportedAddressType })
    }
}

/// On the IPv4 address bytes: the four octets and the port are taken as they
/// stand on the wire.
pub open spec fn v4_step(input: Seq<u8>, t: Transition) -> bool {
    &&& t.send@ == Seq::<u8>::empty()
    &&& t.next matches HandshakeState::Connecting { request } && {
        &&& request.command == Command::Connect
        &&& request.address matches Address::V4 { octets } && octets@ == input.take(4)
        &&& request.port == input[4] as u16 * 256 + input[5] as u16
    }
}

/// On the domain length byte: the machine waits for that many name bytes and
/// the port.
pub open spec fn domain_length_step(input: Seq<u8>, t: Transition) -> bool {
    &&& t.send@ == Seq::<u8>::empty()
    &&& t.next == (HandshakeState::DomainAddress { len: input[0] })
}

/// On the domain bytes: the first `len` bytes are the name, the last two the
/// port.
pub open spec fn domain_step(len: u8, input: Seq<u8>, t: Transition) -> bool {
    &&& t.send@ == Seq::<u8>::empty()
    &&& t.next matches HandshakeState::Connecting { request } && {
        &&& request.command == Command::Connect
        &&& request.address matches Address::Domain { name } && name@ == input.take(len as int)
        &&& request.port == input[len as int] as u16 * 256 + input[len as int + 1] as u16
    }
}

/// On the IPv6 address bytes: the sixteen octets and the port are taken as
/// they stand on the wire.
pub open spec fn v6_step(input: Seq<u8>, t: Transition) -> bool {
    &&& t.send@ == Seq::<u8>::empty()
    &&& t.next matches HandshakeState::Connecting { request } && {
        &&& request.command == Command::Connect
        &&& request.address matches Address::V6 { octets } && octets@ == input.take(16)
        &&& request.port == input[16] as u16 * 256 + input[17] as u16
    }
}

/// Feeds the machine the bytes it asked for and returns what to send and
/// where the handshake goes next.
pub fn step(state: &HandshakeState, input: &Vec<u8>) -> (t: Transition)
    requires
        state.spec_is_reading(),
        input@.len() == state.spec_bytes_needed(),
    ensures
        t.next.well_formed(),
        match *state {
            HandshakeState::Greeting => greeting_step(input@, t),
            HandshakeState::Methods { .. } => methods_step(input@, t),
            HandshakeState::RequestHeader => request_header_step(input@, t),
            HandshakeState::V4Address => v4_step(input@, t),
            HandshakeState::DomainLength => domain_length_step(input@, t),
            HandshakeState::DomainAddress { len } => domain_step(len, input@, t),
            HandshakeState::V6Address => v6_step(input@, t),
            _ => false,
        },
{
    match state {
        HandshakeState::Greeting => {
            if input[0] != SOCKS_VERSION {
                Transition {
                    send: Vec::new(),
                    next: HandshakeState::Failed { error: SocksError::WrongVersion },
                }
            } else {
                Transition { send: Vec::new(), next: HandshakeState::Methods { count: input[1] } }
            }
        },
        HandshakeState::Methods { .. } => {
            let accepted = contains_byte(input, AUTH_NONE);
            let send = encode_method_reply(accepted);
            if accepted {
                Transition { send, next: HandshakeState::RequestHeader }
            } else {
                Transition {
                    send,
                    next: HandshakeState::Failed { error: SocksError::NoAcceptableMethod },
                }
            }
        },
        HandshakeState::RequestHeader => {
            if input[0] != SOCKS_VERSION {
                Transition {
                    send: Vec::new(),
                    next: HandshakeState::Failed { error: SocksError::WrongVersion },
                }
            } else if input[1] != CMD_CONNECT {
                Transition {
                    send: encode_reply(REPLY_GENERAL_FAILURE),
                    next: HandshakeState::Failed { error: SocksError::UnsupportedCommand },
                }
            } else if input[3] == ATYP_V4 {
                Transition { send: Vec::new(), next: HandshakeState::V4Address }
            } else if input[3] == ATYP_DOMAIN {
                Transition { send: Vec::new(), next: HandshakeState::DomainLength }
            } else if input[3] == ATYP_V6 {
                Transition { send: Vec::new(), next: HandshakeState::V6Address }
            } else {
                Transition {
                    send: encode_reply(REPLY_GENERAL_FAILURE),
                    next: HandshakeState::Failed { error: SocksError::UnsupportedAddressType },
                }
            }
        },
        HandshakeState::V4Address => {
            let octets = vstd::slice::slice_to_vec(
                vstd::slice::slice_subrange(input.as_slice(), 0, 4),
            );
            let port = u16_from_be(input[4], input[5]);
            proof {
                assert(octets@ =~= input@.take(4));
            }
            Transition {
                send: Vec::new(),
                next: HandshakeState::Connecting {
                    request: ConnectRequest {
                        command: Command::Connect,
                        address: Address::V4 { octets },
                        port,
                    },
                },
            }
        },
        HandshakeState::DomainLength => {
            Transition { send: Vec::new(), next: HandshakeState::DomainAddress { len: input[0] } }
        },
        HandshakeState::DomainAddress { len } => {
            let l = *len as usize;
            let name = vstd::slice::slice_to_vec(
                vstd::slice::slice_subrange(input.as_slice(), 0, l),
            );
            let port = u16_from_be(input[l], input[l + 1]);
            proof {
                assert(name@ =~= input@.take(*len as int));
            }
            Transition {
                send: Vec::new(),
                next: HandshakeState::Connecting {
                    request: ConnectRequest {
                        command: Command::Connect,
                        address: Address::Domain { name },
                        port,
                    },
                },
            }
        },
        HandshakeState::V6Address => {
            let octets = vstd::slice::slice_to_vec(
                vstd::slice::slice_subrange(input.as_slice(), 0, 16),
            );
            let port = u16_from_be(input[16], input[17]);
            proof {
                assert(octets@ =~= input@.take(16));
            }
            Transition {
                send: Vec::new(),
                next: HandshakeState::Connecting {
                    request: ConnectRequest {
                        command: Command::Connect,
                        address: Address::V6 { octets },
                        port,
                    },
                },
            }
        },
        _ => {
            proof {
                assert(false);
            }
            Transition { send: Vec::new(), next: HandshakeState::Relaying }
        },
    }
}

/// What the dialer reported for the parsed destination.
#[derive(Debug, Clone, Copy, PartialEq, Eq, Structural)]
pub enum DialOutcome {
    /// The destination stream is established.
    Connected,
    /// The dialer rejected the destination text as malformed.
    AddressRejected,
    /// The dialer could not reach the destination.
    ConnectFailed,
}

/// Maps the dialer's outcome to the reply the client is owed: success with
/// the wildcard bound address when connected, general failure for a rejected
/// address, connection refused when the destination could not be reached.
pub fn on_dial(outcome: &DialOutcome) -> (t: Transition)
    ensures
        match *outcome {
            DialOutcome::Connected => {
                &&& t.send@ == reply_bytes(REPLY_SUCCESS)
                &&& t.next == HandshakeState::Relaying
            },
            DialOutcome::AddressRejected => {
                &&& t.send@ == reply_bytes(REPLY_GENERAL_FAILURE)
                &&& t.next == (HandshakeState::Failed { error: SocksError::InvalidDestination })
            },
            DialOutcome::ConnectFailed => {
                &&& t.send@ == reply_bytes(REPLY_CONNECTION_REFUSED)
                &&& t.next == (HandshakeState::Failed {
                    error: SocksError::DestinationUnreachable,
                })
            },
        },
{
    match outcome {
        DialOutcome::Connected => {
            Transition { send: encode_reply(REPLY_SUCCESS), next: HandshakeState::Relaying }
        },
        DialOutcome::AddressRejected => {
            Transition {
                send: encode_reply(REPLY_GENERAL_FAILURE),
                next: HandshakeState::Failed { error: SocksError::InvalidDestination },
            }
        },
        DialOutcome::ConnectFailed => {
            Transition {
                send: encode_reply(REPLY_CONNECTION_REFUSED),
                next: HandshakeState::Failed { error: SocksError::DestinationUnreachable },
            }
        },
    }
}

/// A failed handshake is terminal: the machine is not reading and asks for no
/// further bytes, so the connection is dropped without reading a request.
pub proof fn lemma_failed_state_is_terminal(error: SocksError)
    ensures
        !(HandshakeState::Failed { error }).spec_is_reading(),
        (HandshakeState::Failed { error }).spec_bytes_needed() == 0,
{
}

} // verus!

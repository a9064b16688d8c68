//! The server side of SOCKS5 as a machine without I/O.
//!
//! A responder is in a `Phase`; each phase expects a fixed number of bytes
//! from the client. The caller reads exactly that many bytes and hands them to
//! `advance`, which answers with the bytes to write back and with what comes
//! next: another read, the target to dial, or the error that ends the session.
//! Once the dial has been tried, `dial_reply` gives the last response.

use crate::util::{
    decimal, decode_lossy, generate_random_string, is_random_string, lossy_text, push_char,
    push_decimal, push_text,
};
use vstd::prelude::*;
use vstd::slice::*;
use vstd::string::*;

verus! {

/// Protocol version of every SOCKS5 frame.
pub const SOCKS_VERSION: u8 = 0x05;

/// Version of the user/password sub-negotiation.
pub const AUTH_VERSION: u8 = 0x01;

/// Method "no authentication required".
pub const METHOD_NO_AUTH: u8 = 0x00;

/// Method "user name and password".
pub const METHOD_USER_PASS: u8 = 0x02;

/// Method answer "none of the offered methods is acceptable".
pub const METHOD_NONE_ACCEPTABLE: u8 = 0xFF;

/// The only supported command.
pub const COMMAND_CONNECT: u8 = 0x01;

/// Address type: four bytes of IPv4.
pub const ADDRESS_IPV4: u8 = 0x01;

/// Address type: a length byte and a domain name.
pub const ADDRESS_DOMAIN: u8 = 0x03;

/// Address type: sixteen bytes of IPv6.
pub const ADDRESS_IPV6: u8 = 0x04;

/// Length of generated user names and passwords.
pub const GENERATED_LENGTH: usize = 12;

/// The credentials a client has to present.
#[derive(Debug, PartialEq, Eq)]
pub struct AuthInfo {
    pub user: String,
    pub pass: String,
}

/// Whether `i` is the position of the first colon of `text`.
pub open spec fn is_first_colon(text: Seq<char>, i: int) -> bool {
    &&& 0 <= i < text.len()
    &&& text[i] == ':'
    &&& forall|j: int| 0 <= j < i ==> text[j] != ':'
}

/// Whether `user` and `pass` are what stands before and after the first colon
/// of `text`.
pub open spec fn splits_at_colon(text: Seq<char>, user: Seq<char>, pass: Seq<char>) -> bool {
    exists|i: int|
        #![trigger is_first_colon(text, i)]
        is_first_colon(text, i) && user == text.subrange(0, i) && pass == text.subrange(
            i + 1,
            text.len() as int,
        )
}

/// What `AuthInfo::new` may give for an operator's argument: the two parts
/// around the first colon, or two generated strings where there is no colon.
pub open spec fn credentials_from(text: Seq<char>, user: Seq<char>, pass: Seq<char>) -> bool {
    if text.contains(':') {
        splits_at_colon(text, user, pass)
    } else {
        is_random_string(user, GENERATED_LENGTH as nat) && is_random_string(
            pass,
            GENERATED_LENGTH as nat,
        )
    }
}

impl Clone for AuthInfo {
    fn clone(&self) -> (copy: Self)
        ensures
            copy == *self,
    {
        AuthInfo { user: self.user.clone(), pass: self.pass.clone() }
    }
}

impl AuthInfo {
    /// Credentials from the operator's argument: `user:pass` is taken as it
    /// stands, split at the first colon; anything else gives a random user
    /// name and a random password of twelve letters and digits each.
    pub fn new(s: String) -> (auth: Self)
        ensures
            credentials_from(s@, auth.user@, auth.pass@),
    {
        let text = s.as_str();
        let n = text.unicode_len();
        let mut i: usize = 0;
        while i < n && text.get_char(i) != ':'
            invariant
                i <= n,
                n == text@.len(),
                forall|j: int| 0 <= j < i ==> text@[j] != ':',
            decreases n - i,
        {
            i += 1;
        }
        if i < n {
            let user = String::from_str(text.substring_char(0, i));
            let pass = String::from_str(text.substring_char(i + 1, n));
            proof {
                assert(is_first_colon(s@, i as int));
            }
            AuthInfo { user, pass }
        } else {
            let user = generate_random_string(GENERATED_LENGTH);
            let pass = generate_random_string(GENERATED_LENGTH);
            AuthInfo { user, pass }
        }
    }
}

/// Why a session ends before a tunnel is open.
#[derive(Clone, Copy, Debug, PartialEq, Eq, Structural)]
pub enum SocksError {
    /// The greeting does not start with version 5.
    InvalidVersion,
    /// Credentials are required and the client did not offer user/password.
    NoSupportedMethod,
    /// The sub-negotiation does not start with version 1.
    InvalidAuthVersion,
    /// User name or password differ from the configured ones.
    AuthenticationFailed,
    /// The request does not start with version 5.
    InvalidRequest,
    /// The command is not CONNECT.
    CommandNotSupported,
    /// The target is an IPv6 address.
    Ipv6NotSupported,
    /// The address type is unknown.
    AddressTypeNotSupported,
}

/// The class of an error, as an I/O layer would report it.
#[derive(Clone, Copy, Debug, PartialEq, Eq, Structural)]
pub enum ErrorClass {
    InvalidData,
    PermissionDenied,
    Unsupported,
}

impl SocksError {
    pub open spec fn spec_class(self) -> ErrorClass {
        match self {
            SocksError::InvalidVersion => ErrorClass::InvalidData,
            SocksError::NoSupportedMethod => ErrorClass::InvalidData,
            SocksError::InvalidAuthVersion => ErrorClass::InvalidData,
            SocksError::AuthenticationFailed => ErrorClass::PermissionDenied,
            SocksError::InvalidRequest => ErrorClass::InvalidData,
            SocksError::CommandNotSupported => ErrorClass::Unsupported,
            SocksError::Ipv6NotSupported => ErrorClass::Unsupported,
            SocksError::AddressTypeNotSupported => ErrorClass::Unsupported,
        }
    }

    /// The class of this error.
    pub fn class(self) -> (class: ErrorClass)
        ensures
            class == self.spec_class(),
    {
        match self {
            SocksError::InvalidVersion => ErrorClass::InvalidData,
            SocksError::NoSupportedMethod => ErrorClass::InvalidData,
            SocksError::InvalidAuthVersion => ErrorClass::InvalidData,
            SocksError::AuthenticationFailed => ErrorClass::PermissionDenied,
            SocksError::InvalidRequest => ErrorClass::InvalidData,
            SocksError::CommandNotSupported => ErrorClass::Unsupported,
            SocksError::Ipv6NotSupported => ErrorClass::Unsupported,
            SocksError::AddressTypeNotSupported => ErrorClass::Unsupported,
        }
    }

    pub open spec fn spec_message(self) -> Seq<char> {
        match self {
            SocksError::InvalidVersion => "Invalid SOCKS5 protocol version"@,
            SocksError::NoSupportedMethod => "No supported authentication method"@,
            SocksError::InvalidAuthVersion => "Invalid authentication version"@,
            SocksError::AuthenticationFailed => "Authentication failed"@,
            SocksError::InvalidRequest => "Invalid SOCKS5 request"@,
            SocksError::CommandNotSupported => "Only CONNECT command supported"@,
            SocksError::Ipv6NotSupported => "IPv6 address not supported"@,
            SocksError::AddressTypeNotSupported => "Unsupported address type"@,
        }
    }

    /// The text that describes this error.
    pub fn message(self) -> (text: &'static str)
        ensures
            text@ == self.spec_message(),
    {
        match self {
            SocksError::InvalidVersion => "Invalid SOCKS5 protocol version",
            SocksError::NoSupportedMethod => "No supported authentication method",
            SocksError::InvalidAuthVersion => "Invalid authentication version",
            SocksError::AuthenticationFailed => "Authentication failed",
            SocksError::InvalidRequest => "Invalid SOCKS5 request",
            SocksError::CommandNotSupported => "Only CONNECT command supported",
            SocksError::Ipv6NotSupported => "IPv6 address not supported",
            SocksError::AddressTypeNotSupported => "Unsupported address type",
        }
    }
}

/// Where a responder stands: which frame of the client it waits for.
#[derive(Clone, Copy, Debug, PartialEq, Eq, Structural)]
pub enum Phase {
    /// `[VER, NMETHODS]`.
    Greeting,
    /// The offered methods, as many as the greeting announced.
    Methods(u8),
    /// `[VER, ULEN]` of the user/password sub-negotiation.
    AuthHeader,
    /// The user name, of the given length, and after it the byte `PLEN`.
    AuthUser(u8),
    /// The password, of the given length; `user_ok` tells whether the user
    /// name was the configured one.
    AuthPass { user_ok: bool, len: u8 },
    /// `[VER, CMD, RSV, ATYP]`.
    Request,
    /// Four address bytes and two port bytes.
    Ipv4Address,
    /// The length byte of a domain name.
    DomainLength,
    /// The domain name, of the given length, and two port bytes.
    DomainAddress(u8),
}

/// What follows a frame.
#[derive(Debug, PartialEq, Eq)]
pub enum Next {
    /// Read the frame of this phase.
    Read(Phase),
    /// Connect to this target, then answer with `dial_reply`.
    Dial(String),
    /// Close the connection with this error.
    Fail(SocksError),
}

/// The answer to one frame: bytes to write to the client, possibly none, and
/// what to do after they are written.
#[derive(Debug, PartialEq, Eq)]
pub struct Step {
    pub reply: Vec<u8>,
    pub next: Next,
}

/// The mathematical value of a `Next`.
pub ghost enum NextView {
    Read(Phase),
    Dial(Seq<char>),
    Fail(SocksError),
}

/// The mathematical value of a `Step`.
pub ghost struct StepView {
    pub reply: Seq<u8>,
    pub next: NextView,
}

impl View for Next {
    type V = NextView;

    open spec fn view(&self) -> NextView {
        match *self {
            Next::Read(phase) => NextView::Read(phase),
            Next::Dial(target) => NextView::Dial(target@),
            Next::Fail(error) => NextView::Fail(error),
        }
    }
}

impl View for Step {
    type V = StepView;

    open spec fn view(&self) -> StepView {
        StepView { reply: self.reply@, next: self.next@ }
    }
}

/// The number of bytes that a phase expects.
pub open spec fn expected(phase: Phase) -> nat {
    match phase {
        Phase::Greeting => 2,
        Phase::Methods(count) => count as nat,
        Phase::AuthHeader => 2,
        Phase::AuthUser(len) => (len + 1) as nat,
        Phase::AuthPass { user_ok, len } => len as nat,
        Phase::Request => 4,
        Phase::Ipv4Address => 6,
        Phase::DomainLength => 1,
        Phase::DomainAddress(len) => (len + 2) as nat,
    }
}

/// The port that two bytes in network order stand for.
pub open spec fn port_value(high: u8, low: u8) -> nat {
    (high * 256 + low) as nat
}

/// The text `a.b.c.d:port`.
pub open spec fn ipv4_text(a: u8, b: u8, c: u8, d: u8, port: nat) -> Seq<char> {
    decimal(a as nat) + seq!['.'] + decimal(b as nat) + seq!['.'] + decimal(c as nat) + seq!['.']
        + decimal(d as nat) + seq![':'] + decimal(port)
}

/// The text `domain:port`.
pub open spec fn domain_text(domain: Seq<char>, port: nat) -> Seq<char> {
    domain + seq![':'] + decimal(port)
}

/// The method a responder selects for the offered ones: user/password where
/// credentials are configured and the client offers it, no method where they
/// are configured and it does not, and "no authentication" otherwise.
pub open spec fn selected_method(auth_required: bool, offered: Seq<u8>) -> u8 {
    if !auth_required {
        METHOD_NO_AUTH
    } else if offered.contains(METHOD_USER_PASS) {
        METHOD_USER_PASS
    } else {
        METHOD_NONE_ACCEPTABLE
    }
}

/// Whether a presented name is the configured user name.
pub open spec fn user_accepted(auth: Option<AuthInfo>, user: Seq<char>) -> bool {
    auth matches Some(a) && a.user@ == user
}

/// Whether a presented word is the configured password.
pub open spec fn pass_accepted(auth: Option<AuthInfo>, pass: Seq<char>) -> bool {
    auth matches Some(a) && a.pass@ == pass
}

/// A step that writes nothing.
pub open spec fn silent(next: NextView) -> StepView {
    StepView { reply: Seq::empty(), next }
}

/// The response that reports the outcome of the dial: success, or a general
/// failure, each with a zero IPv4 bind address and port.
pub open spec fn dial_reply_bytes(connected: bool) -> Seq<u8> {
    if connected {
        seq![0x05u8, 0x00u8, 0x00u8, 0x01u8, 0u8, 0u8, 0u8, 0u8, 0u8, 0u8]
    } else {
        seq![0x05u8, 0x04u8, 0x00u8, 0x01u8, 0u8, 0u8, 0u8, 0u8, 0u8, 0u8]
    }
}

/// What a responder in `phase` does with the frame `input`.
pub open spec fn respond(phase: Phase, auth: Option<AuthInfo>, input: Seq<u8>) -> StepView
    recommends
        input.len() == expected(phase),
{
    match phase {
        Phase::Greeting => if input[0] != SOCKS_VERSION {
            silent(NextView::Fail(SocksError::InvalidVersion))
        } else {
            silent(NextView::Read(Phase::Methods(input[1])))
        },
        Phase::Methods(count) => {
            let method = selected_method(auth is Some, input);
            StepView {
                reply: seq![SOCKS_VERSION, method],
                next: if method == METHOD_NONE_ACCEPTABLE {
                    NextView::Fail(SocksError::NoSupportedMethod)
                } else if method == METHOD_USER_PASS {
                    NextView::Read(Phase::AuthHeader)
                } else {
                    NextView::Read(Phase::Request)
                },
            }
        },
        Phase::AuthHeader => if input[0] != AUTH_VERSION {
            silent(NextView::Fail(SocksError::InvalidAuthVersion))
        } else {
            silent(NextView::Read(Phase::AuthUser(input[1])))
        },
        Phase::AuthUser(len) => silent(
            NextView::Read(
                Phase::AuthPass {
                    user_ok: user_accepted(auth, lossy_text(input.subrange(0, len as int))),
                    len: input[len as int],
                },
            ),
        ),
        Phase::AuthPass { user_ok, len } => if user_ok && pass_accepted(auth, lossy_text(input)) {
            StepView { reply: seq![AUTH_VERSION, 0x00u8], next: NextView::Read(Phase::Request) }
        } else {
            StepView {
                reply: seq![AUTH_VERSION, 0x01u8],
                next: NextView::Fail(SocksError::AuthenticationFailed),
            }
        },
        Phase::Request => if input[0] != SOCKS_VERSION {
            silent(NextView::Fail(SocksError::InvalidRequest))
        } else if input[1] != COMMAND_CONNECT {
            silent(NextView::Fail(SocksError::CommandNotSupported))
        } else if input[3] == ADDRESS_IPV4 {
            silent(NextView::Read(Phase::Ipv4Address))
        } else if input[3] == ADDRESS_DOMAIN {
            silent(NextView::Read(Phase::DomainLength))
        } else if input[3] == ADDRESS_IPV6 {
            silent(NextView::Fail(SocksError::Ipv6NotSupported))
        } else {
            silent(NextView::Fail(SocksError::AddressTypeNotSupported))
        },
        Phase::Ipv4Address => silent(
            NextView::Dial(
                ipv4_text(input[0], input[1], input[2], input[3], port_value(input[4], input[5])),
            ),
        ),
        Phase::DomainLength => silent(NextView::Read(Phase::DomainAddress(input[0]))),
        Phase::DomainAddress(len) => silent(
            NextView::Dial(
                domain_text(
                    lossy_text(input.subrange(0, len as int)),
                    port_value(input[len as int], input[len + 1]),
                ),
            ),
        ),
    }
}

impl Phase {
    /// The phase of a fresh connection.
    pub fn start() -> (phase: Phase)
        ensures
            phase == Phase::Greeting,
    {
        Phase::Greeting
    }

    /// The number of bytes to read before the next call of `advance`.
    pub fn expects(self) -> (count: usize)
        ensures
            count == expected(self),
    {
        match self {
            Phase::Greeting => 2,
            Phase::Methods(count) => count as usize,
            Phase::AuthHeader => 2,
            Phase::AuthUser(len) => len as usize + 1,
            Phase::AuthPass { user_ok, len } => len as usize,
            Phase::Request => 4,
            Phase::Ipv4Address => 6,
            Phase::DomainLength => 1,
            Phase::DomainAddress(len) => len as usize + 2,
        }
    }
}

/// Whether `method` is among the offered methods.
pub fn offers(offered: &[u8], method: u8) -> (found: bool)
    ensures
        found == offered@.contains(method),
{
    let mut i: usize = 0;
    while i < offered.len()
        invariant
            i <= offered@.len(),
            forall|j: int| 0 <= j < i ==> offered@[j] != method,
        decreases offered@.len() - i,
    {
        if offered[i] == method {
            return true;
        }
        i += 1;
    }
    false
}

/// The method byte of the greeting reply.
pub fn select_method(auth_required: bool, offered: &[u8]) -> (method: u8)
    ensures
        method == selected_method(auth_required, offered@),
{
    if !auth_required {
        METHOD_NO_AUTH
    } else if offers(offered, METHOD_USER_PASS) {
        METHOD_USER_PASS
    } else {
        METHOD_NONE_ACCEPTABLE
    }
}

/// Whether the decoded user name is the configured one.
pub fn user_matches(auth: &Option<AuthInfo>, user: &String) -> (ok: bool)
    ensures
        ok == user_accepted(*auth, user@),
{
    match auth {
        Some(a) => a.user == *user,
        None => false,
    }
}

/// Whether the decoded password is the configured one.
pub fn pass_matches(auth: &Option<AuthInfo>, pass: &String) -> (ok: bool)
    ensures
        ok == pass_accepted(*auth, pass@),
{
    match auth {
        Some(a) => a.pass == *pass,
        None => false,
    }
}

/// The port that two bytes in network order stand for.
pub fn port_of(high: u8, low: u8) -> (port: u16)
    ensures
        port == port_value(high, low),
{
    (high as u16) * 256 + (low as u16)
}

/// The dial target `a.b.c.d:port` of an IPv4 request.
pub fn ipv4_target(a: u8, b: u8, c: u8, d: u8, port: u16) -> (target: String)
    ensures
        target@ == ipv4_text(a, b, c, d, port as nat),
{
    let mut target = String::new();
    push_decimal(&mut target, a as u16);
    push_char(&mut target, '.');
    push_decimal(&mut target, b as u16);
    push_char(&mut target, '.');
    push_decimal(&mut target, c as u16);
    push_char(&mut target, '.');
    push_decimal(&mut target, d as u16);
    push_char(&mut target, ':');
    push_decimal(&mut target, port);
    target
}

/// The dial target `domain:port` of a request by name.
pub fn domain_target(domain: &String, port: u16) -> (target: String)
    ensures
        target@ == domain_text(domain@, port as nat),
{
    let mut target = String::new();
    push_text(&mut target, domain.as_str());
    push_char(&mut target, ':');
    push_decimal(&mut target, port);
    target
}

/// The response to write once the dial has been tried.
pub fn dial_reply(connected: bool) -> (reply: Vec<u8>)
    ensures
        reply@ == dial_reply_bytes(connected),
{
    let status: u8 = if connected {
        0x00
    } else {
        0x04
    };
    let reply = vec![0x05u8, status, 0x00u8, 0x01u8, 0u8, 0u8, 0u8, 0u8, 0u8, 0u8];
    reply
}

fn quiet(next: Next) -> (step: Step)
    ensures
        step@ == silent(next@),
{
    let step = Step { reply: Vec::new(), next };
    step
}

fn answer(first: u8, second: u8, next: Next) -> (step: Step)
    ensures
        step@ == (StepView { reply: seq![first, second], next: next@ }),
{
    let step = Step { reply: vec![first, second], next };
    step
}

/// Takes one frame of the client and says what the responder does with it.
pub fn advance(phase: Phase, auth: &Option<AuthInfo>, input: &[u8]) -> (step: Step)
    requires
        input@.len() == expected(phase),
    ensures
        step@ == respond(phase, *auth, input@),
{
    match phase {
        Phase::Greeting => {
            if input[0] != SOCKS_VERSION {
                quiet(Next::Fail(SocksError::InvalidVersion))
            } else {
                quiet(Next::Read(Phase::Methods(input[1])))
            }
        },
        Phase::Methods(count) => {
            let method = select_method(auth.is_some(), input);
            if method == METHOD_NONE_ACCEPTABLE {
                answer(SOCKS_VERSION, method, Next::Fail(SocksError::NoSupportedMethod))
            } else if method == METHOD_USER_PASS {
                answer(SOCKS_VERSION, method, Next::Read(Phase::AuthHeader))
            } else {
                answer(SOCKS_VERSION, method, Next::Read(Phase::Request))
            }
        },
        Phase::AuthHeader => {
            if input[0] != AUTH_VERSION {
                quiet(Next::Fail(SocksError::InvalidAuthVersion))
            } else {
                quiet(Next::Read(Phase::AuthUser(input[1])))
            }
        },
        Phase::AuthUser(len) => {
            let user = decode_lossy(slice_subrange(input, 0, len as usize));
            let user_ok = user_matches(auth, &user);
            quiet(Next::Read(Phase::AuthPass { user_ok, len: input[len as usize] }))
        },
        Phase::AuthPass { user_ok, len } => {
            let pass = decode_lossy(input);
            if user_ok && pass_matches(auth, &pass) {
                answer(AUTH_VERSION, 0x00, Next::Read(Phase::Request))
            } else {
                answer(AUTH_VERSION, 0x01, Next::Fail(SocksError::AuthenticationFailed))
            }
        },
        Phase::Request => {
            if input[0] != SOCKS_VERSION {
                quiet(Next::Fail(SocksError::InvalidRequest))
            } else if input[1] != COMMAND_CONNECT {
                quiet(Next::Fail(SocksError::CommandNotSupported))
            } else if input[3] == ADDRESS_IPV4 {
                quiet(Next::Read(Phase::Ipv4Address))
            } else if input[3] == ADDRESS_DOMAIN {
                quiet(Next::Read(Phase::DomainLength))
            } else if input[3] == ADDRESS_IPV6 {
                quiet(Next::Fail(SocksError::Ipv6NotSupported))
            } else {
                quiet(Next::Fail(SocksError::AddressTypeNotSupported))
            }
        },
        Phase::Ipv4Address => {
            let port = port_of(input[4], input[5]);
            quiet(Next::Dial(ipv4_target(input[0], input[1], input[2], input[3], port)))
        },
        Phase::DomainLength => quiet(Next::Read(Phase::DomainAddress(input[0]))),
        Phase::DomainAddress(len) => {
            let domain = decode_lossy(slice_subrange(input, 0, len as usize));
            let port = port_of(input[len as usize], input[len as usize + 1]);
            quiet(Next::Dial(domain_target(&domain, port)))
        },
    }
}

/// How far a session has come on the bytes that the client has sent.
pub ghost enum Outcome {
    /// The frame of this phase is not complete yet.
    Waiting(Phase),
    /// The request is read; this target is to be dialled.
    Dial(Seq<char>),
    /// The session has ended with this error.
    Fail(SocksError),
}

/// A session on a stream of client bytes: all that the responder has written,
/// the number of bytes it has taken, and where it stands.
pub ghost struct Session {
    pub written: Seq<u8>,
    pub consumed: nat,
    pub outcome: Outcome,
}

/// The place of a phase in the order in which a session passes the phases.
pub open spec fn rank(phase: Phase) -> nat {
    match phase {
        Phase::Greeting => 0,
        Phase::Methods(_) => 1,
        Phase::AuthHeader => 2,
        Phase::AuthUser(_) => 3,
        Phase::AuthPass { .. } => 4,
        Phase::Request => 5,
        Phase::Ipv4Address => 6,
        Phase::DomainLength => 6,
        Phase::DomainAddress(_) => 7,
    }
}

/// The session of a responder that stands in `phase` and finds `stream`
/// waiting: it takes frame after frame as long as the stream holds a whole
/// one, and writes the reply to each.
pub open spec fn session_from(phase: Phase, auth: Option<AuthInfo>, stream: Seq<u8>) -> Session
    decreases 8 - rank(phase),
{
    let need = expected(phase) as int;
    if stream.len() < need {
        Session { written: Seq::empty(), consumed: 0, outcome: Outcome::Waiting(phase) }
    } else {
        let step = respond(phase, auth, stream.subrange(0, need));
        match step.next {
            NextView::Read(next) => if rank(next) > rank(phase) {
                let rest = session_from(next, auth, stream.subrange(need, stream.len() as int));
                Session {
                    written: step.reply + rest.written,
                    consumed: (need + rest.consumed) as nat,
                    outcome: rest.outcome,
                }
            } else {
                Session {
                    written: step.reply,
                    consumed: need as nat,
                    outcome: Outcome::Waiting(next),
                }
            },
            NextView::Dial(target) => Session {
                written: step.reply,
                consumed: need as nat,
                outcome: Outcome::Dial(target),
            },
            NextView::Fail(error) => Session {
                written: step.reply,
                consumed: need as nat,
                outcome: Outcome::Fail(error),
            },
        }
    }
}

/// The session of a fresh connection on a stream of client bytes.
pub open spec fn session(auth: Option<AuthInfo>, stream: Seq<u8>) -> Session {
    session_from(Phase::Greeting, auth, stream)
}

/// Whether `written` is a verdict of the sub-negotiation, `[0x01, status]`,
/// that starts at `at`.
pub open spec fn verdict_at(written: Seq<u8>, at: int, status: u8) -> bool {
    written.len() == at + 2 && written[at] == AUTH_VERSION && written[at + 1] == status
}

/// What a responder that starts in `phase` may have written, by the outcome.
pub open spec fn well_formed_from(phase: Phase, auth: Option<AuthInfo>, s: Session) -> bool {
    match phase {
        Phase::Greeting | Phase::Methods(_) => {
            &&& s.written.len() == 0 || s.written.len() == 2 || s.written.len() == 4
            &&& s.written.len() >= 2 ==> s.written[0] == SOCKS_VERSION && (s.written[1]
                == METHOD_NO_AUTH || s.written[1] == METHOD_USER_PASS || s.written[1]
                == METHOD_NONE_ACCEPTABLE)
            &&& s.written.len() >= 2 ==> (auth is Some <==> s.written[1] != METHOD_NO_AUTH)
            &&& s.written.len() == 4 ==> s.written[1] == METHOD_USER_PASS && (verdict_at(
                s.written,
                2,
                0x00,
            ) || verdict_at(s.written, 2, 0x01))
            &&& s.outcome is Dial ==> if auth is Some {
                s.written.len() == 4 && verdict_at(s.written, 2, 0x00)
            } else {
                s.written.len() == 2
            }
            &&& s.outcome == Outcome::Fail(SocksError::AuthenticationFailed) <==> s.written.len()
                == 4 && verdict_at(s.written, 2, 0x01)
            &&& s.outcome == Outcome::Fail(SocksError::NoSupportedMethod) <==> s.written.len() == 2
                && s.written[1] == METHOD_NONE_ACCEPTABLE
        },
        Phase::AuthHeader | Phase::AuthUser(_) | Phase::AuthPass { .. } => {
            &&& s.written.len() == 0 || verdict_at(s.written, 0, 0x00) || verdict_at(
                s.written,
                0,
                0x01,
            )
            &&& s.outcome is Dial ==> verdict_at(s.written, 0, 0x00)
            &&& s.outcome == Outcome::Fail(SocksError::AuthenticationFailed) <==> verdict_at(
                s.written,
                0,
                0x01,
            )
            &&& s.outcome != Outcome::Fail(SocksError::NoSupportedMethod)
        },
        _ => {
            &&& s.written.len() == 0
            &&& s.outcome != Outcome::Fail(SocksError::AuthenticationFailed)
            &&& s.outcome != Outcome::Fail(SocksError::NoSupportedMethod)
        },
    }
}

/// Every frame leads to a later phase: a session takes each phase at most
/// once and ends after nine frames at the latest.
pub proof fn lemma_phases_advance(phase: Phase, auth: Option<AuthInfo>, input: Seq<u8>)
    ensures
        respond(phase, auth, input).next matches NextView::Read(next) ==> rank(next) > rank(phase),
{
}

/// From whatever phase a responder starts and whatever the client sends,
/// what it writes is well formed.
pub proof fn lemma_well_formed_from(phase: Phase, auth: Option<AuthInfo>, stream: Seq<u8>)
    ensures
        well_formed_from(phase, auth, session_from(phase, auth, stream)),
    decreases 8 - rank(phase),
{
    let need = expected(phase) as int;
    if stream.len() >= need {
        let step = respond(phase, auth, stream.subrange(0, need));
        lemma_phases_advance(phase, auth, stream.subrange(0, need));
        match step.next {
            NextView::Read(next) => {
                lemma_well_formed_from(next, auth, stream.subrange(need, stream.len() as int));
            },
            _ => {},
        }
    }
}

/// Whatever bytes a client sends on a fresh connection, the responder writes
/// nothing, or a greeting reply `[0x05, method]`, or that reply followed by
/// one verdict `[0x01, status]`. With credentials configured the method is
/// never `0x00`, and a target is dialled only after the verdict
/// `[0x01, 0x00]`; without, the method is always `0x00`.
pub proof fn lemma_session_well_formed(auth: Option<AuthInfo>, stream: Seq<u8>)
    ensures
        well_formed_from(Phase::Greeting, auth, session(auth, stream)),
{
    lemma_well_formed_from(Phase::Greeting, auth, stream);
}

/// With credentials configured, no session reaches a dial unless the client
/// has offered method `0x02` and been told `[0x05, 0x02, 0x01, 0x00]`.
pub proof fn lemma_dial_needs_credentials(auth: AuthInfo, stream: Seq<u8>)
    requires
        session(Some(auth), stream).outcome is Dial,
    ensures
        session(Some(auth), stream).written == seq![
            SOCKS_VERSION,
            METHOD_USER_PASS,
            AUTH_VERSION,
            0x00u8,
        ],
{
    lemma_well_formed_from(Phase::Greeting, Some(auth), stream);
    assert(session(Some(auth), stream).written =~= seq![
        SOCKS_VERSION,
        METHOD_USER_PASS,
        AUTH_VERSION,
        0x00u8,
    ]);
}

/// Where a session on buffered bytes stands.
#[derive(Debug, PartialEq, Eq)]
pub enum Progress {
    /// The frame of this phase is not complete yet.
    Waiting(Phase),
    /// The request is read; this target is to be dialled.
    Dial(String),
    /// The session has ended with this error.
    Fail(SocksError),
}

/// A session on buffered bytes: what to write to the client, how many bytes
/// of the buffer are used up, and where the session stands.
#[derive(Debug, PartialEq, Eq)]
pub struct Answer {
    pub written: Vec<u8>,
    pub consumed: usize,
    pub progress: Progress,
}

impl View for Progress {
    type V = Outcome;

    open spec fn view(&self) -> Outcome {
        match *self {
            Progress::Waiting(phase) => Outcome::Waiting(phase),
            Progress::Dial(target) => Outcome::Dial(target@),
            Progress::Fail(error) => Outcome::Fail(error),
        }
    }
}

impl View for Answer {
    type V = Session;

    open spec fn view(&self) -> Session {
        Session {
            written: self.written@,
            consumed: self.consumed as nat,
            outcome: self.progress@,
        }
    }
}

/// The session that has written `written` and taken `consumed` bytes, and
/// then goes on as `rest`.
pub open spec fn continued(written: Seq<u8>, consumed: nat, rest: Session) -> Session {
    Session {
        written: written + rest.written,
        consumed: consumed + rest.consumed,
        outcome: rest.outcome,
    }
}

/// Answers the bytes that a client has sent on a fresh connection, as far as
/// they go: frame after frame, until a frame is incomplete, the target is
/// known, or the session fails.
pub fn negotiate(auth: &Option<AuthInfo>, stream: &[u8]) -> (answer: Answer)
    ensures
        answer@ == session(*auth, stream@),
{
    let mut phase = Phase::Greeting;
    let mut written: Vec<u8> = Vec::new();
    let mut consumed: usize = 0;
    proof {
        assert(stream@.subrange(0, stream@.len() as int) =~= stream@);
    }
    loop
        invariant
            consumed <= stream@.len(),
            session(*auth, stream@) == continued(
                written@,
                consumed as nat,
                session_from(phase, *auth, stream@.subrange(consumed as int, stream@.len() as int)),
            ),
        decreases 8 - rank(phase),
    {
        let need = phase.expects();
        let ghost rest = stream@.subrange(consumed as int, stream@.len() as int);
        if stream.len() - consumed < need {
            return Answer { written, consumed, progress: Progress::Waiting(phase) };
        }
        let frame = slice_subrange(stream, consumed, consumed + need);
        proof {
            assert(frame@ =~= rest.subrange(0, need as int));
            assert(rest.subrange(need as int, rest.len() as int) =~= stream@.subrange(
                consumed + need,
                stream@.len() as int,
            ));
        }
        let ghost before = written@;
        let Step { reply, next } = advance(phase, auth, frame);
        let mut reply = reply;
        let ghost said = reply@;
        written.append(&mut reply);
        consumed = consumed + need;
        match next {
            Next::Read(next_phase) => {
                proof {
                    let tail = session_from(
                        next_phase,
                        *auth,
                        stream@.subrange(consumed as int, stream@.len() as int),
                    );
                    assert(before + (said + tail.written) =~= (before + said) + tail.written);
                }
                phase = next_phase;
            },
            Next::Dial(target) => {
                return Answer { written, consumed, progress: Progress::Dial(target) };
            },
            Next::Fail(error) => {
                return Answer { written, consumed, progress: Progress::Fail(error) };
            },
        }
    }
}

/// What the user/password sub-negotiation ends in, after the frame with the
/// user name and the frame with the password.
pub open spec fn negotiated(auth: Option<AuthInfo>, user_frame: Seq<u8>, pass_frame: Seq<u8>)
    -> StepView
    recommends
        user_frame.len() > 0,
{
    let len = (user_frame.len() - 1) as u8;
    match respond(Phase::AuthUser(len), auth, user_frame).next {
        NextView::Read(phase) => respond(phase, auth, pass_frame),
        other => silent(other),
    }
}

/// The bytes a responder writes are of four forms only: nothing, a greeting
/// reply `[0x05, method]` with one of the three method bytes, and the two
/// verdicts `[0x01, 0x00]` and `[0x01, 0x01]` of the sub-negotiation. The
/// greeting reply comes in answer to the offered methods and nowhere else.
pub proof fn lemma_reply_forms(phase: Phase, auth: Option<AuthInfo>, input: Seq<u8>)
    ensures
        ({
            let reply = respond(phase, auth, input).reply;
            match phase {
                Phase::Methods(_) => reply == seq![
                    SOCKS_VERSION,
                    selected_method(auth is Some, input),
                ] && (reply[1] == METHOD_NO_AUTH || reply[1] == METHOD_USER_PASS || reply[1]
                    == METHOD_NONE_ACCEPTABLE),
                Phase::AuthPass { .. } => reply == seq![AUTH_VERSION, 0x00u8] || reply == seq![
                    AUTH_VERSION,
                    0x01u8,
                ],
                _ => reply == Seq::<u8>::empty(),
            }
        }),
{
}

/// With credentials configured, a greeting that does not offer method `0x02`
/// is answered with `[0x05, 0xFF]` and ends the session; one that offers it
/// is answered with `[0x05, 0x02]` and leads to the sub-negotiation.
pub proof fn lemma_credentials_demand_method(auth: AuthInfo, count: u8, offered: Seq<u8>)
    ensures
        !offered.contains(METHOD_USER_PASS) ==> respond(Phase::Methods(count), Some(auth), offered)
            == (StepView {
            reply: seq![SOCKS_VERSION, METHOD_NONE_ACCEPTABLE],
            next: NextView::Fail(SocksError::NoSupportedMethod),
        }),
        offered.contains(METHOD_USER_PASS) ==> respond(Phase::Methods(count), Some(auth), offered)
            == (StepView {
            reply: seq![SOCKS_VERSION, METHOD_USER_PASS],
            next: NextView::Read(Phase::AuthHeader),
        }),
{
}

/// Without credentials every greeting is answered with `[0x05, 0x00]` and
/// leads to the request.
pub proof fn lemma_open_access(count: u8, offered: Seq<u8>)
    ensures
        respond(Phase::Methods(count), None, offered) == (StepView {
            reply: seq![SOCKS_VERSION, METHOD_NO_AUTH],
            next: NextView::Read(Phase::Request),
        }),
{
}

/// With credentials configured, the sub-negotiation answers `[0x01, 0x00]`
/// and goes on to the request exactly when the presented user name and
/// password decode to the configured ones; in every other case it answers
/// `[0x01, 0x01]` and ends the session with `AuthenticationFailed`.
pub proof fn lemma_auth_correct(auth: AuthInfo, user_frame: Seq<u8>, pass_frame: Seq<u8>)
    requires
        0 < user_frame.len() <= 256,
    ensures
        ({
            let len = user_frame.len() - 1;
            let matching = lossy_text(user_frame.subrange(0, len)) == auth.user@ && lossy_text(
                pass_frame,
            ) == auth.pass@;
            negotiated(Some(auth), user_frame, pass_frame) == if matching {
                StepView {
                    reply: seq![AUTH_VERSION, 0x00u8],
                    next: NextView::Read(Phase::Request),
                }
            } else {
                StepView {
                    reply: seq![AUTH_VERSION, 0x01u8],
                    next: NextView::Fail(SocksError::AuthenticationFailed),
                }
            }
        }),
{
}

/// A responder without credentials never accepts a sub-negotiation.
pub proof fn lemma_no_credentials_no_match(user_frame: Seq<u8>, pass_frame: Seq<u8>)
    ensures
        negotiated(None, user_frame, pass_frame).next == NextView::Fail(
            SocksError::AuthenticationFailed,
        ),
{
}

} // verus!

//! Where the broker's address and login come from: the configuration, or a
//! supervisor that was asked for them over HTTP.
//!
//! The request itself is made elsewhere. What came back is handed in as a
//! [`SupervisorReply`], and [`resolve`] decides what to make of it.

use vstd::prelude::*;
use vstd::string::*;
use vstd::utf8::*;
use crate::config::{text_of, BridgeConfig, BridgeConfigView};
use crate::error::ErrorKind;

verus! {

/// The HTTP status with which the supervisor hands out broker settings.
pub const STATUS_OK: u16 = 200;

/// The record in which a supervisor describes the broker. The port is text.
#[derive(Clone, PartialEq, Eq, Debug)]
pub struct BrokerDescriptor {
    pub host: String,
    pub port: String,
    pub username: String,
    pub password: String,
}

/// Mathematical model of a [`BrokerDescriptor`].
pub struct BrokerDescriptorView {
    pub host: Seq<char>,
    pub port: Seq<char>,
    pub username: Seq<char>,
    pub password: Seq<char>,
}

impl View for BrokerDescriptor {
    type V = BrokerDescriptorView;

    open spec fn view(&self) -> BrokerDescriptorView {
        BrokerDescriptorView {
            host: self.host@,
            port: self.port@,
            username: self.username@,
            password: self.password@,
        }
    }
}

/// What the supervisor answered.
#[derive(Clone, PartialEq, Eq, Debug)]
pub struct SupervisorReply {
    /// HTTP status of the answer.
    pub status: u16,
    /// The record in its body, if the body held one.
    pub descriptor: Option<BrokerDescriptor>,
}

/// Mathematical model of a [`SupervisorReply`].
pub struct SupervisorReplyView {
    pub status: u16,
    pub descriptor: Option<BrokerDescriptorView>,
}

impl View for SupervisorReply {
    type V = SupervisorReplyView;

    open spec fn view(&self) -> SupervisorReplyView {
        SupervisorReplyView {
            status: self.status,
            descriptor: match self.descriptor {
                Some(d) => Some(d@),
                None => None,
            },
        }
    }
}

/// Where the broker settings are taken from. It is decided once, at startup.
#[derive(Clone, PartialEq, Eq, Debug)]
pub enum CredentialSource {
    /// From the configuration.
    Static,
    /// From the supervisor, which gave this answer.
    SupervisorDiscovered(SupervisorReply),
}

/// Mathematical model of a [`CredentialSource`].
pub enum CredentialSourceView {
    Static,
    SupervisorDiscovered(SupervisorReplyView),
}

impl View for CredentialSource {
    type V = CredentialSourceView;

    open spec fn view(&self) -> CredentialSourceView {
        match self {
            CredentialSource::Static => CredentialSourceView::Static,
            CredentialSource::SupervisorDiscovered(reply) => {
                CredentialSourceView::SupervisorDiscovered(reply@)
            },
        }
    }
}

/// Broker settings with nothing left open.
#[derive(Clone, PartialEq, Eq, Debug)]
pub struct ResolvedBrokerCredentials {
    pub host: String,
    pub port: u16,
    pub username: String,
    pub password: String,
}

/// Mathematical model of [`ResolvedBrokerCredentials`].
pub struct CredentialsView {
    pub host: Seq<char>,
    pub port: u16,
    pub username: Seq<char>,
    pub password: Seq<char>,
}

impl View for ResolvedBrokerCredentials {
    type V = CredentialsView;

    open spec fn view(&self) -> CredentialsView {
        CredentialsView {
            host: self.host@,
            port: self.port,
            username: self.username@,
            password: self.password@,
        }
    }
}

/// One of the four broker settings.
#[derive(Clone, Copy, PartialEq, Eq, Debug, Structural)]
pub enum CredentialField {
    Host,
    Port,
    Username,
    Password,
}

/// Why no broker settings could be had.
#[derive(Clone, Copy, PartialEq, Eq, Debug, Structural)]
pub enum ResolveError {
    /// This setting is not configured. Of several, the first in the order
    /// host, port, user name, password is named.
    MissingCredential(CredentialField),
    /// The supervisor answered with this status, which is not success.
    SupervisorStatus(u16),
    /// The supervisor's answer held no broker record.
    MalformedDescriptor,
    /// The port in the supervisor's record is no number from 0 to 65535.
    InvalidPort,
}

impl ResolveError {
    /// The class of this failure.
    pub open spec fn kind_spec(self) -> ErrorKind {
        match self {
            ResolveError::MissingCredential(_) => ErrorKind::Configuration,
            _ => ErrorKind::Resolution,
        }
    }

    /// The class of this failure: a missing setting is a fault of the
    /// configuration, everything else one of the resolution.
    pub fn kind(self) -> (kind: ErrorKind)
        ensures
            kind == self.kind_spec(),
    {
        match self {
            ResolveError::MissingCredential(_) => ErrorKind::Configuration,
            _ => ErrorKind::Resolution,
        }
    }
}

/// The request with which the supervisor is asked for the broker settings:
/// a GET of `url` with `authorization` as its `Authorization` header.
#[derive(Clone, PartialEq, Eq, Debug)]
pub struct SupervisorRequest {
    pub url: String,
    pub authorization: String,
}

/// Mathematical model of a [`SupervisorRequest`].
pub struct SupervisorRequestView {
    pub url: Seq<char>,
    pub authorization: Seq<char>,
}

impl View for SupervisorRequest {
    type V = SupervisorRequestView;

    open spec fn view(&self) -> SupervisorRequestView {
        SupervisorRequestView { url: self.url@, authorization: self.authorization@ }
    }
}

/// The request for a supervisor that handed out `token`.
pub open spec fn supervisor_request_spec(token: Seq<char>) -> SupervisorRequestView {
    SupervisorRequestView {
        url: "http://supervisor/services/mqtt"@,
        authorization: "Bearer "@ + token,
    }
}

/// The request to make of the supervisor. It is the same for every bridge
/// but for the token, which is presented as a bearer token.
pub fn supervisor_request(token: &str) -> (request: SupervisorRequest)
    ensures
        request@ == supervisor_request_spec(token@),
{
    let mut authorization = String::from_str("Bearer ");
    authorization.append(token);
    SupervisorRequest { url: String::from_str("http://supervisor/services/mqtt"), authorization }
}

/// `c` is one of the digits `0` to `9`.
pub open spec fn is_digit(c: char) -> bool {
    '0' <= c <= '9'
}

/// Every character of `text` is a digit.
pub open spec fn all_digits(text: Seq<char>) -> bool {
    forall|i: int| 0 <= i < text.len() ==> is_digit(#[trigger] text[i])
}

/// The number that a sequence of digits writes in base ten.
pub open spec fn decimal_value(digits: Seq<char>) -> nat
    decreases digits.len(),
{
    if digits.len() == 0 {
        0
    } else {
        (10 * decimal_value(digits.drop_last()) + (digits.last() as nat - '0' as nat)) as nat
    }
}

/// `text` without the one plus sign that may lead it.
pub open spec fn unsigned_part(text: Seq<char>) -> Seq<char> {
    if text.len() > 0 && text[0] == '+' {
        text.subrange(1, text.len() as int)
    } else {
        text
    }
}

/// The port that `text` writes: one or more digits, after at most one plus
/// sign, with nothing else before, between or after, whose value fits in 16
/// bits. Leading zeros do not count against the size.
pub open spec fn port_spec(text: Seq<char>) -> Option<u16> {
    let digits = unsigned_part(text);
    if digits.len() > 0 && all_digits(digits) && decimal_value(digits) <= u16::MAX {
        Some(decimal_value(digits) as u16)
    } else {
        None
    }
}

/// Of the four settings, the first that is missing.
pub open spec fn first_missing(
    host: Option<Seq<char>>,
    port: Option<u16>,
    username: Option<Seq<char>>,
    password: Option<Seq<char>>,
) -> Option<CredentialField> {
    if host is None {
        Some(CredentialField::Host)
    } else if port is None {
        Some(CredentialField::Port)
    } else if username is None {
        Some(CredentialField::Username)
    } else if password is None {
        Some(CredentialField::Password)
    } else {
        None
    }
}

/// Complete settings from four optional ones, or the first that is missing.
pub open spec fn complete_spec(
    host: Option<Seq<char>>,
    port: Option<u16>,
    username: Option<Seq<char>>,
    password: Option<Seq<char>>,
) -> Result<CredentialsView, ResolveError> {
    match first_missing(host, port, username, password) {
        Some(field) => Err(ResolveError::MissingCredential(field)),
        None => Ok(
            CredentialsView {
                host: host->0,
                port: port->0,
                username: username->0,
                password: password->0,
            },
        ),
    }
}

/// What [`resolve`] returns.
pub open spec fn resolve_spec(config: BridgeConfigView, source: CredentialSourceView) -> Result<
    CredentialsView,
    ResolveError,
> {
    match source {
        CredentialSourceView::Static => complete_spec(
            config.broker_host,
            config.broker_port,
            config.broker_username,
            config.broker_password,
        ),
        CredentialSourceView::SupervisorDiscovered(reply) => if reply.status != STATUS_OK {
            Err(ResolveError::SupervisorStatus(reply.status))
        } else {
            match reply.descriptor {
                None => Err(ResolveError::MalformedDescriptor),
                Some(d) => match port_spec(d.port) {
                    None => Err(ResolveError::InvalidPort),
                    Some(port) => complete_spec(
                        Some(d.host),
                        Some(port),
                        Some(d.username),
                        Some(d.password),
                    ),
                },
            }
        },
    }
}

/// The value of a prefix of digits is at most the value of the whole.
proof fn lemma_prefix_value(digits: Seq<char>, k: int)
    requires
        0 <= k <= digits.len(),
        all_digits(digits),
    ensures
        decimal_value(digits.subrange(0, k)) <= decimal_value(digits),
    decreases digits.len() - k,
{
    if k == digits.len() {
        assert(digits.subrange(0, k) =~= digits);
    } else {
        let shorter = digits.drop_last();
        assert(is_digit(digits[digits.len() - 1]));
        assert(all_digits(shorter)) by {
            assert forall|i: int| 0 <= i < shorter.len() implies is_digit(#[trigger] shorter[i]) by {
                assert(shorter[i] == digits[i]);
            }
        }
        assert(shorter.subrange(0, k) =~= digits.subrange(0, k));
        lemma_prefix_value(shorter, k);
    }
}

/// Text with a character beyond ASCII in it writes no port.
proof fn lemma_not_ascii_no_port(text: Seq<char>)
    requires
        !is_ascii_chars(text),
    ensures
        port_spec(text) is None,
{
    let i = choose|i: int| 0 <= i < text.len() && !('\0' <= #[trigger] text[i] <= '\u{7f}');
    let digits = unsigned_part(text);
    if text[0] == '+' {
        assert(i > 0);
        assert(digits[i - 1] == text[i]);
        assert(!is_digit(digits[i - 1]));
    } else {
        assert(!is_digit(digits[i]));
    }
}

/// An ASCII character and the byte that stands for it.
proof fn lemma_ascii_byte(c: char)
    requires
        '\0' <= c <= '\u{7f}',
    ensures
        (c as u8) as int == c as int,
        is_digit(c) <==> 48 <= c as u8 <= 57,
        c == '+' <==> c as u8 == 43,
        '0' as int == 48,
{
}

/// Reads a port number. Accepts what `str::parse::<u16>` accepts.
pub fn parse_port(text: &str) -> (port: Option<u16>)
    ensures
        port == port_spec(text@),
{
    if !text.is_ascii() {
        proof {
            lemma_not_ascii_no_port(text@);
        }
        return None;
    }
    proof {
        is_ascii_spec_bytes(text);
        if text@.len() > 0 {
            lemma_ascii_byte(text@[0]);
        }
    }
    let bytes = text.as_bytes();
    let n = bytes.len();
    assert(n == text@.len());
    assert(forall|k: int| 0 <= k < n ==> #[trigger] bytes@[k] == text@[k] as u8);
    let start: usize = if n > 0 && bytes[0] == 43u8 {
        1
    } else {
        0
    };
    let ghost digits = unsigned_part(text@);
    assert(digits == text@.subrange(start as int, n as int)) by {
        if start == 0 {
            assert(text@.subrange(0, n as int) =~= text@);
        }
    }
    if start == n {
        return None;
    }
    let mut value: u32 = 0;
    let mut i: usize = start;
    assert(digits.subrange(0, 0) =~= Seq::<char>::empty());
    while i < n
        invariant
            start <= i <= n,
            n == text@.len(),
            n == bytes@.len(),
            forall|k: int| 0 <= k < n ==> #[trigger] bytes@[k] == text@[k] as u8,
            digits == text@.subrange(start as int, n as int),
            digits == unsigned_part(text@),
            digits.len() > 0,
            all_digits(digits.subrange(0, i - start)),
            value == decimal_value(digits.subrange(0, i - start)),
            value <= u16::MAX,
            is_ascii_chars(text@),
        decreases n - i,
    {
        let byte = bytes[i];
        let ghost c = text@[i as int];
        let ghost before = digits.subrange(0, i - start);
        let ghost upto = digits.subrange(0, i - start + 1);
        assert(digits[i - start] == c);
        assert(byte == bytes@[i as int]);
        proof {
            lemma_ascii_byte(c);
        }
        if byte < 48 || byte > 57 {
            assert(!is_digit(digits[i - start]));
            return None;
        }
        assert(is_digit(c));
        assert(upto.drop_last() =~= before);
        assert(upto.last() == c);
        assert(all_digits(upto)) by {
            assert forall|k: int| 0 <= k < upto.len() implies is_digit(#[trigger] upto[k]) by {
                if k < before.len() {
                    assert(upto[k] == before[k]);
                }
            }
        }
        assert(c as nat - '0' as nat == byte - 48);
        value = value * 10 + (byte - 48) as u32;
        assert(value == decimal_value(upto));
        if value > 0xffff {
            proof {
                if all_digits(digits) {
                    lemma_prefix_value(digits, i - start + 1);
                }
            }
            return None;
        }
        i += 1;
    }
    assert(digits.subrange(0, i - start) =~= digits);
    Some(value as u16)
}

/// Fills in broker settings from four optional ones.
fn complete(
    host: Option<String>,
    port: Option<u16>,
    username: Option<String>,
    password: Option<String>,
) -> (resolved: Result<ResolvedBrokerCredentials, ResolveError>)
    ensures
        resolved is Ok <==> complete_spec(text_of(host), port, text_of(username), text_of(password))
            is Ok,
        resolved matches Ok(c) ==> Ok::<CredentialsView, ResolveError>(c@) == complete_spec(
            text_of(host),
            port,
            text_of(username),
            text_of(password),
        ),
        resolved matches Err(e) ==> Err::<CredentialsView, ResolveError>(e) == complete_spec(
            text_of(host),
            port,
            text_of(username),
            text_of(password),
        ),
{
    let host = match host {
        Some(host) => host,
        None => { return Err(ResolveError::MissingCredential(CredentialField::Host)); },
    };
    let port = match port {
        Some(port) => port,
        None => { return Err(ResolveError::MissingCredential(CredentialField::Port)); },
    };
    let username = match username {
        Some(username) => username,
        None => { return Err(ResolveError::MissingCredential(CredentialField::Username)); },
    };
    let password = match password {
        Some(password) => password,
        None => { return Err(ResolveError::MissingCredential(CredentialField::Password)); },
    };
    Ok(ResolvedBrokerCredentials { host, port, username, password })
}

/// A copy of an optional string.
fn copy_text(value: &Option<String>) -> (copy: Option<String>)
    ensures
        text_of(copy) == text_of(*value),
{
    match value {
        Some(text) => Some(text.clone()),
        None => None,
    }
}

/// The model of a result of [`resolve`].
pub open spec fn resolved_view(resolved: Result<ResolvedBrokerCredentials, ResolveError>) -> Result<
    CredentialsView,
    ResolveError,
> {
    match resolved {
        Ok(c) => Ok(c@),
        Err(e) => Err(e),
    }
}

/// Determines the broker settings of a bridge.
///
/// From the configuration, all four settings must be there. From the
/// supervisor, the answer must have status 200 and hold a record whose port
/// is a number; the configuration's own settings are then not looked at.
pub fn resolve(config: &BridgeConfig, source: CredentialSource) -> (resolved: Result<
    ResolvedBrokerCredentials,
    ResolveError,
>)
    ensures
        resolved_view(resolved) == resolve_spec(config@, source@),
{
    match source {
        CredentialSource::Static => complete(
            copy_text(&config.broker_host),
            config.broker_port,
            copy_text(&config.broker_username),
            copy_text(&config.broker_password),
        ),
        CredentialSource::SupervisorDiscovered(reply) => {
            if reply.status != STATUS_OK {
                return Err(ResolveError::SupervisorStatus(reply.status));
            }
            match reply.descriptor {
                None => Err(ResolveError::MalformedDescriptor),
                Some(d) => match parse_port(d.port.as_str()) {
                    None => Err(ResolveError::InvalidPort),
                    Some(port) => complete(
                        Some(d.host),
                        Some(port),
                        Some(d.username),
                        Some(d.password),
                    ),
                },
            }
        },
    }
}

/// With all four broker settings configured and no supervisor involved, the
/// settings are taken over unchanged.
pub proof fn lemma_static_resolution(config: BridgeConfigView)
    requires
        config.broker_host is Some,
        config.broker_port is Some,
        config.broker_username is Some,
        config.broker_password is Some,
    ensures
        resolve_spec(config, CredentialSourceView::Static) == Ok::<CredentialsView, ResolveError>(
            CredentialsView {
                host: config.broker_host->0,
                port: config.broker_port->0,
                username: config.broker_username->0,
                password: config.broker_password->0,
            },
        ),
{
}

/// Without a supervisor, resolution fails exactly when a setting is missing,
/// and it names the first one that is.
pub proof fn lemma_static_missing(config: BridgeConfigView)
    ensures
        resolve_spec(config, CredentialSourceView::Static) is Err <==> (config.broker_host is None
            || config.broker_port is None || config.broker_username is None
            || config.broker_password is None),
        resolve_spec(config, CredentialSourceView::Static) matches Err(e) ==> e.kind_spec()
            == ErrorKind::Configuration && e == ResolveError::MissingCredential(
            first_missing(
                config.broker_host,
                config.broker_port,
                config.broker_username,
                config.broker_password,
            )->0,
        ),
{
}

/// What a supervisor's answer leads to, whatever the configuration holds:
/// any status but 200 is an error that carries the status; with status 200,
/// a missing record and a port that is no number are errors; otherwise the
/// record's settings are the result, with the port as a number.
pub proof fn lemma_supervisor_resolution(config: BridgeConfigView, reply: SupervisorReplyView)
    ensures
        reply.status != 200 ==> resolve_spec(config, CredentialSourceView::SupervisorDiscovered(reply))
            == Err::<CredentialsView, ResolveError>(ResolveError::SupervisorStatus(reply.status)),
        reply.status == 200 && reply.descriptor is None ==> resolve_spec(
            config,
            CredentialSourceView::SupervisorDiscovered(reply),
        ) == Err::<CredentialsView, ResolveError>(ResolveError::MalformedDescriptor),
        reply.status == 200 && reply.descriptor is Some && port_spec(reply.descriptor->0.port)
            is None ==> resolve_spec(config, CredentialSourceView::SupervisorDiscovered(reply))
            == Err::<CredentialsView, ResolveError>(ResolveError::InvalidPort),
        reply.status == 200 && reply.descriptor is Some && port_spec(reply.descriptor->0.port)
            is Some ==> resolve_spec(config, CredentialSourceView::SupervisorDiscovered(reply))
            == Ok::<CredentialsView, ResolveError>(
            CredentialsView {
                host: reply.descriptor->0.host,
                port: port_spec(reply.descriptor->0.port)->0,
                username: reply.descriptor->0.username,
                password: reply.descriptor->0.password,
            },
        ),
        resolve_spec(config, CredentialSourceView::SupervisorDiscovered(reply)) matches Err(e)
            ==> e.kind_spec() == ErrorKind::Resolution,
{
}

/// Text that holds anything but digits after its optional plus sign, or
/// nothing at all, writes no port.
pub proof fn lemma_port_needs_digits(text: Seq<char>, i: int)
    requires
        unsigned_part(text).len() == 0 || (0 <= i < unsigned_part(text).len() && !is_digit(
            unsigned_part(text)[i],
        )),
    ensures
        port_spec(text) is None,
{
}

} // verus!

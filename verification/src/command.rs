//! Translation of an inbound payload into a door-control request, and of the
//! controller's answer into the state to publish.
//!
//! Talking to the controller is not done here. [`translate`] says whether the
//! controller has to be asked and what; [`conclude`] takes its answer and
//! gives the outcome of the command.

use vstd::prelude::*;
use vstd::string::*;
use vstd::utf8::*;

verus! {

/// Seconds that a door-control request stays in force at the controller.
pub const DOOR_DELAY_SECS: u64 = 5;

/// A command that the bridge understands.
#[derive(Clone, Copy, PartialEq, Eq, Debug, Structural)]
pub enum Command {
    /// The payload `LOCK`.
    Lock,
    /// The payload `UNLOCK`.
    Unlock,
}

/// How the controller treats a door.
#[derive(Clone, Copy, PartialEq, Eq, Debug, Structural)]
pub enum DoorMode {
    /// The door opens for an accepted credential only.
    Controlled,
    /// The door is held open.
    NormallyOpen,
}

/// One door-control call to make on the controller.
#[derive(Clone, Copy, PartialEq, Eq, Debug, Structural)]
pub struct DoorRequest {
    /// Number of the door on the controller.
    pub door: u8,
    /// Mode to put the door in.
    pub mode: DoorMode,
    /// Delay handed to the controller, in seconds.
    pub delay_secs: u64,
}

/// What a payload says.
#[derive(Clone, Copy, PartialEq, Eq, Debug, Structural)]
pub enum Decoded {
    /// Exactly one of the two command words.
    Known(Command),
    /// Well-formed text that is no command word.
    Unknown,
    /// Not UTF-8.
    Malformed,
}

/// Why a command had no effect that could be published.
#[derive(Clone, PartialEq, Eq, Debug)]
pub enum CommandError {
    /// The payload was not UTF-8.
    MalformedPayload,
    /// The controller refused or could not be reached; the text is its cause.
    DeviceFailure(String),
}

/// Mathematical model of a [`CommandError`].
pub enum CommandErrorView {
    MalformedPayload,
    DeviceFailure(Seq<char>),
}

impl View for CommandError {
    type V = CommandErrorView;

    open spec fn view(&self) -> CommandErrorView {
        match self {
            CommandError::MalformedPayload => CommandErrorView::MalformedPayload,
            CommandError::DeviceFailure(cause) => CommandErrorView::DeviceFailure(cause@),
        }
    }
}

/// How the handling of one inbound payload ended.
#[derive(Clone, PartialEq, Eq, Debug)]
pub enum CommandOutcome {
    /// The door is in controlled mode.
    Locked,
    /// The door is held open.
    Unlocked,
    /// The payload was no command; nothing was done.
    Ignored,
    /// Nothing can be published.
    Error(CommandError),
}

/// Mathematical model of a [`CommandOutcome`].
pub enum CommandOutcomeView {
    Locked,
    Unlocked,
    Ignored,
    Error(CommandErrorView),
}

impl View for CommandOutcome {
    type V = CommandOutcomeView;

    open spec fn view(&self) -> CommandOutcomeView {
        match self {
            CommandOutcome::Locked => CommandOutcomeView::Locked,
            CommandOutcome::Unlocked => CommandOutcomeView::Unlocked,
            CommandOutcome::Ignored => CommandOutcomeView::Ignored,
            CommandOutcome::Error(e) => CommandOutcomeView::Error(e@),
        }
    }
}

/// First half of a translation: either the controller has to be asked, or
/// the outcome is known without it.
#[derive(Clone, PartialEq, Eq, Debug)]
pub enum Translation {
    /// Make this call, then hand its result to [`conclude`].
    Invoke(DoorRequest),
    /// The controller is not involved.
    Settled(CommandOutcome),
}

/// Mathematical model of a [`Translation`].
pub enum TranslationView {
    Invoke(DoorRequest),
    Settled(CommandOutcomeView),
}

impl View for Translation {
    type V = TranslationView;

    open spec fn view(&self) -> TranslationView {
        match self {
            Translation::Invoke(request) => TranslationView::Invoke(*request),
            Translation::Settled(outcome) => TranslationView::Settled(outcome@),
        }
    }
}

/// The text that `payload` encodes, if it is UTF-8.
pub open spec fn payload_text(payload: Seq<u8>) -> Option<Seq<char>> {
    if valid_utf8(payload) {
        Some(decode_utf8(payload))
    } else {
        None
    }
}

/// What a payload says: a command only where its text is exactly the command
/// word, in upper case and with nothing around it.
pub open spec fn decode_spec(payload: Seq<u8>) -> Decoded {
    match payload_text(payload) {
        None => Decoded::Malformed,
        Some(text) => if text == "LOCK"@ {
            Decoded::Known(Command::Lock)
        } else if text == "UNLOCK"@ {
            Decoded::Known(Command::Unlock)
        } else {
            Decoded::Unknown
        },
    }
}

/// The mode that carries out a command.
pub open spec fn mode_spec(command: Command) -> DoorMode {
    match command {
        Command::Lock => DoorMode::Controlled,
        Command::Unlock => DoorMode::NormallyOpen,
    }
}

/// The call that carries out `command` on door `door`.
pub open spec fn request_spec(door: u8, command: Command) -> DoorRequest {
    DoorRequest { door, mode: mode_spec(command), delay_secs: DOOR_DELAY_SECS }
}

/// What [`translate`] returns.
pub open spec fn translate_spec(door: u8, payload: Seq<u8>) -> TranslationView {
    match decode_spec(payload) {
        Decoded::Known(command) => TranslationView::Invoke(request_spec(door, command)),
        Decoded::Unknown => TranslationView::Settled(CommandOutcomeView::Ignored),
        Decoded::Malformed => TranslationView::Settled(
            CommandOutcomeView::Error(CommandErrorView::MalformedPayload),
        ),
    }
}

/// What [`conclude`] returns: `failure` is the cause for which the call
/// failed, `None` where it succeeded.
pub open spec fn conclude_spec(command: Command, failure: Option<Seq<char>>) -> CommandOutcomeView {
    match failure {
        Some(cause) => CommandOutcomeView::Error(CommandErrorView::DeviceFailure(cause)),
        None => match command {
            Command::Lock => CommandOutcomeView::Locked,
            Command::Unlock => CommandOutcomeView::Unlocked,
        },
    }
}

/// The whole translation of one payload. `failure` is what the controller
/// would answer if it were asked.
pub open spec fn outcome_spec(payload: Seq<u8>, failure: Option<Seq<char>>) -> CommandOutcomeView {
    match decode_spec(payload) {
        Decoded::Known(command) => conclude_spec(command, failure),
        Decoded::Unknown => CommandOutcomeView::Ignored,
        Decoded::Malformed => CommandOutcomeView::Error(CommandErrorView::MalformedPayload),
    }
}

/// The state published after a command was carried out.
pub open spec fn state_label_spec(command: Command) -> Seq<char> {
    match command {
        Command::Lock => "LOCKED"@,
        Command::Unlock => "UNLOCKED"@,
    }
}

/// The state label of an outcome, where it has one.
pub open spec fn label_spec(outcome: CommandOutcomeView) -> Option<Seq<char>> {
    match outcome {
        CommandOutcomeView::Locked => Some("LOCKED"@),
        CommandOutcomeView::Unlocked => Some("UNLOCKED"@),
        _ => None,
    }
}

/// A byte sequence is the UTF-8 form of `text` exactly when it is UTF-8 and
/// decodes to `text`.
pub proof fn lemma_text_bytes(payload: Seq<u8>, text: Seq<char>)
    ensures
        payload == encode_utf8(text) <==> payload_text(payload) == Some(text),
{
    if payload == encode_utf8(text) {
        encode_utf8_valid_utf8(text);
        encode_utf8_decode_utf8(text);
    }
    if valid_utf8(payload) {
        decode_utf8_encode_utf8(payload);
    }
}

/// Whether `bytes` is well-formed UTF-8.
///
/// Calls `std::str::from_utf8`, which returns `Ok` exactly for the byte
/// slices that are valid UTF-8. The contract takes `vstd`'s definition of
/// valid UTF-8 for the one that the standard library checks.
#[verifier::external_body]
fn is_utf8(bytes: &[u8]) -> (valid: bool)
    ensures
        valid == valid_utf8(bytes@),
{
    std::str::from_utf8(bytes).is_ok()
}

/// Whether `payload` is the UTF-8 form of `word`.
pub fn spells(payload: &[u8], word: &str) -> (same: bool)
    ensures
        same == (payload@ == encode_utf8(word@)),
        same == (payload_text(payload@) == Some(word@)),
{
    proof {
        lemma_text_bytes(payload@, word@);
    }
    let expected = word.as_bytes();
    if payload.len() != expected.len() {
        return false;
    }
    let mut i: usize = 0;
    while i < payload.len()
        invariant
            i <= payload.len(),
            payload.len() == expected.len(),
            expected@ == encode_utf8(word@),
            (payload@ == encode_utf8(word@)) == (payload_text(payload@) == Some(word@)),
            forall|k: int| 0 <= k < i ==> payload@[k] == expected@[k],
        decreases payload.len() - i,
    {
        if payload[i] != expected[i] {
            return false;
        }
        i += 1;
    }
    assert(payload@ =~= expected@);
    true
}

/// Decodes a payload.
pub fn decode(payload: &[u8]) -> (decoded: Decoded)
    ensures
        decoded == decode_spec(payload@),
{
    if spells(payload, "LOCK") {
        Decoded::Known(Command::Lock)
    } else if spells(payload, "UNLOCK") {
        Decoded::Known(Command::Unlock)
    } else if is_utf8(payload) {
        Decoded::Unknown
    } else {
        Decoded::Malformed
    }
}

impl Command {
    /// The mode that carries out this command.
    pub fn mode(self) -> (mode: DoorMode)
        ensures
            mode == mode_spec(self),
    {
        match self {
            Command::Lock => DoorMode::Controlled,
            Command::Unlock => DoorMode::NormallyOpen,
        }
    }

    /// The call that carries out this command on door `door`.
    pub fn request(self, door: u8) -> (request: DoorRequest)
        ensures
            request == request_spec(door, self),
    {
        DoorRequest { door, mode: self.mode(), delay_secs: DOOR_DELAY_SECS }
    }

    /// The state to publish once this command was carried out.
    pub fn state_label(self) -> (label: &'static str)
        ensures
            label@ == state_label_spec(self),
    {
        match self {
            Command::Lock => "LOCKED",
            Command::Unlock => "UNLOCKED",
        }
    }
}

impl DoorRequest {
    /// The command that this request carries out.
    pub fn command(&self) -> (command: Command)
        ensures
            mode_spec(command) == self.mode,
    {
        match self.mode {
            DoorMode::Controlled => Command::Lock,
            DoorMode::NormallyOpen => Command::Unlock,
        }
    }
}

/// Translates a payload from the command topic for door `door`.
///
/// `LOCK` and `UNLOCK` ask for a call on the controller; any other text is
/// ignored, and bytes that are no text are an error. Only the first case
/// involves the controller.
pub fn translate(door: u8, payload: &[u8]) -> (translation: Translation)
    ensures
        translation@ == translate_spec(door, payload@),
{
    match decode(payload) {
        Decoded::Known(command) => Translation::Invoke(command.request(door)),
        Decoded::Unknown => Translation::Settled(CommandOutcome::Ignored),
        Decoded::Malformed => Translation::Settled(
            CommandOutcome::Error(CommandError::MalformedPayload),
        ),
    }
}

/// The failure that a controller's answer carries, `None` for success.
pub open spec fn failure_of(reply: Result<(), String>) -> Option<Seq<char>> {
    match reply {
        Ok(_) => None,
        Err(cause) => Some(cause@),
    }
}

/// Finishes a translation with the controller's answer to the call that
/// [`translate`] asked for.
pub fn conclude(command: Command, reply: Result<(), String>) -> (outcome: CommandOutcome)
    ensures
        outcome@ == conclude_spec(command, failure_of(reply)),
{
    match reply {
        Err(cause) => CommandOutcome::Error(CommandError::DeviceFailure(cause)),
        Ok(_) => match command {
            Command::Lock => CommandOutcome::Locked,
            Command::Unlock => CommandOutcome::Unlocked,
        },
    }
}

impl CommandOutcome {
    /// The state to publish for this outcome, if there is one.
    pub fn label(&self) -> (label: Option<&'static str>)
        ensures
            label is Some <==> label_spec(self@) is Some,
            label matches Some(text) ==> Some(text@) == label_spec(self@),
    {
        match self {
            CommandOutcome::Locked => Some("LOCKED"),
            CommandOutcome::Unlocked => Some("UNLOCKED"),
            _ => None,
        }
    }
}

/// The two command words as bytes.
pub proof fn lemma_command_words()
    ensures
        encode_utf8("LOCK"@) == seq![0x4cu8, 0x4f, 0x43, 0x4b],
        encode_utf8("UNLOCK"@) == seq![0x55u8, 0x4e, 0x4c, 0x4f, 0x43, 0x4b],
        "LOCK"@ != "UNLOCK"@,
{
    reveal_strlit("LOCK");
    reveal_strlit("UNLOCK");
    let lock = "LOCK"@;
    let unlock = "UNLOCK"@;
    assert(lock.len() == 4 && unlock.len() == 6);
    assert(is_ascii_chars(lock));
    assert(is_ascii_chars(unlock));
    is_ascii_chars_encode_utf8(lock);
    is_ascii_chars_encode_utf8(unlock);
    assert(encode_utf8(lock) =~= seq![0x4cu8, 0x4f, 0x43, 0x4b]) by {
        assert(lock[0] as u8 == 0x4c && lock[1] as u8 == 0x4f && lock[2] as u8 == 0x43 && lock[3]
            as u8 == 0x4b);
    }
    assert(encode_utf8(unlock) =~= seq![0x55u8, 0x4e, 0x4c, 0x4f, 0x43, 0x4b]) by {
        assert(unlock[0] as u8 == 0x55 && unlock[1] as u8 == 0x4e && unlock[2] as u8 == 0x4c
            && unlock[3] as u8 == 0x4f && unlock[4] as u8 == 0x43 && unlock[5] as u8 == 0x4b);
    }
}

/// A payload that reads `LOCK` asks, for every door, for exactly one call:
/// controlled mode with a delay of five seconds. The outcome is `Locked`,
/// with the label `LOCKED`, exactly when that call succeeds; when it fails
/// the outcome is an error that carries the cause, and there is no label.
pub proof fn lemma_lock(door: u8, payload: Seq<u8>, failure: Option<Seq<char>>)
    requires
        payload_text(payload) == Some("LOCK"@),
    ensures
        translate_spec(door, payload) == TranslationView::Invoke(
            DoorRequest { door, mode: DoorMode::Controlled, delay_secs: 5 },
        ),
        outcome_spec(payload, failure) == CommandOutcomeView::Locked <==> failure is None,
        failure is None ==> label_spec(outcome_spec(payload, failure)) == Some("LOCKED"@),
        failure matches Some(cause) ==> outcome_spec(payload, failure) == CommandOutcomeView::Error(
            CommandErrorView::DeviceFailure(cause),
        ) && label_spec(outcome_spec(payload, failure)) is None,
{
    lemma_command_words();
}

/// A payload that reads `UNLOCK` asks, for every door, for exactly one call:
/// normally-open mode with a delay of five seconds. The outcome is
/// `Unlocked`, with the label `UNLOCKED`, exactly when that call succeeds;
/// when it fails the outcome is an error that carries the cause, and there is
/// no label.
pub proof fn lemma_unlock(door: u8, payload: Seq<u8>, failure: Option<Seq<char>>)
    requires
        payload_text(payload) == Some("UNLOCK"@),
    ensures
        translate_spec(door, payload) == TranslationView::Invoke(
            DoorRequest { door, mode: DoorMode::NormallyOpen, delay_secs: 5 },
        ),
        outcome_spec(payload, failure) == CommandOutcomeView::Unlocked <==> failure is None,
        failure is None ==> label_spec(outcome_spec(payload, failure)) == Some("UNLOCKED"@),
        failure matches Some(cause) ==> outcome_spec(payload, failure) == CommandOutcomeView::Error(
            CommandErrorView::DeviceFailure(cause),
        ) && label_spec(outcome_spec(payload, failure)) is None,
{
    lemma_command_words();
}

/// A payload that reads neither `LOCK` nor `UNLOCK` never reaches the
/// controller: the translation is settled at once, as ignored where the
/// payload is text and as an error where it is not, and the outcome is the
/// same whatever the controller would have answered. It has no label.
pub proof fn lemma_other_payloads(
    door: u8,
    payload: Seq<u8>,
    failure: Option<Seq<char>>,
    other_failure: Option<Seq<char>>,
)
    requires
        payload_text(payload) != Some("LOCK"@),
        payload_text(payload) != Some("UNLOCK"@),
    ensures
        translate_spec(door, payload) == TranslationView::Settled(outcome_spec(payload, failure)),
        outcome_spec(payload, failure) == outcome_spec(payload, other_failure),
        valid_utf8(payload) ==> outcome_spec(payload, failure) == CommandOutcomeView::Ignored,
        !valid_utf8(payload) ==> outcome_spec(payload, failure) == CommandOutcomeView::Error(
            CommandErrorView::MalformedPayload,
        ),
        label_spec(outcome_spec(payload, failure)) is None,
{
}

/// The translation of a payload asks for the controller exactly when the
/// payload is one of the two command words, and [`conclude`] on the command
/// of that request gives the outcome of the whole.
pub proof fn lemma_translate_then_conclude(door: u8, payload: Seq<u8>, failure: Option<Seq<char>>)
    ensures
        translate_spec(door, payload) is Invoke <==> decode_spec(payload) is Known,
        decode_spec(payload) matches Decoded::Known(command) ==> outcome_spec(payload, failure)
            == conclude_spec(command, failure) && translate_spec(door, payload)
            == TranslationView::Invoke(request_spec(door, command)),
{
}

} // verus!

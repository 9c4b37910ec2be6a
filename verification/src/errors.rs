use vstd::prelude::*;
use vstd::string::StringExecFns;
use vstd::utf8::{decode_utf8, valid_utf8};

use crate::calls::{HapiCall, StatusType, StatusVerbosity};

verus! {

/// The result codes of the Houdini Engine API (`HAPI_Result`).
#[derive(Debug, Clone, Copy, PartialEq, Eq, Structural)]
pub enum HapiResult {
    Success,
    Failure,
    AlreadyInitialized,
    NotInitialized,
    CantLoadfile,
    ParmSetFailed,
    InvalidArgument,
    CantLoadGeo,
    CantGeneratePreset,
    CantLoadPreset,
    AssetDefAlreadyLoaded,
    NoLicenseFound,
    DisallowedNcLicenseFound,
    DisallowedNcAssetWithCLicense,
    DisallowedNcAssetWithLcLicense,
    DisallowedLcAssetWithCLicense,
    DisallowedHengineindieW3partyPlugin,
    AssetInvalid,
    NodeInvalid,
    UserInterrupted,
    InvalidSession,
}

/// What went wrong: an engine result code, a failed cook, or a string
/// that could not be handed to the engine because it holds a null byte.
#[derive(Debug, Clone, Copy, PartialEq, Eq, Structural)]
pub enum Kind {
    Hapi(HapiResult),
    CookError,
    NullByte,
}

/// The text that names each kind of error.
pub open spec fn kind_description(kind: Kind) -> Seq<char> {
    match kind {
        Kind::Hapi(code) => match code {
            HapiResult::Success => "SUCCESS"@,
            HapiResult::Failure => "FAILURE"@,
            HapiResult::AlreadyInitialized => "ALREADY_INITIALIZED"@,
            HapiResult::NotInitialized => "NOT_INITIALIZED"@,
            HapiResult::CantLoadfile => "CANT_LOADFILE"@,
            HapiResult::ParmSetFailed => "PARM_SET_FAILED"@,
            HapiResult::InvalidArgument => "PARM_SET_FAILED"@,
            HapiResult::CantLoadGeo => "CANT_LOAD_GEO"@,
            HapiResult::CantGeneratePreset => "CANT_GENERATE_PRESET"@,
            HapiResult::CantLoadPreset => "CANT_LOAD_PRESET"@,
            HapiResult::AssetDefAlreadyLoaded => "ASSET_DEF_ALREADY_LOADED"@,
            HapiResult::NoLicenseFound => "NO_LICENSE_FOUND"@,
            HapiResult::DisallowedNcLicenseFound => "DISALLOWED_NC_LICENSE_FOUND"@,
            HapiResult::DisallowedNcAssetWithCLicense => "DISALLOWED_NC_ASSET_WITH_C_LICENSE"@,
            HapiResult::DisallowedNcAssetWithLcLicense => "DISALLOWED_NC_ASSET_WITH_LC_LICENSE"@,
            HapiResult::DisallowedLcAssetWithCLicense => "DISALLOWED_LC_ASSET_WITH_C_LICENSE"@,
            HapiResult::DisallowedHengineindieW3partyPlugin => "DISALLOWED_HENGINEINDIE_W_3PARTY_PLUGIN"@,
            HapiResult::AssetInvalid => "ASSET_INVALID"@,
            HapiResult::NodeInvalid => "NODE_INVALID"@,
            HapiResult::UserInterrupted => "USER_INTERRUPTED"@,
            HapiResult::InvalidSession => "INVALID_SESSION"@,
        },
        Kind::NullByte => "String contains null byte!"@,
        Kind::CookError => "Cooking error"@,
    }
}

impl Kind {
    /// The name of this kind of error.
    pub fn description(&self) -> (text: &'static str)
        ensures
            text@ == kind_description(*self),
    {
        match self {
            Kind::Hapi(code) => match code {
                HapiResult::Success => "SUCCESS",
                HapiResult::Failure => "FAILURE",
                HapiResult::AlreadyInitialized => "ALREADY_INITIALIZED",
                HapiResult::NotInitialized => "NOT_INITIALIZED",
                HapiResult::CantLoadfile => "CANT_LOADFILE",
                HapiResult::ParmSetFailed => "PARM_SET_FAILED",
                HapiResult::InvalidArgument => "PARM_SET_FAILED",
                HapiResult::CantLoadGeo => "CANT_LOAD_GEO",
                HapiResult::CantGeneratePreset => "CANT_GENERATE_PRESET",
                HapiResult::CantLoadPreset => "CANT_LOAD_PRESET",
                HapiResult::AssetDefAlreadyLoaded => "ASSET_DEF_ALREADY_LOADED",
                HapiResult::NoLicenseFound => "NO_LICENSE_FOUND",
                HapiResult::DisallowedNcLicenseFound => "DISALLOWED_NC_LICENSE_FOUND",
                HapiResult::DisallowedNcAssetWithCLicense => "DISALLOWED_NC_ASSET_WITH_C_LICENSE",
                HapiResult::DisallowedNcAssetWithLcLicense => "DISALLOWED_NC_ASSET_WITH_LC_LICENSE",
                HapiResult::DisallowedLcAssetWithCLicense => "DISALLOWED_LC_ASSET_WITH_C_LICENSE",
                HapiResult::DisallowedHengineindieW3partyPlugin => "DISALLOWED_HENGINEINDIE_W_3PARTY_PLUGIN",
                HapiResult::AssetInvalid => "ASSET_INVALID",
                HapiResult::NodeInvalid => "NODE_INVALID",
                HapiResult::UserInterrupted => "USER_INTERRUPTED",
                HapiResult::InvalidSession => "INVALID_SESSION",
            },
            Kind::NullByte => "String contains null byte!",
            Kind::CookError => "Cooking error",
        }
    }
}


/// An error of the engine API: what went wrong, the session it happened in
/// (by its address, when there is one), and an optional message of the caller.
#[derive(Debug, Clone, Copy)]
pub struct HapiError {
    pub kind: Kind,
    pub session: Option<usize>,
    pub message: Option<&'static str>,
}

impl HapiError {
    /// Makes an error from its three parts.
    pub fn new(kind: Kind, session: Option<usize>, message: Option<&'static str>) -> (err: HapiError)
        ensures
            err.kind == kind,
            err.session == session,
            err.message == message,
    {
        HapiError { kind, session, message }
    }

    /// The error for a string that holds a null byte: no session, no message.
    pub fn null_byte() -> (err: HapiError)
        ensures
            err.kind == Kind::NullByte,
            err.session is None,
            err.message is None,
    {
        HapiError::new(Kind::NullByte, None, None)
    }

    /// The session's own account of the last call should be fetched for this
    /// error's text exactly when the error has a session with a non-null address.
    pub open spec fn wants_last_error(&self) -> bool {
        self.session matches Some(addr) && addr != 0
    }

    /// Whether the engine's last-error text is to be fetched before the error is shown.
    pub fn needs_last_error(&self) -> (needs: bool)
        ensures
            needs == self.wants_last_error(),
    {
        match self.session {
            Some(addr) => addr != 0,
            None => false,
        }
    }

    /// The text shown for an engine error.
    pub open spec fn display_spec(&self, last_error: Option<Seq<char>>) -> Seq<char> {
        match self.session {
            None => kind_description(self.kind),
            Some(_) => kind_description(self.kind) + ": "@ + match last_error {
                Some(text) => text,
                None => match self.message {
                    Some(m) => m@,
                    None => "Zig"@,
                },
            },
        }
    }

    /// The text shown for an engine error: its description, followed, when the
    /// error has a session, by the session's last-error text (`last_error`, which
    /// the caller fetched exactly when `needs_last_error` held), or else the
    /// error's own message, or else a fixed word.
    pub fn display_text(&self, last_error: Option<String>) -> (text: String)
        requires
            self.kind is Hapi,
            last_error is Some <==> self.wants_last_error(),
        ensures
            text@ == self.display_spec(match last_error {
                Some(t) => Some(t@),
                None => None,
            }),
            self.session is None ==> text@ == kind_description(self.kind),
            self.session is Some ==> text@ == kind_description(self.kind) + ": "@ + match last_error {
                Some(t) => t@,
                None => match self.message {
                    Some(m) => m@,
                    None => "Zig"@,
                },
            },
    {
        let mut text = String::from_str(self.kind.description());
        match self.session {
            None => {},
            Some(_) => {
                text.append(": ");
                match last_error {
                    Some(t) => text.append(t.as_str()),
                    None => match self.message {
                        Some(m) => text.append(m),
                        None => text.append("Zig"),
                    },
                }
            },
        }
        text
    }
}

/// The error that a failed engine call leaves: the call's code, the session and the message.
pub open spec fn call_error(code: HapiResult, session: usize, message: Option<&'static str>) -> HapiError {
    HapiError { kind: Kind::Hapi(code), session: Some(session), message }
}

impl HapiResult {
    /// Whether the code reports success.
    pub fn is_success(&self) -> (ok: bool)
        ensures
            ok == (*self == HapiResult::Success),
    {
        match self {
            HapiResult::Success => true,
            _ => false,
        }
    }

    /// Turns the code of a call made in `session` into a `Result`: `Ok` on
    /// success, else an error that carries the code, the session and `message`.
    pub fn result(&self, session: usize, message: Option<&'static str>) -> (res: Result<(), HapiError>)
        ensures
            res is Ok <==> *self == HapiResult::Success,
            res matches Err(e) ==> e == call_error(*self, session, message),
            res matches Err(e) ==> e.kind == Kind::Hapi(*self) && e.session == Some(session) && e.message
                == message,
    {
        match self {
            HapiResult::Success => Ok(()),
            e => Err(HapiError::new(Kind::Hapi(*e), Some(session), message)),
        }
    }
}

/// The text of a byte string read as UTF-8, each invalid sequence replaced by U+FFFD.
pub uninterp spec fn utf8_lossy(bytes: Seq<u8>) -> Seq<char>;

/// Calls `String::from_utf8_lossy` (and takes the text out of the `Cow` it
/// returns). The contract claims that the result is the lossy reading of the
/// bytes, which depends on the bytes alone, and, as std documents, that bytes
/// that are valid UTF-8 are read unchanged. What is put in place of invalid
/// sequences is left unsaid.
#[verifier::external_body]
fn text_from_utf8_lossy(bytes: &Vec<u8>) -> (text: String)
    ensures
        text@ == utf8_lossy(bytes@),
        valid_utf8(bytes@) ==> text@ == decode_utf8(bytes@),
{
    String::from_utf8_lossy(bytes).into_owned()
}

/// The first `len` bytes of `bytes`, or all of them when there are fewer.
pub open spec fn truncated(bytes: Seq<u8>, len: int) -> Seq<u8> {
    if len <= bytes.len() {
        bytes.subrange(0, len)
    } else {
        bytes
    }
}

/// Fetching the text of a session's last call result: the length of the text is asked for.
#[derive(Debug)]
pub struct PendingStatusLength {
    pub session: usize,
}

/// Fetching the text of a session's last call result: the text itself is asked for.
#[derive(Debug)]
pub struct PendingStatusText {
    pub session: usize,
    pub length: i32,
}

/// Starts fetching the text that the engine keeps of the last call's result
/// in `session` (the status text of call results, at the lowest verbosity):
/// the first call, which asks for the text's length.
pub fn get_last_error(session: usize) -> (res: (PendingStatusLength, HapiCall))
    ensures
        res.0.session == session,
        res.1 == (HapiCall::GetStatusStringBufLength {
            session,
            status_type: StatusType::CallResult,
            verbosity: StatusVerbosity::Verbosity0,
        }),
{
    (
        PendingStatusLength { session },
        HapiCall::GetStatusStringBufLength {
            session,
            status_type: StatusType::CallResult,
            verbosity: StatusVerbosity::Verbosity0,
        },
    )
}

impl PendingStatusLength {
    /// After the length was asked for: on success, the call that reads a text
    /// of that length, else the error of the failed call.
    pub fn on_length(self, reply: HapiResult, length: i32) -> (res: Result<(PendingStatusText, HapiCall), HapiError>)
        requires
            reply == HapiResult::Success ==> length >= 0,
        ensures
            res is Ok <==> reply == HapiResult::Success,
            res matches Ok((p, c)) ==> {
                &&& p.session == self.session
                &&& p.length == length
                &&& c == (HapiCall::GetStatusString {
                    session: self.session,
                    status_type: StatusType::CallResult,
                    length,
                })
            },
            res matches Err(e) ==> e == call_error(reply, self.session, Some("GetStatusStringBufLength failed")),
            res matches Err(e) ==> e.kind == Kind::Hapi(reply) && e.session == Some(self.session) && e.message
                == Some("GetStatusStringBufLength failed"),
    {
        match reply.result(self.session, Some("GetStatusStringBufLength failed")) {
            Ok(()) => Ok(
                (
                    PendingStatusText { session: self.session, length },
                    HapiCall::GetStatusString {
                        session: self.session,
                        status_type: StatusType::CallResult,
                        length,
                    },
                ),
            ),
            Err(e) => Err(e),
        }
    }
}

impl PendingStatusText {
    /// After the text was read into `buffer`: on success the text, cut to
    /// the length that was asked for, else the error of the failed call.
    pub fn on_text(self, reply: HapiResult, buffer: Vec<u8>) -> (res: Result<String, HapiError>)
        requires
            self.length >= 0,
        ensures
            res is Ok <==> reply == HapiResult::Success,
            res matches Ok(text) ==> {
                &&& text@ == utf8_lossy(truncated(buffer@, self.length as int))
                &&& valid_utf8(truncated(buffer@, self.length as int))
                    ==> text@ == decode_utf8(truncated(buffer@, self.length as int))
            },
            res matches Ok(text) ==> {
                let n = if (self.length as int) <= buffer@.len() { self.length as int } else { buffer@.len() as int };
                &&& text@ == utf8_lossy(buffer@.subrange(0, n))
                &&& valid_utf8(buffer@.subrange(0, n)) ==> text@ == decode_utf8(buffer@.subrange(0, n))
            },
            res matches Err(e) ==> e == call_error(reply, self.session, Some("GetStatusString failed")),
            res matches Err(e) ==> e.kind == Kind::Hapi(reply) && e.session == Some(self.session) && e.message
                == Some("GetStatusString failed"),
    {
        match reply.result(self.session, Some("GetStatusString failed")) {
            Ok(()) => {
                let ghost original = buffer@;
                let mut bytes = buffer;
                bytes.truncate(self.length as usize);
                assert(bytes@ =~= original.subrange(
                    0,
                    if (self.length as int) <= original.len() { self.length as int } else { original.len() as int },
                ));
                Ok(text_from_utf8_lossy(&bytes))
            },
            Err(e) => Err(e),
        }
    }
}

/// Whatever else it holds, the text of an error begins with the description
/// of its kind.
pub proof fn lemma_text_begins_with_description(err: HapiError, last_error: Option<Seq<char>>)
    ensures
        err.display_spec(last_error).len() >= kind_description(err.kind).len(),
        err.display_spec(last_error).subrange(0, kind_description(err.kind).len() as int)
            == kind_description(err.kind),
{
    let d = kind_description(err.kind);
    let t = err.display_spec(last_error);
    match err.session {
        None => {
            assert(t.subrange(0, d.len() as int) =~= d);
        },
        Some(_) => {
            assert(t.subrange(0, d.len() as int) =~= d);
        },
    }
}

/// An engine call that fails in a session with a non-null address leaves an
/// error whose text is to be completed with the session's last-error text,
/// and whose text then reads `<code>: <last-error text>`; in a session with a
/// null address, the text reads `<code>: <message>`, or `<code>: Zig` without one.
pub proof fn lemma_failed_call_text(
    code: HapiResult,
    session: usize,
    message: Option<&'static str>,
    last_error: Seq<char>,
)
    requires
        code != HapiResult::Success,
    ensures
        session != 0 ==> call_error(code, session, message).wants_last_error(),
        session != 0 ==> call_error(code, session, message).display_spec(Some(last_error))
            == kind_description(Kind::Hapi(code)) + ": "@ + last_error,
        session == 0 ==> !call_error(code, session, message).wants_last_error(),
        session == 0 ==> call_error(code, session, message).display_spec(None)
            == kind_description(Kind::Hapi(code)) + ": "@ + match message {
                Some(m) => m@,
                None => "Zig"@,
            },
{
}

/// An error without a session is shown as its kind's description alone:
/// neither its message nor any last-error text changes that.
pub proof fn lemma_text_without_session(
    kind: Kind,
    message: Option<&'static str>,
    other_message: Option<&'static str>,
    last_error: Option<Seq<char>>,
)
    ensures
        (HapiError { kind, session: None, message }).display_spec(last_error) == kind_description(kind),
        (HapiError { kind, session: None, message }).display_spec(last_error)
            == (HapiError { kind, session: None, message: other_message }).display_spec(None),
{
}

/// With a session, the text is the description, ": ", and then exactly the
/// fetched last-error text when there is one; the error's own message is used
/// only without it, and the fixed word only without either.
pub proof fn lemma_text_with_session(
    kind: Kind,
    session: usize,
    message: Option<&'static str>,
    last_error: Seq<char>,
)
    ensures
        ({
            let e = HapiError { kind, session: Some(session), message };
            let t = e.display_spec(Some(last_error));
            let d = kind_description(kind);
            &&& t.len() == d.len() + 2 + last_error.len()
            &&& t.subrange(0, d.len() as int) == d
            &&& t.subrange(d.len() as int, d.len() + 2int) == ": "@
            &&& t.subrange(d.len() + 2int, t.len() as int) == last_error
        }),
        message matches Some(m) ==> (HapiError { kind, session: Some(session), message }).display_spec(None)
            == kind_description(kind) + ": "@ + m@,
        message is None ==> (HapiError { kind, session: Some(session), message }).display_spec(None)
            == kind_description(kind) + ": "@ + "Zig"@,
{
    let e = HapiError { kind, session: Some(session), message };
    let t = e.display_spec(Some(last_error));
    let d = kind_description(kind);
    let sep = ": "@;
    assert(t == d + sep + last_error);
    assert(t.subrange(0, d.len() as int) =~= d);
    assert(t.subrange(d.len() as int, (d.len() + sep.len()) as int) =~= sep);
    assert(t.subrange((d.len() + sep.len()) as int, t.len() as int) =~= last_error);
    assert(sep.len() == 2) by {
        reveal_strlit(": ");
    }
}

/// The error of a failed call holds that very code, session and message; two
/// different codes never leave the same error.
pub proof fn lemma_call_error_keeps_its_inputs(
    code: HapiResult,
    other: HapiResult,
    session: usize,
    message: Option<&'static str>,
)
    ensures
        call_error(code, session, message).kind == Kind::Hapi(code),
        call_error(code, session, message).session == Some(session),
        call_error(code, session, message).message == message,
        code != other ==> call_error(code, session, message) != call_error(other, session, message),
{
}

/// Cutting a buffer to a length keeps exactly its first min(length, size)
/// bytes, unchanged and in order.
pub proof fn lemma_truncated_keeps_prefix(bytes: Seq<u8>, len: int)
    requires
        len >= 0,
    ensures
        truncated(bytes, len).len() == if len <= bytes.len() { len } else { bytes.len() as int },
        forall|i: int| 0 <= i < truncated(bytes, len).len() ==> #[trigger] truncated(bytes, len)[i] == bytes[i],
        truncated(bytes, len) == bytes.subrange(
            0,
            if len <= bytes.len() { len } else { bytes.len() as int },
        ),
{
    assert(truncated(bytes, len) =~= bytes.subrange(
        0,
        if len <= bytes.len() { len } else { bytes.len() as int },
    ));
}

} // verus!

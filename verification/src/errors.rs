use vstd::prelude::*;
use vstd::string::StringExecFns;

verus! {

/// Start of the numeric range that the client layer below reserves for its
/// own error codes; that layer's codes count downwards from this value.
pub const CLIENT_ERROR_START_RANGE: i32 = -1;

/// Start of the numeric range reserved for this layer's error codes, for
/// propagating some error information across FFI boundaries and specially
/// to C: a disjoint sub-range 600 below the client layer's, so that layers
/// stacking their own translators cannot collide.
pub const LAUNCHER_ERROR_START_RANGE: i32 = CLIENT_ERROR_START_RANGE - 600;

/// What this layer reads of an error already classified by the client
/// layer below: the numeric code that the client layer's own conversion
/// assigns to it, and the client layer's debug rendering of it. The code
/// is passed through unchanged and the rendering is never parsed, so both
/// are carried here as plain values.
pub struct CoreError {
    /// The numeric code the client layer's own conversion yields.
    pub code: i32,
    /// The client layer's debug rendering of the error.
    pub debug_text: String,
}

/// Launcher Errors
pub enum LauncherError {
    /// Client Error
    CoreError(CoreError),
    /// Unexpected error
    Unexpected(String),
}

impl LauncherError {
    /// The numeric code this error maps to: a wrapped client error keeps
    /// the client layer's own code, and every unexpected error maps to the
    /// single sentinel just below this layer's range start.
    pub open spec fn code_spec(self) -> int {
        match self {
            LauncherError::CoreError(core) => core.code as int,
            LauncherError::Unexpected(_) => LAUNCHER_ERROR_START_RANGE - 1,
        }
    }

    /// The diagnostic rendering of this error: a fixed tag naming the
    /// variant, followed by the wrapped rendering or the stored message.
    pub open spec fn diagnostic_spec(self) -> Seq<char> {
        match self {
            LauncherError::CoreError(core) => "LauncherError::CoreError -> "@ + core.debug_text@,
            LauncherError::Unexpected(message) => "LauncherError::Unexpected -> "@ + message@,
        }
    }

    /// Builds the unexpected variant from a borrowed message, copying the
    /// message into an owned string. Total: any message is accepted.
    pub fn from_message(message: &str) -> (r: LauncherError)
        ensures
            r is Unexpected,
            r->Unexpected_0@ == message@,
    {
        LauncherError::Unexpected(String::from_str(message))
    }

    /// Converts this error into the numeric code handed across the
    /// foreign-function boundary, consuming it. A wrapped client error
    /// passes the client layer's own code through unchanged; an unexpected
    /// error yields the sentinel `LAUNCHER_ERROR_START_RANGE - 1`,
    /// whatever its message.
    pub fn into_code(self) -> (code: i32)
        ensures
            code as int == self.code_spec(),
    {
        match self {
            LauncherError::CoreError(core) => core.code,
            LauncherError::Unexpected(_) => LAUNCHER_ERROR_START_RANGE - 1,
        }
    }

    /// Renders this error for logging, without consuming it, so that both
    /// the string and the code can be taken from the same value. The
    /// result is a function of the value alone: reading it twice yields
    /// identical strings.
    pub fn diagnostic_string(&self) -> (s: String)
        ensures
            s@ == self.diagnostic_spec(),
    {
        match self {
            LauncherError::CoreError(core) => String::from_str(
                "LauncherError::CoreError -> ",
            ).concat(core.debug_text.as_str()),
            LauncherError::Unexpected(message) => String::from_str(
                "LauncherError::Unexpected -> ",
            ).concat(message.as_str()),
        }
    }
}

impl From<CoreError> for LauncherError {
    /// Wraps an error classified by the client layer. Total: it always
    /// succeeds and only moves the value.
    fn from(error: CoreError) -> (r: LauncherError) {
        LauncherError::CoreError(error)
    }
}

impl vstd::std_specs::convert::FromSpecImpl<CoreError> for LauncherError {
    open spec fn obeys_from_spec() -> bool {
        true
    }

    open spec fn from_spec(error: CoreError) -> LauncherError {
        LauncherError::CoreError(error)
    }
}

/// This layer's range start sits exactly 600 below the client layer's, and
/// being a compile-time constant it cannot change for the lifetime of the
/// process: every read yields this one value.
pub proof fn lemma_range_start_offset()
    ensures
        LAUNCHER_ERROR_START_RANGE == CLIENT_ERROR_START_RANGE - 600,
{
}

/// Pass-through identity: wrapping a client error and converting to a
/// numeric code yields exactly the code the client layer's own conversion
/// assigned, unaltered.
pub proof fn lemma_wrapped_code_passthrough(core: CoreError)
    ensures
        LauncherError::CoreError(core).code_spec() == core.code as int,
{
}

/// Every unexpected error maps to the one sentinel code
/// `LAUNCHER_ERROR_START_RANGE - 1`, regardless of its message.
pub proof fn lemma_unexpected_code_sentinel(message: String)
    ensures
        LauncherError::Unexpected(message).code_spec() == LAUNCHER_ERROR_START_RANGE - 1,
{
}

/// The diagnostic rendering of a wrapped client error is the fixed tag
/// identifying the wrapped case, followed by exactly the client layer's
/// debug rendering.
pub proof fn lemma_diagnostic_wrapped(core: CoreError)
    ensures
        LauncherError::CoreError(core).diagnostic_spec() == "LauncherError::CoreError -> "@
            + core.debug_text@,
{
}

/// The diagnostic rendering of an unexpected error is the fixed tag
/// identifying the unexpected case, followed by exactly the stored
/// message: no truncation and no escaping, for any message including the
/// empty one.
pub proof fn lemma_diagnostic_unexpected(message: String)
    ensures
        LauncherError::Unexpected(message).diagnostic_spec() == "LauncherError::Unexpected -> "@
            + message@,
{
}

} // verus!

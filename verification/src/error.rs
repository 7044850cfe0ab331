use vstd::prelude::*;
use vstd::string::*;

verus! {

/// The ways a boundary string can be refused; each carries the text as given.
#[derive(Debug, Clone, PartialEq, Eq)]
pub enum Error {
    InvalidWirePath { path: String },
    InvalidTaskToken { token: String },
    InvalidScopeReason { reason: String },
    UnknownRoleName { role: String },
}

/// The human-readable message of an error: a fixed explanation of the rule
/// followed by the refused text.
pub open spec fn error_message(error: Error) -> Seq<char> {
    match error {
        Error::InvalidWirePath { path } => "wire path must be absolute and normalized: "@ + path@,
        Error::InvalidTaskToken { token } =>
            "task token must be non-empty, unbracketed, and contain no whitespace: "@ + token@,
        Error::InvalidScopeReason { reason } =>
            "scope reason must be non-empty and single-line: "@ + reason@,
        Error::UnknownRoleName { role } => "unknown workspace role token: "@ + role@,
    }
}

/// Every message names the rule that was broken and then gives the refused
/// text back verbatim at its end.
pub proof fn lemma_error_message_shape(error: Error)
    ensures
        error is InvalidWirePath ==> error_message(error) == "wire path must be absolute and normalized: "@
            + error->path@,
        error is InvalidTaskToken ==> error_message(error)
            == "task token must be non-empty, unbracketed, and contain no whitespace: "@ + error->token@,
        error is InvalidScopeReason ==> error_message(error)
            == "scope reason must be non-empty and single-line: "@ + error->reason@,
        error is UnknownRoleName ==> error_message(error) == "unknown workspace role token: "@
            + error->role@,
        ({
            let given = match error {
                Error::InvalidWirePath { path } => path@,
                Error::InvalidTaskToken { token } => token@,
                Error::InvalidScopeReason { reason } => reason@,
                Error::UnknownRoleName { role } => role@,
            };
            &&& error_message(error).len() > given.len()
            &&& error_message(error).subrange(
                error_message(error).len() - given.len(),
                error_message(error).len() as int,
            ) == given
        }),
{
    broadcast use vstd::string::group_string_axioms;

    reveal_strlit("wire path must be absolute and normalized: ");
    reveal_strlit("task token must be non-empty, unbracketed, and contain no whitespace: ");
    reveal_strlit("scope reason must be non-empty and single-line: ");
    reveal_strlit("unknown workspace role token: ");
    let given = match error {
        Error::InvalidWirePath { path } => path@,
        Error::InvalidTaskToken { token } => token@,
        Error::InvalidScopeReason { reason } => reason@,
        Error::UnknownRoleName { role } => role@,
    };
    let m = error_message(error);
    let prefix = m.subrange(0, m.len() - given.len());
    assert(m == prefix + given) by {
        match error {
            Error::InvalidWirePath { path } => {
                assert(prefix =~= "wire path must be absolute and normalized: "@);
            },
            Error::InvalidTaskToken { token } => {
                assert(prefix =~= "task token must be non-empty, unbracketed, and contain no whitespace: "@);
            },
            Error::InvalidScopeReason { reason } => {
                assert(prefix =~= "scope reason must be non-empty and single-line: "@);
            },
            Error::UnknownRoleName { role } => {
                assert(prefix =~= "unknown workspace role token: "@);
            },
        }
    }
    assert(m.subrange(m.len() - given.len(), m.len() as int) =~= given);
}

impl Error {
    /// The message that describes this error.
    pub fn message(&self) -> (text: String)
        ensures
            text@ == error_message(*self),
    {
        let (prefix, given) = match self {
            Error::InvalidWirePath { path } => ("wire path must be absolute and normalized: ", path),
            Error::InvalidTaskToken { token } => (
                "task token must be non-empty, unbracketed, and contain no whitespace: ",
                token,
            ),
            Error::InvalidScopeReason { reason } => (
                "scope reason must be non-empty and single-line: ",
                reason,
            ),
            Error::UnknownRoleName { role } => ("unknown workspace role token: ", role),
        };
        let mut text = String::from_str(prefix);
        text.append(given.as_str());
        text
    }
}

} // verus!

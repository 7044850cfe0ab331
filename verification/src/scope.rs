use vstd::prelude::*;
use vstd::std_specs::cmp::PartialEqSpecImpl;
use vstd::std_specs::convert::TryFromSpecImpl;
use vstd::string::*;

use crate::error::Error;
use crate::path::WirePath;
use crate::text::{is_white_space, white_space};

verus! {

// ─── Task token ───────────────────────────────────────────

/// A character that a task token may not hold: a bracket or white space.
pub open spec fn is_forbidden_in_task_token(c: char) -> bool {
    c == '[' || c == ']' || is_white_space(c)
}

/// A task token is non-empty and holds no bracket and no white space.
pub open spec fn task_token_accepted(s: Seq<char>) -> bool {
    s.len() > 0 && forall|i: int| 0 <= i < s.len() ==> !is_forbidden_in_task_token(#[trigger] s[i])
}

/// A task token is accepted exactly when it is non-empty and none of its
/// characters is `[`, `]` or white space; in particular any token with a line
/// feed, carriage return, tab or space in it is refused, and any non-empty
/// token of other characters is accepted, whatever its length.
pub proof fn lemma_task_token_acceptance(s: Seq<char>)
    ensures
        task_token_accepted(s) <==> (s.len() > 0 && forall|i: int|
            0 <= i < s.len() ==> #[trigger] s[i] != '[' && s[i] != ']' && !is_white_space(s[i])),
        forall|i: int|
            0 <= i < s.len() && is_white_space(#[trigger] s[i]) ==> !task_token_accepted(s),
        forall|i: int|
            0 <= i < s.len() && (#[trigger] s[i] == '\n' || s[i] == '\r' || s[i] == '\t' || s[i]
                == ' ') ==> !task_token_accepted(s),
{
    assert forall|i: int|
        0 <= i < s.len() && (#[trigger] s[i] == '\n' || s[i] == '\r' || s[i] == '\t' || s[i]
            == ' ') implies !task_token_accepted(s) by {
        assert(is_forbidden_in_task_token(s[i]));
    }
    assert forall|i: int| 0 <= i < s.len() && is_white_space(#[trigger] s[i]) implies !task_token_accepted(s) by {
        assert(is_forbidden_in_task_token(s[i]));
    }
}

/// Joining two accepted task tokens gives an accepted token, and so does any
/// non-empty part of an accepted token: acceptance looks at each character on
/// its own and at nothing else.
pub proof fn lemma_task_token_parts(a: Seq<char>, b: Seq<char>, lo: int, hi: int)
    ensures
        task_token_accepted(a) && task_token_accepted(b) ==> task_token_accepted(a + b),
        task_token_accepted(a) && 0 <= lo < hi <= a.len() ==> task_token_accepted(a.subrange(lo, hi)),
{
    if task_token_accepted(a) && task_token_accepted(b) {
        assert forall|i: int| 0 <= i < (a + b).len() implies !is_forbidden_in_task_token(#[trigger] (a + b)[i]) by {
            if i < a.len() {
                assert((a + b)[i] == a[i]);
            } else {
                assert((a + b)[i] == b[i - a.len()]);
            }
        }
    }
    if task_token_accepted(a) && 0 <= lo < hi <= a.len() {
        assert forall|i: int| 0 <= i < a.subrange(lo, hi).len() implies !is_forbidden_in_task_token(
            #[trigger] a.subrange(lo, hi)[i],
        ) by {
            assert(a.subrange(lo, hi)[i] == a[lo + i]);
        }
    }
}

/// A task identifier such as `primary-f99`, stored without the brackets of
/// its human form `[primary-f99]`.
#[derive(Debug, Eq, Hash)]
pub struct TaskToken(String);

impl PartialEq for TaskToken {
    /// Equal exactly when the texts are equal.
    fn eq(&self, other: &TaskToken) -> (equal: bool) {
        self.0 == other.0
    }
}

impl PartialEqSpecImpl for TaskToken {
    open spec fn obeys_eq_spec() -> bool {
        true
    }

    open spec fn eq_spec(&self, other: &TaskToken) -> bool {
        self@ == other@
    }
}

impl TaskToken {
    #[verifier::type_invariant]
    spec fn is_accepted(self) -> bool {
        task_token_accepted(self.0@)
    }
}

impl View for TaskToken {
    type V = Seq<char>;

    closed spec fn view(&self) -> Seq<char> {
        self.0@
    }
}

impl AsRef<str> for TaskToken {
    fn as_ref(&self) -> (text: &str)
        ensures
            text@ == self@,
            task_token_accepted(text@),
    {
        self.as_str()
    }
}

impl Clone for TaskToken {
    fn clone(&self) -> (copy: TaskToken)
        ensures
            copy@ == self@,
    {
        proof {
            use_type_invariant(self);
        }
        TaskToken(self.0.clone())
    }
}

impl TaskToken {
    /// Same as [`TaskToken::from_wire_token`], for an owned string.
    pub fn try_new(token: String) -> (result: Result<TaskToken, Error>)
        ensures
            task_token_accepted(token@) ==> (result matches Ok(task) && task@ == token@),
            !task_token_accepted(token@) ==> (result matches Err(Error::InvalidTaskToken { token: given })
                && given@ == token@),
    {
        TaskToken::from_wire_token(token.as_str())
    }

    /// Accepts a non-empty token without brackets and white space, unchanged;
    /// refuses anything else with `Error::InvalidTaskToken` carrying the text.
    pub fn from_wire_token(token: &str) -> (result: Result<TaskToken, Error>)
        ensures
            task_token_accepted(token@) ==> (result matches Ok(task) && task@ == token@),
            !task_token_accepted(token@) ==> (result matches Err(Error::InvalidTaskToken { token: given })
                && given@ == token@),
    {
        let n = token.unicode_len();
        let mut i: usize = 0;
        let mut clean = true;
        while i < n
            invariant
                n == token@.len(),
                i <= n,
                clean == forall|j: int| 0 <= j < i ==> !is_forbidden_in_task_token(#[trigger] token@[j]),
            decreases n - i,
        {
            let c = token.get_char(i);
            if c == '[' || c == ']' || white_space(c) {
                clean = false;
            }
            i = i + 1;
        }
        if n > 0 && clean {
            Ok(TaskToken(String::from_str(token)))
        } else {
            Err(Error::InvalidTaskToken { token: String::from_str(token) })
        }
    }

    /// The token text, as it was accepted.
    pub fn as_str(&self) -> (text: &str)
        ensures
            text@ == self@,
            task_token_accepted(text@),
    {
        proof {
            use_type_invariant(self);
        }
        self.0.as_str()
    }
}

impl<'a> TryFrom<&'a str> for TaskToken {
    type Error = Error;

    /// Same as [`TaskToken::from_wire_token`].
    fn try_from(text: &'a str) -> (result: Result<TaskToken, Error>)
        ensures
            task_token_accepted(text@) ==> (result matches Ok(task) && task@ == text@),
            !task_token_accepted(text@) ==> (result matches Err(Error::InvalidTaskToken { token: given })
                && given@ == text@),
    {
        TaskToken::from_wire_token(text)
    }
}

/// The conversion's result is stated on `try_from` itself; it has no generic
/// specification, since an error value is fixed only up to the view of the
/// text that it holds.
impl<'a> TryFromSpecImpl<&'a str> for TaskToken {
    open spec fn obeys_try_from_spec() -> bool {
        false
    }

    open spec fn try_from_spec(text: &'a str) -> Result<TaskToken, Error> {
        arbitrary()
    }
}

impl TryFrom<String> for TaskToken {
    type Error = Error;

    /// Same as [`TaskToken::from_wire_token`].
    fn try_from(text: String) -> (result: Result<TaskToken, Error>)
        ensures
            task_token_accepted(text@) ==> (result matches Ok(task) && task@ == text@),
            !task_token_accepted(text@) ==> (result matches Err(Error::InvalidTaskToken { token: given })
                && given@ == text@),
    {
        TaskToken::from_wire_token(text.as_str())
    }
}

/// The conversion's result is stated on `try_from` itself; it has no generic
/// specification, since an error value is fixed only up to the view of the
/// text that it holds.
impl TryFromSpecImpl<String> for TaskToken {
    open spec fn obeys_try_from_spec() -> bool {
        false
    }

    open spec fn try_from_spec(text: String) -> Result<TaskToken, Error> {
        arbitrary()
    }
}

// ─── Scope reason ─────────────────────────────────────────

/// A reason is accepted when it holds a character that is not white space and
/// no line break: `trim` leaves something, and it fits on one line.
pub open spec fn scope_reason_accepted(s: Seq<char>) -> bool {
    &&& exists|i: int| 0 <= i < s.len() && !is_white_space(#[trigger] s[i])
    &&& forall|i: int| 0 <= i < s.len() ==> #[trigger] s[i] != '\n' && s[i] != '\r'
}

/// A reason is accepted exactly when some character of it is not white space
/// and none is a line feed or a carriage return, whatever its length: a
/// reason with a line break is refused, and so is a blank one.
pub proof fn lemma_scope_reason_acceptance(s: Seq<char>)
    ensures
        scope_reason_accepted(s) <==> ((exists|i: int| 0 <= i < s.len() && !is_white_space(#[trigger] s[i]))
            && forall|i: int| 0 <= i < s.len() ==> #[trigger] s[i] != '\n' && s[i] != '\r'),
        forall|i: int|
            0 <= i < s.len() && (#[trigger] s[i] == '\n' || s[i] == '\r') ==> !scope_reason_accepted(s),
        (forall|i: int| 0 <= i < s.len() ==> is_white_space(#[trigger] s[i])) ==> !scope_reason_accepted(s),
{
}

/// Extending an accepted reason on either side by text without a line break
/// keeps it accepted, so no length bound applies; a single character that is
/// neither white space nor a line break is a reason on its own.
pub proof fn lemma_scope_reason_extend(a: Seq<char>, b: Seq<char>, c: char)
    ensures
        scope_reason_accepted(a) && (forall|i: int| 0 <= i < b.len() ==> #[trigger] b[i] != '\n' && b[i]
            != '\r') ==> scope_reason_accepted(a + b) && scope_reason_accepted(b + a),
        !is_white_space(c) && c != '\n' && c != '\r' ==> scope_reason_accepted(seq![c]),
{
    if scope_reason_accepted(a) && (forall|i: int| 0 <= i < b.len() ==> #[trigger] b[i] != '\n' && b[i] != '\r') {
        let k = choose|k: int| 0 <= k < a.len() && !is_white_space(#[trigger] a[k]);
        assert((a + b)[k] == a[k]);
        assert((b + a)[b.len() + k] == a[k]);
        assert forall|i: int| 0 <= i < (a + b).len() implies #[trigger] (a + b)[i] != '\n' && (a + b)[i] != '\r' by {
            if i < a.len() {
                assert((a + b)[i] == a[i]);
            } else {
                assert((a + b)[i] == b[i - a.len()]);
            }
        }
        assert forall|i: int| 0 <= i < (b + a).len() implies #[trigger] (b + a)[i] != '\n' && (b + a)[i] != '\r' by {
            if i < b.len() {
                assert((b + a)[i] == b[i]);
            } else {
                assert((b + a)[i] == a[i - b.len()]);
            }
        }
    }
    if !is_white_space(c) && c != '\n' && c != '\r' {
        assert(seq![c][0] == c);
    }
}

/// A short single-line reason for a claim or an activity.
#[derive(Debug, Eq, Hash)]
pub struct ScopeReason(String);

impl PartialEq for ScopeReason {
    /// Equal exactly when the texts are equal.
    fn eq(&self, other: &ScopeReason) -> (equal: bool) {
        self.0 == other.0
    }
}

impl PartialEqSpecImpl for ScopeReason {
    open spec fn obeys_eq_spec() -> bool {
        true
    }

    open spec fn eq_spec(&self, other: &ScopeReason) -> bool {
        self@ == other@
    }
}

impl ScopeReason {
    #[verifier::type_invariant]
    spec fn is_accepted(self) -> bool {
        scope_reason_accepted(self.0@)
    }
}

impl View for ScopeReason {
    type V = Seq<char>;

    closed spec fn view(&self) -> Seq<char> {
        self.0@
    }
}

impl AsRef<str> for ScopeReason {
    fn as_ref(&self) -> (text: &str)
        ensures
            text@ == self@,
            scope_reason_accepted(text@),
    {
        self.as_str()
    }
}

impl Clone for ScopeReason {
    fn clone(&self) -> (copy: ScopeReason)
        ensures
            copy@ == self@,
    {
        proof {
            use_type_invariant(self);
        }
        ScopeReason(self.0.clone())
    }
}

impl ScopeReason {
    /// Same as [`ScopeReason::from_text`], for an owned string.
    pub fn try_new(reason: String) -> (result: Result<ScopeReason, Error>)
        ensures
            scope_reason_accepted(reason@) ==> (result matches Ok(r) && r@ == reason@),
            !scope_reason_accepted(reason@) ==> (result matches Err(
                Error::InvalidScopeReason { reason: given },
            ) && given@ == reason@),
    {
        ScopeReason::from_text(reason.as_str())
    }

    /// Accepts a reason that is neither blank nor spread over several lines,
    /// unchanged; refuses anything else with `Error::InvalidScopeReason`.
    pub fn from_text(reason: &str) -> (result: Result<ScopeReason, Error>)
        ensures
            scope_reason_accepted(reason@) ==> (result matches Ok(r) && r@ == reason@),
            !scope_reason_accepted(reason@) ==> (result matches Err(
                Error::InvalidScopeReason { reason: given },
            ) && given@ == reason@),
    {
        let n = reason.unicode_len();
        let mut i: usize = 0;
        let mut visible = false;
        let mut single_line = true;
        while i < n
            invariant
                n == reason@.len(),
                i <= n,
                visible == exists|j: int| 0 <= j < i && !is_white_space(#[trigger] reason@[j]),
                single_line == forall|j: int|
                    0 <= j < i ==> #[trigger] reason@[j] != '\n' && reason@[j] != '\r',
            decreases n - i,
        {
            let c = reason.get_char(i);
            if !white_space(c) {
                visible = true;
            }
            if c == '\n' || c == '\r' {
                single_line = false;
            }
            i = i + 1;
        }
        if visible && single_line {
            Ok(ScopeReason(String::from_str(reason)))
        } else {
            Err(Error::InvalidScopeReason { reason: String::from_str(reason) })
        }
    }

    /// The reason text, as it was accepted.
    pub fn as_str(&self) -> (text: &str)
        ensures
            text@ == self@,
            scope_reason_accepted(text@),
    {
        proof {
            use_type_invariant(self);
        }
        self.0.as_str()
    }
}

impl<'a> TryFrom<&'a str> for ScopeReason {
    type Error = Error;

    /// Same as [`ScopeReason::from_text`].
    fn try_from(text: &'a str) -> (result: Result<ScopeReason, Error>)
        ensures
            scope_reason_accepted(text@) ==> (result matches Ok(r) && r@ == text@),
            !scope_reason_accepted(text@) ==> (result matches Err(
                Error::InvalidScopeReason { reason: given },
            ) && given@ == text@),
    {
        ScopeReason::from_text(text)
    }
}

/// The conversion's result is stated on `try_from` itself; it has no generic
/// specification, since an error value is fixed only up to the view of the
/// text that it holds.
impl<'a> TryFromSpecImpl<&'a str> for ScopeReason {
    open spec fn obeys_try_from_spec() -> bool {
        false
    }

    open spec fn try_from_spec(text: &'a str) -> Result<ScopeReason, Error> {
        arbitrary()
    }
}

impl TryFrom<String> for ScopeReason {
    type Error = Error;

    /// Same as [`ScopeReason::from_text`].
    fn try_from(text: String) -> (result: Result<ScopeReason, Error>)
        ensures
            scope_reason_accepted(text@) ==> (result matches Ok(r) && r@ == text@),
            !scope_reason_accepted(text@) ==> (result matches Err(
                Error::InvalidScopeReason { reason: given },
            ) && given@ == text@),
    {
        ScopeReason::from_text(text.as_str())
    }
}

/// The conversion's result is stated on `try_from` itself; it has no generic
/// specification, since an error value is fixed only up to the view of the
/// text that it holds.
impl TryFromSpecImpl<String> for ScopeReason {
    open spec fn obeys_try_from_spec() -> bool {
        false
    }

    open spec fn try_from_spec(text: String) -> Result<ScopeReason, Error> {
        arbitrary()
    }
}

// ─── Scope reference ──────────────────────────────────────

/// What is claimed, observed or acted on.
#[derive(Debug, Clone, PartialEq, Eq, Hash)]
pub enum ScopeReference {
    /// An absolute file or directory path.
    Path(WirePath),
    /// A task token, stored without brackets.
    Task(TaskToken),
}

} // verus!

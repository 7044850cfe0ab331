use vstd::prelude::*;
use vstd::std_specs::convert::TryFromSpecImpl;
use vstd::string::*;

use crate::error::Error;

verus! {

/// The closed set of workspace roles.
#[derive(Debug, Clone, Copy, PartialEq, Eq, Hash, PartialOrd, Ord, Structural)]
pub enum RoleName {
    Operator,
    OperatorAssistant,
    Designer,
    DesignerAssistant,
    SystemSpecialist,
    SystemAssistant,
    Poet,
    PoetAssistant,
}

/// The canonical wire token of a role.
pub open spec fn role_token(role: RoleName) -> Seq<char> {
    match role {
        RoleName::Operator => "operator"@,
        RoleName::OperatorAssistant => "operator-assistant"@,
        RoleName::Designer => "designer"@,
        RoleName::DesignerAssistant => "designer-assistant"@,
        RoleName::SystemSpecialist => "system-specialist"@,
        RoleName::SystemAssistant => "system-assistant"@,
        RoleName::Poet => "poet"@,
        RoleName::PoetAssistant => "poet-assistant"@,
    }
}

/// The role whose canonical token is `token`, if any.
pub open spec fn role_of_token(token: Seq<char>) -> Option<RoleName> {
    if token == role_token(RoleName::Operator) {
        Some(RoleName::Operator)
    } else if token == role_token(RoleName::OperatorAssistant) {
        Some(RoleName::OperatorAssistant)
    } else if token == role_token(RoleName::Designer) {
        Some(RoleName::Designer)
    } else if token == role_token(RoleName::DesignerAssistant) {
        Some(RoleName::DesignerAssistant)
    } else if token == role_token(RoleName::SystemSpecialist) {
        Some(RoleName::SystemSpecialist)
    } else if token == role_token(RoleName::SystemAssistant) {
        Some(RoleName::SystemAssistant)
    } else if token == role_token(RoleName::Poet) {
        Some(RoleName::Poet)
    } else if token == role_token(RoleName::PoetAssistant) {
        Some(RoleName::PoetAssistant)
    } else {
        None
    }
}

/// Every role reads back from its own wire token, and a token names at most one
/// role: parsing a token gives back the role that rendered it.
pub proof fn lemma_role_token_round_trip(role: RoleName)
    ensures
        role_of_token(role_token(role)) == Some(role),
        forall|token: Seq<char>| role_of_token(token) == Some(role) ==> token == role_token(role),
{
    broadcast use vstd::string::group_string_axioms;
    reveal_strlit("operator");
    reveal_strlit("operator-assistant");
    reveal_strlit("designer");
    reveal_strlit("designer-assistant");
    reveal_strlit("system-specialist");
    reveal_strlit("system-assistant");
    reveal_strlit("poet");
    reveal_strlit("poet-assistant");
    assert(role_token(RoleName::Operator).len() == 8 && role_token(RoleName::Operator)[0] == 'o');
    assert(role_token(RoleName::OperatorAssistant).len() == 18 && role_token(RoleName::OperatorAssistant)[0] == 'o');
    assert(role_token(RoleName::Designer).len() == 8 && role_token(RoleName::Designer)[0] == 'd');
    assert(role_token(RoleName::DesignerAssistant).len() == 18 && role_token(RoleName::DesignerAssistant)[0] == 'd');
    assert(role_token(RoleName::SystemSpecialist).len() == 17 && role_token(RoleName::SystemSpecialist)[0] == 's');
    assert(role_token(RoleName::SystemAssistant).len() == 16 && role_token(RoleName::SystemAssistant)[0] == 's');
    assert(role_token(RoleName::Poet).len() == 4 && role_token(RoleName::Poet)[0] == 'p');
    assert(role_token(RoleName::PoetAssistant).len() == 14 && role_token(RoleName::PoetAssistant)[0] == 'p');
}

/// Every role travels as its name in lower case with a hyphen between the
/// words, such as `operator-assistant`, and that token reads back as the same
/// role.
pub proof fn lemma_role_tokens_spell_names(role: RoleName)
    ensures
        role is Operator ==> role_token(role) == "operator"@ && role_of_token("operator"@) == Some(role),
        role is OperatorAssistant ==> role_token(role) == "operator-assistant"@ && role_of_token("operator-assistant"@) == Some(role),
        role is Designer ==> role_token(role) == "designer"@ && role_of_token("designer"@) == Some(role),
        role is DesignerAssistant ==> role_token(role) == "designer-assistant"@ && role_of_token("designer-assistant"@) == Some(role),
        role is SystemSpecialist ==> role_token(role) == "system-specialist"@ && role_of_token("system-specialist"@) == Some(role),
        role is SystemAssistant ==> role_token(role) == "system-assistant"@ && role_of_token("system-assistant"@) == Some(role),
        role is Poet ==> role_token(role) == "poet"@ && role_of_token("poet"@) == Some(role),
        role is PoetAssistant ==> role_token(role) == "poet-assistant"@ && role_of_token("poet-assistant"@) == Some(role),
{
    lemma_role_token_round_trip(role);
}

/// The list of all roles covers the workspace: every role is in it, and
/// exactly once.
pub proof fn lemma_all_roles_listed_once(role: RoleName)
    ensures
        RoleName::ALL@.len() == 8,
        RoleName::ALL@.contains(role),
        forall|i: int, j: int|
            0 <= i < j < RoleName::ALL@.len() ==> #[trigger] RoleName::ALL@[i] != #[trigger] RoleName::ALL@[j],
{
    let all = RoleName::ALL@;
    assert(all =~= seq![
        RoleName::Operator,
        RoleName::OperatorAssistant,
        RoleName::Designer,
        RoleName::DesignerAssistant,
        RoleName::SystemSpecialist,
        RoleName::SystemAssistant,
        RoleName::Poet,
        RoleName::PoetAssistant,
    ]);
    let k: int = match role {
        RoleName::Operator => 0,
        RoleName::OperatorAssistant => 1,
        RoleName::Designer => 2,
        RoleName::DesignerAssistant => 3,
        RoleName::SystemSpecialist => 4,
        RoleName::SystemAssistant => 5,
        RoleName::Poet => 6,
        RoleName::PoetAssistant => 7,
    };
    assert(all[k] == role);
}

/// Whether `given` spells the canonical token of `role`.
fn token_is(given: &String, role: RoleName) -> (matches: bool)
    ensures
        matches == (given@ == role_token(role)),
{
    let token = String::from_str(role.as_wire_token());
    *given == token
}

impl RoleName {
    /// Every role, in declaration order.
    pub const ALL: [RoleName; 8] = [
        RoleName::Operator,
        RoleName::OperatorAssistant,
        RoleName::Designer,
        RoleName::DesignerAssistant,
        RoleName::SystemSpecialist,
        RoleName::SystemAssistant,
        RoleName::Poet,
        RoleName::PoetAssistant,
    ];

    /// The canonical workspace token of this role, such as `operator-assistant`.
    pub fn as_wire_token(self) -> (token: &'static str)
        ensures
            token@ == role_token(self),
    {
        match self {
            RoleName::Operator => "operator",
            RoleName::OperatorAssistant => "operator-assistant",
            RoleName::Designer => "designer",
            RoleName::DesignerAssistant => "designer-assistant",
            RoleName::SystemSpecialist => "system-specialist",
            RoleName::SystemAssistant => "system-assistant",
            RoleName::Poet => "poet",
            RoleName::PoetAssistant => "poet-assistant",
        }
    }

    /// The canonical token of this role as an owned string, the text that
    /// displaying the role shows.
    pub fn to_string(self) -> (token: String)
        ensures
            token@ == role_token(self),
    {
        String::from_str(self.as_wire_token())
    }

    /// The role whose canonical token is `role`; any other text, including a
    /// different capitalization, is refused with `Error::UnknownRoleName`.
    pub fn from_wire_token(role: &str) -> (result: Result<RoleName, Error>)
        ensures
            role_of_token(role@) matches Some(r) ==> result == Ok::<RoleName, Error>(r),
            role_of_token(role@) is None ==> (result matches Err(Error::UnknownRoleName { role: given }) && given@ == role@),
    {
        let given = String::from_str(role);
        if token_is(&given, RoleName::Operator) {
            Ok(RoleName::Operator)
        } else if token_is(&given, RoleName::OperatorAssistant) {
            Ok(RoleName::OperatorAssistant)
        } else if token_is(&given, RoleName::Designer) {
            Ok(RoleName::Designer)
        } else if token_is(&given, RoleName::DesignerAssistant) {
            Ok(RoleName::DesignerAssistant)
        } else if token_is(&given, RoleName::SystemSpecialist) {
            Ok(RoleName::SystemSpecialist)
        } else if token_is(&given, RoleName::SystemAssistant) {
            Ok(RoleName::SystemAssistant)
        } else if token_is(&given, RoleName::Poet) {
            Ok(RoleName::Poet)
        } else if token_is(&given, RoleName::PoetAssistant) {
            Ok(RoleName::PoetAssistant)
        } else {
            Err(Error::UnknownRoleName { role: given })
        }
    }
}

impl core::str::FromStr for RoleName {
    type Err = Error;

    fn from_str(role: &str) -> (result: Result<RoleName, Error>)
        ensures
            role_of_token(role@) matches Some(r) ==> result == Ok::<RoleName, Error>(r),
            role_of_token(role@) is None ==> (result matches Err(Error::UnknownRoleName { role: given }) && given@ == role@),
    {
        RoleName::from_wire_token(role)
    }
}

impl<'a> TryFrom<&'a str> for RoleName {
    type Error = Error;

    /// Same as [`RoleName::from_wire_token`].
    fn try_from(role: &'a str) -> (result: Result<RoleName, Error>)
        ensures
            role_of_token(role@) matches Some(r) ==> result == Ok::<RoleName, Error>(r),
            role_of_token(role@) is None ==> (result matches Err(Error::UnknownRoleName { role: given }) && given@ == role@),
    {
        RoleName::from_wire_token(role)
    }
}

/// The conversion's result is stated on `try_from` itself; it has no generic
/// specification, since an error value is fixed only up to the view of the
/// text that it holds.
impl<'a> TryFromSpecImpl<&'a str> for RoleName {
    open spec fn obeys_try_from_spec() -> bool {
        false
    }

    open spec fn try_from_spec(role: &'a str) -> Result<RoleName, Error> {
        arbitrary()
    }
}

impl TryFrom<String> for RoleName {
    type Error = Error;

    /// Same as [`RoleName::from_wire_token`], for an owned string.
    fn try_from(role: String) -> (result: Result<RoleName, Error>)
        ensures
            role_of_token(role@) matches Some(r) ==> result == Ok::<RoleName, Error>(r),
            role_of_token(role@) is None ==> (result matches Err(Error::UnknownRoleName { role: given }) && given@ == role@),
    {
        RoleName::from_wire_token(role.as_str())
    }
}

/// The conversion's result is stated on `try_from` itself; it has no generic
/// specification, since an error value is fixed only up to the view of the
/// text that it holds.
impl TryFromSpecImpl<String> for RoleName {
    open spec fn obeys_try_from_spec() -> bool {
        false
    }

    open spec fn try_from_spec(role: String) -> Result<RoleName, Error> {
        arbitrary()
    }
}

} // verus!

use vstd::prelude::*;
use vstd::string::StringExecFns;
use crate::text::lower_of;
use crate::text::lowercase;
use crate::text::str_eq;

verus! {

/// Who authored a message in the project conversation.
#[derive(Clone, Copy, PartialEq, Eq, Structural, Debug)]
pub enum PmMessageRole {
    User,
    Assistant,
    System,
}

pub open spec fn spec_role_name(r: PmMessageRole) -> Seq<char> {
    match r {
        PmMessageRole::User => "user"@,
        PmMessageRole::Assistant => "assistant"@,
        PmMessageRole::System => "system"@,
    }
}

pub open spec fn spec_parse_role(lower: Seq<char>) -> Option<PmMessageRole> {
    if lower == "user"@ {
        Some(PmMessageRole::User)
    } else if lower == "assistant"@ {
        Some(PmMessageRole::Assistant)
    } else if lower == "system"@ {
        Some(PmMessageRole::System)
    } else {
        None
    }
}

impl PmMessageRole {
    /// The stored name of this role.
    pub fn as_str(&self) -> (r: &'static str)
        ensures
            r@ == spec_role_name(*self),
    {
        match self {
            PmMessageRole::User => "user",
            PmMessageRole::Assistant => "assistant",
            PmMessageRole::System => "system",
        }
    }
}

/// Parses a stored role name, case-insensitively.
pub fn parse_role(s: &str) -> (r: Option<PmMessageRole>)
    ensures
        r == spec_parse_role(lower_of(s@)),
{
    let lower = lowercase(s);
    if str_eq(lower.as_str(), "user") {
        Some(PmMessageRole::User)
    } else if str_eq(lower.as_str(), "assistant") {
        Some(PmMessageRole::Assistant)
    } else if str_eq(lower.as_str(), "system") {
        Some(PmMessageRole::System)
    } else {
        None
    }
}

impl core::str::FromStr for PmMessageRole {
    type Err = String;

    fn from_str(s: &str) -> Result<PmMessageRole, String> {
        match parse_role(s) {
            Some(r) => Ok(r),
            None => {
                let mut m = "Invalid role: ".to_owned();
                m.append(s);
                Err(m)
            },
        }
    }
}

/// The role a posted message is stored under: `assistant` and `system` are
/// taken at their word; anything else, a missing role included, posts as
/// the user.
pub open spec fn spec_role_for_request(role: Option<Seq<char>>) -> PmMessageRole {
    match role {
        Some(r) => if r == "assistant"@ {
            PmMessageRole::Assistant
        } else if r == "system"@ {
            PmMessageRole::System
        } else {
            PmMessageRole::User
        },
        None => PmMessageRole::User,
    }
}

/// Decides the stored role of a posted message.
pub fn role_for_request(role: Option<&String>) -> (r: PmMessageRole)
    ensures
        r == spec_role_for_request(
            match role {
                Some(s) => Some(s@),
                None => None,
            },
        ),
{
    match role {
        Some(s) => {
            if str_eq(s.as_str(), "assistant") {
                PmMessageRole::Assistant
            } else if str_eq(s.as_str(), "system") {
                PmMessageRole::System
            } else {
                PmMessageRole::User
            }
        },
        None => PmMessageRole::User,
    }
}

} // verus!

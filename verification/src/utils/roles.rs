//! The roles an account can hold.

use vstd::prelude::*;
use vstd::string::*;

use crate::utils::text::same_text;

verus! {

/// A role of the closed set that accounts are granted.
#[derive(Debug, Clone, Copy, PartialEq, Eq, Structural)]
pub enum Role {
    USER,
    ADMIN,
}

/// The upper-case form of a text, as `str::to_uppercase` computes it.
pub uninterp spec fn uppercase(s: Seq<char>) -> Seq<char>;

/// Calls `str::to_uppercase`, whose result is a function of the text alone
/// and is named `uppercase`.
#[verifier::external_body]
fn to_uppercase(s: &str) -> (upper: String)
    ensures
        upper@ == uppercase(s@),
{
    s.to_uppercase()
}

impl Role {
    /// The canonical name of the role.
    pub open spec fn name(self) -> Seq<char> {
        match self {
            Role::USER => "USER"@,
            Role::ADMIN => "ADMIN"@,
        }
    }

    /// The role whose canonical name is exactly `name`, if there is one.
    pub open spec fn named(name: Seq<char>) -> Option<Role> {
        if name == "USER"@ {
            Some(Role::USER)
        } else if name == "ADMIN"@ {
            Some(Role::ADMIN)
        } else {
            None
        }
    }

    /// The role that a text stands for: the one whose canonical name equals
    /// the text's upper-case form.
    pub open spec fn parse(s: Seq<char>) -> Option<Role> {
        Role::named(uppercase(s))
    }

    pub fn as_str(&self) -> (name: &'static str)
        ensures
            name@ == self.name(),
    {
        match self {
            Role::USER => "USER",
            Role::ADMIN => "ADMIN",
        }
    }

    /// Looks a role up by its canonical name; the match is exact.
    pub fn from_name(name: &str) -> (role: Option<Role>)
        ensures
            role == Role::named(name@),
    {
        if same_text(name, "USER") {
            Some(Role::USER)
        } else if same_text(name, "ADMIN") {
            Some(Role::ADMIN)
        } else {
            None
        }
    }

    /// Parses a role without regard to case. A text that names no role is
    /// rejected with a message that quotes it.
    pub fn from_str(s: &str) -> (parsed: Result<Role, String>)
        ensures
            match Role::parse(s@) {
                Some(role) => parsed == Ok::<Role, String>(role),
                None => parsed matches Err(message) && message@ == "Invalid role: "@ + s@,
            },
    {
        let upper = to_uppercase(s);
        match Role::from_name(upper.as_str()) {
            Some(role) => Ok(role),
            None => Err(String::from_str("Invalid role: ").concat(s)),
        }
    }
}

} // verus!

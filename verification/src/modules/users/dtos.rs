//! The bodies of the account requests, and the rules they must meet.

use vstd::prelude::*;

use crate::utils::roles::Role;

verus! {

/// What a caller sends to register an account.
#[derive(Debug)]
pub struct RegisterRequest {
    pub username: String,
    pub email: String,
    pub password: String,
    /// The role asked for; an account without one becomes a `USER`.
    pub role: Option<Role>,
}

/// What a caller sends to log in.
#[derive(Debug)]
pub struct LoginRequest {
    pub username: String,
    pub password: String,
}

/// A rule that a request body broke.
#[derive(Debug, Clone, Copy, PartialEq, Eq, Structural)]
pub enum Finding {
    /// The user name of a registration has fewer than 3 or more than 50
    /// characters.
    UsernameLength,
    /// The e-mail address of a registration is none.
    EmailFormat,
    /// The password of a registration has fewer than 8 characters.
    PasswordLength,
    /// The user name of a login is empty.
    UsernameMissing,
    /// The password of a login is empty.
    PasswordMissing,
}

/// Whether the text is an e-mail address, as `validator` judges with
/// `ValidateEmail::validate_email`.
pub uninterp spec fn is_email(text: Seq<char>) -> bool;

/// Whether the number of characters of the text keeps the bounds that are
/// given.
pub open spec fn length_within(text: Seq<char>, min: Option<u64>, max: Option<u64>) -> bool {
    &&& min matches Some(least) ==> text.len() >= least
    &&& max matches Some(most) ==> text.len() <= most
}

/// Calls `ValidateLength::validate_length` of `validator`, which counts
/// the characters of the text and compares the count with the bounds.
#[verifier::external_body]
fn validate_length(text: &str, min: Option<u64>, max: Option<u64>) -> (kept: bool)
    ensures
        kept == length_within(text@, min, max),
{
    validator::ValidateLength::validate_length(text, min, max, None)
}

/// Calls `ValidateEmail::validate_email` of `validator`, whose result is a
/// function of the text alone and is named `is_email`.
#[verifier::external_body]
fn validate_email(text: &str) -> (valid: bool)
    ensures
        valid == is_email(text@),
{
    validator::ValidateEmail::validate_email(&text)
}

/// The findings in the order of the rules: each rule that is broken gives
/// its finding, each rule that is kept gives none.
pub open spec fn findings_of(rules: Seq<(bool, Finding)>) -> Seq<Finding>
    decreases rules.len(),
{
    if rules.len() == 0 {
        Seq::empty()
    } else if rules.last().0 {
        findings_of(rules.drop_last())
    } else {
        findings_of(rules.drop_last()).push(rules.last().1)
    }
}

impl Finding {
    /// The name of the field that broke the rule.
    pub open spec fn field_name(&self) -> Seq<char> {
        match self {
            Finding::UsernameLength => "username"@,
            Finding::EmailFormat => "email"@,
            Finding::PasswordLength => "password"@,
            Finding::UsernameMissing => "username"@,
            Finding::PasswordMissing => "password"@,
        }
    }

    /// The kind of the rule.
    pub open spec fn rule_code(&self) -> Seq<char> {
        match self {
            Finding::EmailFormat => "email"@,
            _ => "length"@,
        }
    }

    /// What the client is told.
    pub open spec fn text(&self) -> Seq<char> {
        match self {
            Finding::UsernameLength => "Username must be between 3 and 50 characters"@,
            Finding::EmailFormat => "Invalid email format"@,
            Finding::PasswordLength => "Password must be at least 8 characters"@,
            Finding::UsernameMissing => "Username cannot be empty"@,
            Finding::PasswordMissing => "Password cannot be empty"@,
        }
    }

    /// The least number of characters that the rule asks for, where it
    /// asks for one.
    pub open spec fn least(&self) -> Option<u64> {
        match self {
            Finding::UsernameLength => Some(3u64),
            Finding::EmailFormat => None,
            Finding::PasswordLength => Some(8u64),
            Finding::UsernameMissing => Some(1u64),
            Finding::PasswordMissing => Some(1u64),
        }
    }

    /// The greatest number of characters that the rule allows, where it
    /// sets one.
    pub open spec fn most(&self) -> Option<u64> {
        match self {
            Finding::UsernameLength => Some(50u64),
            _ => None,
        }
    }

    pub fn field(&self) -> (name: &'static str)
        ensures
            name@ == self.field_name(),
    {
        match self {
            Finding::UsernameLength => "username",
            Finding::EmailFormat => "email",
            Finding::PasswordLength => "password",
            Finding::UsernameMissing => "username",
            Finding::PasswordMissing => "password",
        }
    }

    pub fn code(&self) -> (code: &'static str)
        ensures
            code@ == self.rule_code(),
    {
        match self {
            Finding::EmailFormat => "email",
            _ => "length",
        }
    }

    pub fn message(&self) -> (message: &'static str)
        ensures
            message@ == self.text(),
    {
        match self {
            Finding::UsernameLength => "Username must be between 3 and 50 characters",
            Finding::EmailFormat => "Invalid email format",
            Finding::PasswordLength => "Password must be at least 8 characters",
            Finding::UsernameMissing => "Username cannot be empty",
            Finding::PasswordMissing => "Password cannot be empty",
        }
    }

    pub fn min(&self) -> (bound: Option<u64>)
        ensures
            bound == self.least(),
    {
        match self {
            Finding::UsernameLength => Some(3),
            Finding::EmailFormat => None,
            Finding::PasswordLength => Some(8),
            Finding::UsernameMissing => Some(1),
            Finding::PasswordMissing => Some(1),
        }
    }

    pub fn max(&self) -> (bound: Option<u64>)
        ensures
            bound == self.most(),
    {
        match self {
            Finding::UsernameLength => Some(50),
            _ => None,
        }
    }

    /// Whether the text keeps the rule behind the finding.
    pub open spec fn kept_by(&self, text: Seq<char>) -> bool {
        match self {
            Finding::EmailFormat => is_email(text),
            _ => length_within(text, self.least(), self.most()),
        }
    }

    /// Checks a text against the rule behind the finding.
    pub fn check(&self, text: &str) -> (kept: bool)
        ensures
            kept == self.kept_by(text@),
    {
        match self {
            Finding::EmailFormat => validate_email(text),
            _ => validate_length(text, self.min(), self.max()),
        }
    }
}

/// Collects the findings of the rules that are broken, in the order of the
/// rules.
pub fn collect_findings(rules: &Vec<(bool, Finding)>) -> (findings: Vec<Finding>)
    ensures
        findings@ == findings_of(rules@),
{
    let mut findings: Vec<Finding> = Vec::new();
    let mut at: usize = 0;
    while at < rules.len()
        invariant
            at <= rules.len(),
            findings@ == findings_of(rules@.take(at as int)),
        decreases rules.len() - at,
    {
        assert(rules@.take(at + 1).drop_last() =~= rules@.take(at as int));
        if !rules[at].0 {
            findings.push(rules[at].1);
        }
        at += 1;
    }
    assert(rules@.take(at as int) =~= rules@);
    findings
}

impl RegisterRequest {
    /// What is wrong with the registration: a user name of 3 to 50
    /// characters, an e-mail address and a password of at least 8
    /// characters are asked for.
    pub open spec fn findings(&self) -> Seq<Finding> {
        findings_of(
            seq![
                (Finding::UsernameLength.kept_by(self.username@), Finding::UsernameLength),
                (Finding::EmailFormat.kept_by(self.email@), Finding::EmailFormat),
                (Finding::PasswordLength.kept_by(self.password@), Finding::PasswordLength),
            ],
        )
    }

    /// Checks the registration against its rules and lists what it breaks;
    /// the list is empty exactly where it breaks nothing.
    pub fn validate(&self) -> (findings: Vec<Finding>)
        ensures
            findings@ == self.findings(),
    {
        let mut rules: Vec<(bool, Finding)> = Vec::new();
        rules.push(
            (Finding::UsernameLength.check(self.username.as_str()), Finding::UsernameLength),
        );
        rules.push((Finding::EmailFormat.check(self.email.as_str()), Finding::EmailFormat));
        rules.push(
            (Finding::PasswordLength.check(self.password.as_str()), Finding::PasswordLength),
        );
        let findings = collect_findings(&rules);
        assert(rules@ =~= seq![
            (Finding::UsernameLength.kept_by(self.username@), Finding::UsernameLength),
            (Finding::EmailFormat.kept_by(self.email@), Finding::EmailFormat),
            (Finding::PasswordLength.kept_by(self.password@), Finding::PasswordLength),
        ]);
        findings
    }
}

impl LoginRequest {
    /// What is wrong with the login: neither the user name nor the
    /// password may be empty.
    pub open spec fn findings(&self) -> Seq<Finding> {
        findings_of(
            seq![
                (Finding::UsernameMissing.kept_by(self.username@), Finding::UsernameMissing),
                (Finding::PasswordMissing.kept_by(self.password@), Finding::PasswordMissing),
            ],
        )
    }

    /// Checks the login against its rules and lists what it breaks; the
    /// list is empty exactly where it breaks nothing.
    pub fn validate(&self) -> (findings: Vec<Finding>)
        ensures
            findings@ == self.findings(),
    {
        let mut rules: Vec<(bool, Finding)> = Vec::new();
        rules.push(
            (Finding::UsernameMissing.check(self.username.as_str()), Finding::UsernameMissing),
        );
        rules.push(
            (Finding::PasswordMissing.check(self.password.as_str()), Finding::PasswordMissing),
        );
        let findings = collect_findings(&rules);
        assert(rules@ =~= seq![
            (Finding::UsernameMissing.kept_by(self.username@), Finding::UsernameMissing),
            (Finding::PasswordMissing.kept_by(self.password@), Finding::PasswordMissing),
        ]);
        findings
    }
}

} // verus!

//! Username validation.
//!
//! Which characters count as letters and digits is decided by the Unicode
//! tables of the standard library; the rules built on top of that
//! classification are stated and proved here.

use vstd::prelude::*;

verus! {

/// Whether `c` has the Unicode property `Alphabetic`, as reported by
/// `char::is_alphabetic`.
pub uninterp spec fn alphabetic(c: char) -> bool;

/// Whether `c` is alphabetic or numeric in the sense of Unicode, as reported
/// by `char::is_alphanumeric`.
pub uninterp spec fn alphanumeric(c: char) -> bool;

/// `char::is_alphabetic` is a function of the character alone; its result
/// is named [`alphabetic`]. Nothing is claimed about which characters it
/// accepts.
pub assume_specification[ char::is_alphabetic ](c: char) -> (b: bool)
    ensures
        b == alphabetic(c),
;

/// `char::is_alphanumeric` is a function of the character alone; its result
/// is named [`alphanumeric`]. Nothing is claimed about which characters it
/// accepts.
pub assume_specification[ char::is_alphanumeric ](c: char) -> (b: bool)
    ensures
        b == alphanumeric(c),
;

/// The longest username accepted, in characters.
pub const MAX_USERNAME_LEN: usize = 11;

/// What the rules need to know about one character of a username.
#[derive(Clone, Copy, Debug, PartialEq, Eq, Structural)]
pub struct CharRole {
    /// The character is a letter, so a username may start with it.
    pub starts: bool,
    /// The character may stand after the first position.
    pub continues: bool,
}

/// The three punctuation characters a username may contain.
pub open spec fn is_mark(c: char) -> bool {
    c == '_' || c == '-' || c == '\''
}

/// The role of `c`, given whether it is alphabetic and whether it is
/// alphanumeric.
pub open spec fn role_from(c: char, is_alphabetic: bool, is_alphanumeric: bool) -> CharRole {
    CharRole { starts: is_alphabetic, continues: is_alphanumeric || is_mark(c) }
}

/// The role of `c` under the Unicode classification.
pub open spec fn role_of(c: char) -> CharRole {
    role_from(c, alphabetic(c), alphanumeric(c))
}

/// Computes the role of a character from its two classification bits.
pub fn role_from_classes(c: char, is_alphabetic: bool, is_alphanumeric: bool) -> (role: CharRole)
    ensures
        role == role_from(c, is_alphabetic, is_alphanumeric),
{
    CharRole {
        starts: is_alphabetic,
        continues: is_alphanumeric || c == '_' || c == '-' || c == '\'',
    }
}

/// Classifies one character.
pub fn char_role(c: char) -> (role: CharRole)
    ensures
        role == role_of(c),
{
    role_from_classes(c, c.is_alphabetic(), c.is_alphanumeric())
}

/// The ways a username can be rejected.
#[derive(Clone, Copy, Debug, PartialEq, Eq, Structural)]
pub enum UsernameError {
    /// More than [`MAX_USERNAME_LEN`] characters.
    TooLong,
    /// No characters at all.
    Empty,
    /// The first character is not a letter.
    LeadingNonLetter,
    /// Some later character is neither a letter, a digit, nor one of `_ - '`.
    InvalidCharacter,
}

impl UsernameError {
    /// The sentence reported to the client for this error.
    pub open spec fn text(self) -> Seq<char> {
        match self {
            UsernameError::TooLong => "Username cannot be longer than 11 characters"@,
            UsernameError::Empty => "Username cannot be empty"@,
            UsernameError::LeadingNonLetter => "The first character must be a letter"@,
            UsernameError::InvalidCharacter =>
                "Username can only contain letters, digits, and special characters (_-')"@,
        }
    }

    /// The sentence reported to the client for this error.
    pub fn message(&self) -> (msg: String)
        ensures
            msg@ == self.text(),
    {
        match self {
            UsernameError::TooLong => String::from_str(
                "Username cannot be longer than 11 characters",
            ),
            UsernameError::Empty => String::from_str("Username cannot be empty"),
            UsernameError::LeadingNonLetter => String::from_str(
                "The first character must be a letter",
            ),
            UsernameError::InvalidCharacter => String::from_str(
                "Username can only contain letters, digits, and special characters (_-')",
            ),
        }
    }
}

/// Some character after the first may not stand in a username.
pub open spec fn has_invalid_tail(roles: Seq<CharRole>) -> bool {
    exists|i: int| 1 <= i < roles.len() && !(#[trigger] roles[i]).continues
}

/// The verdict on a username whose characters have the given roles. The
/// rules are tried in a fixed order and the first one broken decides.
pub open spec fn roles_error(roles: Seq<CharRole>) -> Option<UsernameError> {
    if roles.len() > MAX_USERNAME_LEN {
        Some(UsernameError::TooLong)
    } else if roles.len() == 0 {
        Some(UsernameError::Empty)
    } else if !roles[0].starts {
        Some(UsernameError::LeadingNonLetter)
    } else if has_invalid_tail(roles) {
        Some(UsernameError::InvalidCharacter)
    } else {
        None
    }
}

/// The roles of the characters of `s`, position by position.
pub open spec fn roles_of(s: Seq<char>) -> Seq<CharRole> {
    s.map_values(|c: char| role_of(c))
}

/// The verdict on the username `s`.
pub open spec fn username_error(s: Seq<char>) -> Option<UsernameError> {
    roles_error(roles_of(s))
}

/// Applies the username rules to the roles of its characters.
pub fn check_roles(roles: &Vec<CharRole>) -> (r: Result<(), UsernameError>)
    ensures
        r == match roles_error(roles@) {
            Some(e) => Err::<(), UsernameError>(e),
            None => Ok(()),
        },
{
    let n: usize = roles.len();
    if n > MAX_USERNAME_LEN {
        return Err(UsernameError::TooLong);
    }
    if n == 0 {
        return Err(UsernameError::Empty);
    }
    if !roles[0].starts {
        return Err(UsernameError::LeadingNonLetter);
    }
    let mut i: usize = 1;
    while i < n
        invariant
            1 <= i <= n,
            n == roles.len(),
            n <= MAX_USERNAME_LEN,
            roles@[0].starts,
            forall|j: int| 1 <= j < i ==> (#[trigger] roles@[j]).continues,
        decreases n - i,
    {
        if !roles[i].continues {
            assert(!roles@[i as int].continues);
            return Err(UsernameError::InvalidCharacter);
        }
        i += 1;
    }
    Ok(())
}

/// Checks a username against the rules, in this order: at most
/// [`MAX_USERNAME_LEN`] characters, not empty, a letter first, then only
/// letters, digits and `_ - '`. The error is the sentence for the first
/// rule broken.
pub fn validate_username(username: &str) -> (r: Result<(), String>)
    ensures
        match username_error(username@) {
            Some(e) => r matches Err(msg) && msg@ == e.text(),
            None => r is Ok,
        },
{
    let n: usize = username.unicode_len();
    if n > MAX_USERNAME_LEN {
        return Err(UsernameError::TooLong.message());
    }
    let mut roles: Vec<CharRole> = Vec::new();
    let mut i: usize = 0;
    while i < n
        invariant
            i <= n,
            n == username@.len(),
            roles@ == roles_of(username@.subrange(0, i as int)),
        decreases n - i,
    {
        roles.push(char_role(username.get_char(i)));
        assert(roles@ =~= roles_of(username@.subrange(0, i + 1)));
        i += 1;
    }
    assert(username@.subrange(0, n as int) =~= username@);
    match check_roles(&roles) {
        Ok(()) => Ok(()),
        Err(e) => Err(e.message()),
    }
}

/// A username of at most eleven characters that starts with a letter and
/// otherwise holds only letters, digits and `_ - '` is accepted.
pub proof fn law_well_formed_username_accepted(s: Seq<char>)
    requires
        1 <= s.len() <= MAX_USERNAME_LEN,
        alphabetic(s[0]),
        forall|i: int| 1 <= i < s.len() ==> alphanumeric(#[trigger] s[i]) || is_mark(s[i]),
    ensures
        username_error(s) is None,
{
}

/// A username that breaks exactly one rule is rejected for that rule.
pub proof fn law_single_violation_reported(s: Seq<char>)
    ensures
        // only the length rule is broken
        s.len() > MAX_USERNAME_LEN ==> username_error(s) == Some(UsernameError::TooLong),
        // only the emptiness rule is broken
        s.len() == 0 ==> username_error(s) == Some(UsernameError::Empty),
        // only the first-letter rule is broken
        1 <= s.len() <= MAX_USERNAME_LEN && !alphabetic(s[0]) ==> username_error(s) == Some(
            UsernameError::LeadingNonLetter,
        ),
        // only the character rule is broken
        1 <= s.len() <= MAX_USERNAME_LEN && alphabetic(s[0]) && (exists|i: int|
            1 <= i < s.len() && !alphanumeric(#[trigger] s[i]) && !is_mark(s[i]))
            ==> username_error(s) == Some(UsernameError::InvalidCharacter),
{
    if 1 <= s.len() <= MAX_USERNAME_LEN && alphabetic(s[0]) && (exists|i: int|
        1 <= i < s.len() && !alphanumeric(#[trigger] s[i]) && !is_mark(s[i])) {
        let i = choose|i: int| 1 <= i < s.len() && !alphanumeric(#[trigger] s[i]) && !is_mark(s[i]);
        assert(!roles_of(s)[i].continues);
    }
}

} // verus!

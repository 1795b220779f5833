use unicode_segmentation::UnicodeSegmentation;
use validator::ValidateEmail;
use vstd::prelude::*;

verus! {

/// Why a raw email or name was refused.
#[derive(Debug, Clone, Copy, PartialEq, Eq, Structural)]
pub enum ValidationError {
    InvalidEmail,
    EmptyName,
    NameTooLong,
    ForbiddenCharacters,
}

impl ValidationError {
    /// A human-readable explanation of the error.
    pub fn message(&self) -> (r: String)
        ensures
            r@ == self.message_spec(),
    {
        match self {
            ValidationError::InvalidEmail => "Invalid email format".to_string(),
            ValidationError::EmptyName => "Name cannot be empty or whitespace".to_string(),
            ValidationError::NameTooLong => "Name cannot be longer than 256 characters".to_string(),
            ValidationError::ForbiddenCharacters => "Name contains forbidden characters".to_string(),
        }
    }

    /// The explanation that `message` returns.
    pub open spec fn message_spec(&self) -> Seq<char> {
        match self {
            ValidationError::InvalidEmail => "Invalid email format"@,
            ValidationError::EmptyName => "Name cannot be empty or whitespace"@,
            ValidationError::NameTooLong => "Name cannot be longer than 256 characters"@,
            ValidationError::ForbiddenCharacters => "Name contains forbidden characters"@,
        }
    }
}

/// Whether `s` is an address in the HTML5 email grammar, as validator decides it.
pub uninterp spec fn email_is_valid(s: Seq<char>) -> bool;

/// Relies on validator's `ValidateEmail::validate_email` for `&str`: it returns
/// false on an empty string and on one without `@`; the parts before and after
/// the last `@` must each match a pattern that needs at least one character,
/// and `@` is not among the characters allowed before it.
#[verifier::external_body]
fn check_email(s: &str) -> (r: bool)
    ensures
        r == email_is_valid(s@),
        s@.len() == 0 ==> !r,
        !s@.contains('@') ==> !r,
        s@.len() > 0 && s@.last() == '@' ==> !r,
        s@.len() > 0 && s@[0] == '@' ==> !r,
{
    s.validate_email()
}

/// Whether `c` has the Unicode White_Space property, as std decides it.
pub uninterp spec fn is_white_space(c: char) -> bool;

/// Relies on std's `char::is_whitespace` (the Unicode White_Space property,
/// which holds of the space character).
#[verifier::external_body]
fn char_is_whitespace(c: char) -> (r: bool)
    ensures
        r == is_white_space(c),
        c == ' ' ==> r,
{
    c.is_whitespace()
}

/// The number of extended grapheme clusters in `s`.
pub uninterp spec fn grapheme_count(s: Seq<char>) -> nat;

/// Relies on unicode-segmentation's `graphemes(true)`, counted: the number
/// of extended grapheme clusters of the string.
#[verifier::external_body]
fn count_graphemes(s: &str) -> (r: usize)
    ensures
        r as nat == grapheme_count(s@),
{
    s.graphemes(true).count()
}

/// The most grapheme clusters that a name may have.
pub const MAX_NAME_GRAPHEMES: usize = 256;

/// The characters that a subscriber name may not contain.
pub open spec fn is_forbidden_char(c: char) -> bool {
    c == '/' || c == '(' || c == ')' || c == '"' || c == '<' || c == '>' || c == '\\' || c == '{'
        || c == '}'
}

/// Whether `s` holds one of the forbidden characters.
pub open spec fn has_forbidden_char(s: Seq<char>) -> bool {
    exists|i: int| 0 <= i < s.len() && is_forbidden_char(#[trigger] s[i])
}

/// Whether `s` is empty or made of white space only.
pub open spec fn is_blank(s: Seq<char>) -> bool {
    forall|i: int| 0 <= i < s.len() ==> is_white_space(#[trigger] s[i])
}

/// The verdict on a name `s`, given whether it is blank and how many grapheme
/// clusters it has: the first rule that it breaks, in the order blank, too
/// long, forbidden character.
pub open spec fn name_rule(s: Seq<char>, blank: bool, graphemes: nat) -> Result<(), ValidationError> {
    if blank {
        Err(ValidationError::EmptyName)
    } else if graphemes > MAX_NAME_GRAPHEMES {
        Err(ValidationError::NameTooLong)
    } else if has_forbidden_char(s) {
        Err(ValidationError::ForbiddenCharacters)
    } else {
        Ok(())
    }
}

/// The verdict on the name `s`.
pub open spec fn name_verdict(s: Seq<char>) -> Result<(), ValidationError> {
    name_rule(s, is_blank(s), grapheme_count(s))
}

/// Whether `s` is an acceptable subscriber name.
pub open spec fn is_valid_name(s: Seq<char>) -> bool {
    name_verdict(s) is Ok
}

fn forbidden_char(c: char) -> (r: bool)
    ensures
        r == is_forbidden_char(c),
{
    c == '/' || c == '(' || c == ')' || c == '"' || c == '<' || c == '>' || c == '\\' || c == '{'
        || c == '}'
}

/// Scans `s` for a forbidden character.
pub fn contains_forbidden_char(s: &str) -> (r: bool)
    ensures
        r == has_forbidden_char(s@),
{
    let mut found = false;
    for c in it: s.chars()
        invariant
            it.seq() == s@,
            found == (exists|i: int| 0 <= i < it.index() && is_forbidden_char(#[trigger] s@[i])),
    {
        if forbidden_char(c) {
            found = true;
        }
    }
    found
}

/// Whether `s` is empty or white space only.
pub fn is_blank_name(s: &str) -> (r: bool)
    ensures
        r == is_blank(s@),
{
    let mut blank = true;
    for c in it: s.chars()
        invariant
            it.seq() == s@,
            blank == (forall|i: int| 0 <= i < it.index() ==> is_white_space(#[trigger] s@[i])),
    {
        if !char_is_whitespace(c) {
            blank = false;
        }
    }
    blank
}

/// Applies the name rules to `s`, given whether it is blank and its number of
/// grapheme clusters.
pub fn check_name(s: &str, blank: bool, graphemes: usize) -> (r: Result<(), ValidationError>)
    ensures
        r == name_rule(s@, blank, graphemes as nat),
{
    if blank {
        Err(ValidationError::EmptyName)
    } else if graphemes > MAX_NAME_GRAPHEMES {
        Err(ValidationError::NameTooLong)
    } else if contains_forbidden_char(s) {
        Err(ValidationError::ForbiddenCharacters)
    } else {
        Ok(())
    }
}

/// An email address that satisfies the address grammar.
#[derive(Debug)]
pub struct SubscriberEmail(String);

impl View for SubscriberEmail {
    type V = Seq<char>;

    closed spec fn view(&self) -> Seq<char> {
        self.0@
    }
}

impl SubscriberEmail {
    #[verifier::type_invariant]
    closed spec fn inv(self) -> bool {
        email_is_valid(self.0@)
    }

    /// Accepts `s` exactly when it is a valid address, keeping it unchanged.
    pub fn parse(s: String) -> (r: Result<SubscriberEmail, ValidationError>)
        ensures
            r is Ok <==> email_is_valid(s@),
            r matches Ok(e) ==> e@ == s@,
            r is Err ==> r == Err::<SubscriberEmail, ValidationError>(ValidationError::InvalidEmail),
            s@.len() == 0 || !s@.contains('@') || s@.last() == '@' || s@[0] == '@' ==> r is Err,
    {
        if !check_email(s.as_str()) {
            return Err(ValidationError::InvalidEmail);
        }
        Ok(SubscriberEmail(s))
    }

    /// The address as text; it is valid.
    pub fn as_ref(&self) -> (r: &str)
        ensures
            r@ == self@,
            email_is_valid(r@),
    {
        proof {
            use_type_invariant(self);
        }
        self.0.as_str()
    }

}

impl Clone for SubscriberEmail {
    fn clone(&self) -> (r: SubscriberEmail)
        ensures
            r@ == self@,
    {
        proof {
            use_type_invariant(self);
        }
        SubscriberEmail(self.0.clone())
    }
}

/// A subscriber name that is not blank, has at most 256 grapheme clusters and
/// holds none of the forbidden characters.
#[derive(Debug)]
pub struct SubscriberName(String);

impl View for SubscriberName {
    type V = Seq<char>;

    closed spec fn view(&self) -> Seq<char> {
        self.0@
    }
}

impl SubscriberName {
    #[verifier::type_invariant]
    closed spec fn inv(self) -> bool {
        is_valid_name(self.0@)
    }

    /// Accepts `s` exactly when it is a valid name, keeping it unchanged; else
    /// reports the first rule that it breaks.
    pub fn parse(s: String) -> (r: Result<SubscriberName, ValidationError>)
        ensures
            r is Ok <==> is_valid_name(s@),
            r matches Ok(n) ==> n@ == s@,
            r matches Err(e) ==> name_verdict(s@) == Err::<(), ValidationError>(e),
    {
        let blank = is_blank_name(s.as_str());
        let graphemes: usize = if blank {
            0
        } else {
            count_graphemes(s.as_str())
        };
        match check_name(s.as_str(), blank, graphemes) {
            Ok(()) => Ok(SubscriberName(s)),
            Err(e) => Err(e),
        }
    }

    /// The name as text; it is valid.
    pub fn as_ref(&self) -> (r: &str)
        ensures
            r@ == self@,
            is_valid_name(r@),
    {
        proof {
            use_type_invariant(self);
        }
        self.0.as_str()
    }

}

/// A validated signup request, not yet stored.
#[derive(Debug)]
pub struct NewSubscriber {
    pub email: SubscriberEmail,
    pub name: SubscriberName,
}

/// The outcome of validating a raw email and name: the email is checked first.
pub open spec fn new_subscriber_verdict(email: Seq<char>, name: Seq<char>) -> Result<(), ValidationError> {
    if !email_is_valid(email) {
        Err(ValidationError::InvalidEmail)
    } else {
        name_verdict(name)
    }
}

impl NewSubscriber {
    /// Validates a raw email and name into a signup request.
    pub fn new(email: String, name: String) -> (r: Result<NewSubscriber, ValidationError>)
        ensures
            r is Ok <==> new_subscriber_verdict(email@, name@) is Ok,
            r matches Ok(n) ==> n.email@ == email@ && n.name@ == name@,
            r matches Err(e) ==> new_subscriber_verdict(email@, name@) == Err::<(), ValidationError>(e),
    {
        let email = match SubscriberEmail::parse(email) {
            Ok(e) => e,
            Err(e) => return Err(e),
        };
        let name = match SubscriberName::parse(name) {
            Ok(n) => n,
            Err(e) => return Err(e),
        };
        Ok(NewSubscriber { email, name })
    }
}

/// The name rules: a blank name (empty, or white space only) is refused; so is
/// one of more than 256 grapheme clusters, and one that holds a forbidden
/// character; every other name is accepted, in whatever script, up to exactly
/// 256 grapheme clusters.
pub proof fn lemma_name_rules(s: Seq<char>)
    ensures
        s.len() == 0 ==> !is_valid_name(s),
        (forall|i: int| 0 <= i < s.len() ==> is_white_space(#[trigger] s[i])) ==> !is_valid_name(s),
        grapheme_count(s) > 256 ==> !is_valid_name(s),
        has_forbidden_char(s) ==> !is_valid_name(s),
        !is_blank(s) && grapheme_count(s) <= 256 && !has_forbidden_char(s) ==> is_valid_name(s),
        !is_blank(s) && grapheme_count(s) == 256 && !has_forbidden_char(s) ==> is_valid_name(s),
{
}

} // verus!

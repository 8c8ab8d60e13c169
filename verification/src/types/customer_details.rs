//! Passenger details: name, email address and phone number, each validated
//! on construction.

use crate::text::is_dec_digit;
use vstd::prelude::*;

verus! {

/// The configured name pattern: exactly one lowercase ASCII letter.
/// Intentionally strict and minimal in scope.
pub open spec fn name_ok(s: Seq<char>) -> bool {
    s.len() == 1 && 'a' <= s[0] && s[0] <= 'z'
}

/// A passenger name matching the configured pattern.
#[derive(Debug, PartialEq, Eq)]
pub struct Name(String);

/// The rejected input, returned when a string does not match the name pattern.
#[derive(Debug, PartialEq, Eq)]
pub struct ParseNameError(String);

impl View for Name {
    type V = Seq<char>;

    closed spec fn view(&self) -> Seq<char> {
        self.0@
    }
}

impl View for ParseNameError {
    type V = Seq<char>;

    closed spec fn view(&self) -> Seq<char> {
        self.0@
    }
}

impl Clone for Name {
    fn clone(&self) -> (r: Self)
        ensures
            r == *self,
    {
        proof {
            use_type_invariant(self);
        }
        Name(self.0.clone())
    }
}

impl Name {
    /// Every name matches the configured pattern.
    #[verifier::type_invariant]
    pub closed spec fn wf(self) -> bool {
        name_ok(self.0@)
    }

    /// Validating constructor: accepts exactly the strings matching the
    /// name pattern, handing the input back in the error otherwise.
    pub fn try_from(s: String) -> (r: Result<Name, ParseNameError>)
        ensures
            r matches Ok(n) ==> n@ == s@ && name_ok(s@),
            r matches Err(e) ==> e@ == s@ && !name_ok(s@),
    {
        let len: usize = s.as_str().unicode_len();
        if len == 1 {
            let c = s.as_str().get_char(0);
            if 'a' <= c && c <= 'z' {
                return Ok(Name(s));
            }
        }
        Err(ParseNameError(s))
    }

    /// The wire representation: the name itself.
    pub fn as_str(&self) -> (r: &str)
        ensures
            r@ == self@,
    {
        self.0.as_str()
    }
}

/// Whether the characters form a syntactically valid email address.
/// The verdict is the email grammar's, named here so that contracts can
/// speak of it; it depends on the characters alone.
pub uninterp spec fn email_ok(s: Seq<char>) -> bool;

/// Relies on `validator::ValidateEmail::validate_email` for `&str`: the
/// HTML5 email-grammar check, whose verdict depends on the characters
/// alone; its source rejects the empty string outright.
#[verifier::external_body]
fn is_valid_email(s: &str) -> (r: bool)
    ensures
        r == email_ok(s@),
        s@.len() == 0 ==> !r,
{
    validator::ValidateEmail::validate_email(&s)
}

/// A syntactically valid email address.
#[derive(Debug, PartialEq, Eq)]
pub struct Email {
    email: String,
}

/// The rejected input, returned when a string is not a valid email address.
#[derive(Debug, PartialEq, Eq)]
pub struct ParseEmailError(String);

impl View for Email {
    type V = Seq<char>;

    closed spec fn view(&self) -> Seq<char> {
        self.email@
    }
}

impl View for ParseEmailError {
    type V = Seq<char>;

    closed spec fn view(&self) -> Seq<char> {
        self.0@
    }
}

impl Clone for Email {
    fn clone(&self) -> (r: Self)
        ensures
            r == *self,
    {
        proof {
            use_type_invariant(self);
        }
        Email { email: self.email.clone() }
    }
}

impl Email {
    /// Every email value passed the grammar check.
    #[verifier::type_invariant]
    pub closed spec fn wf(self) -> bool {
        email_ok(self.email@)
    }

    /// Validating constructor: runs the full email-grammar check and hands
    /// the input back in the error when it fails.
    pub fn try_from(email: String) -> (r: Result<Email, ParseEmailError>)
        ensures
            r matches Ok(e) ==> e@ == email@ && email_ok(email@),
            r matches Err(e) ==> e@ == email@ && !email_ok(email@),
    {
        if is_valid_email(email.as_str()) {
            Ok(Email { email })
        } else {
            Err(ParseEmailError(email))
        }
    }

    /// The wire representation: the address itself.
    pub fn as_str(&self) -> (r: &str)
        ensures
            r@ == self@,
    {
        self.email.as_str()
    }
}

/// The fixed digit-grouped phone pattern: three digits, a dash, three digits.
pub open spec fn phone_ok(s: Seq<char>) -> bool {
    &&& s.len() == 7
    &&& is_dec_digit(s[0])
    &&& is_dec_digit(s[1])
    &&& is_dec_digit(s[2])
    &&& s[3] == '-'
    &&& is_dec_digit(s[4])
    &&& is_dec_digit(s[5])
    &&& is_dec_digit(s[6])
}

/// A phone number matching the fixed digit-grouped pattern.
#[derive(Debug, PartialEq, Eq)]
pub struct PhoneNumber(String);

/// Returned when a string does not match the phone pattern.
#[derive(Debug, Clone, Copy, PartialEq, Eq, Structural)]
pub enum PhoneNumberError {
    RegexViolated,
}

impl View for PhoneNumber {
    type V = Seq<char>;

    closed spec fn view(&self) -> Seq<char> {
        self.0@
    }
}

impl Clone for PhoneNumber {
    fn clone(&self) -> (r: Self)
        ensures
            r == *self,
    {
        proof {
            use_type_invariant(self);
        }
        PhoneNumber(self.0.clone())
    }
}

impl PhoneNumber {
    /// Every phone number matches the pattern.
    #[verifier::type_invariant]
    pub closed spec fn wf(self) -> bool {
        phone_ok(self.0@)
    }

    /// Validating constructor: accepts exactly the strings matching the
    /// digit-grouped pattern.
    pub fn try_new(s: String) -> (r: Result<PhoneNumber, PhoneNumberError>)
        ensures
            r matches Ok(p) ==> p@ == s@ && phone_ok(s@),
            r is Err ==> !phone_ok(s@) && r == Err::<PhoneNumber, PhoneNumberError>(
                PhoneNumberError::RegexViolated,
            ),
    {
        let raw = s.as_str();
        if raw.unicode_len() != 7 {
            return Err(PhoneNumberError::RegexViolated);
        }
        let mut i: usize = 0;
        while i < 7
            invariant
                i <= 7,
                raw@ == s@,
                s@.len() == 7,
                forall|j: int|
                    0 <= j < i ==> if j == 3 {
                        s@[j] == '-'
                    } else {
                        is_dec_digit(s@[j])
                    },
            decreases 7 - i,
        {
            let c = raw.get_char(i);
            if i == 3 {
                if c != '-' {
                    return Err(PhoneNumberError::RegexViolated);
                }
            } else {
                if !('0' <= c && c <= '9') {
                    return Err(PhoneNumberError::RegexViolated);
                }
            }
            i += 1;
        }
        Ok(PhoneNumber(s))
    }

    /// The wire representation: the number itself.
    pub fn as_str(&self) -> (r: &str)
        ensures
            r@ == self@,
    {
        self.0.as_str()
    }
}

} // verus!

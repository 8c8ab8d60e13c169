//! The opaque, write-only payment capture token.

use vstd::prelude::*;

verus! {

/// The fixed placeholder that stands for a payment token in every rendering
/// and every re-serialized form.
pub open spec fn redaction_placeholder() -> Seq<char> {
    "<SECRET>"@
}

/// An opaque payment capture token. Any string is accepted on input —
/// payment validation is out of scope — but the token is write-only: no
/// textual rendering of it exists, and every output path shows the fixed
/// redaction placeholder instead. For that reason the type deliberately
/// offers no `Debug` form and no accessor for the raw token.
#[derive(PartialEq, Eq)]
pub struct PaymentInfo(String);

impl View for PaymentInfo {
    type V = Seq<char>;

    closed spec fn view(&self) -> Seq<char> {
        self.0@
    }
}

impl Clone for PaymentInfo {
    fn clone(&self) -> (r: Self)
        ensures
            r == *self,
    {
        PaymentInfo(self.0.clone())
    }
}

impl PaymentInfo {
    /// Captures a token as-is.
    pub fn new(s: String) -> (r: PaymentInfo)
        ensures
            r@ == s@,
    {
        PaymentInfo(s)
    }

    /// The only textual form of a token: the fixed redaction placeholder,
    /// whatever the token holds.
    pub fn redacted(&self) -> (r: &'static str)
        ensures
            r@ == redaction_placeholder(),
    {
        "<SECRET>"
    }
}

} // verus!

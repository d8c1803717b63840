//! The one kind of error of this library: a message for the caller.

use vstd::prelude::*;

verus! {

/// Why a request could not be carried out, in words.
#[derive(Debug, PartialEq, Eq)]
pub struct Failure {
    pub message: String,
}

impl View for Failure {
    type V = Seq<char>;

    open spec fn view(&self) -> Seq<char> {
        self.message@
    }
}

impl Failure {
    /// The failure with the given message.
    pub fn new(message: &str) -> (r: Failure)
        ensures
            r@ == message@,
    {
        Failure { message: message.to_owned() }
    }

    /// The failure whose message is made of three texts.
    pub fn about(before: &str, subject: &str, after: &str) -> (r: Failure)
        ensures
            r@ == before@ + subject@ + after@,
    {
        Failure { message: crate::text::glue3(before, subject, after) }
    }
}

/// What the caller of a fallible function sees of a text or a message.
pub open spec fn outcome(r: Result<String, Failure>) -> Result<Seq<char>, Seq<char>> {
    match r {
        Ok(s) => Ok(s@),
        Err(e) => Err(e@),
    }
}

/// What came of a fallible function is its text or its message.
pub proof fn an_outcome_is_a_text_or_a_message(s: String, e: Failure)
    ensures
        outcome(Ok(s)) == Ok::<Seq<char>, Seq<char>>(s@),
        outcome(Err(e)) == Err::<Seq<char>, Seq<char>>(e.message@),
{
}

} // verus!

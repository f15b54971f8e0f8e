//! Messages for panics caught while running a test.

use vstd::prelude::*;

verus! {

/// The message of a panic that fails the current test because of the plugin's behavior, as
/// opposed to a bug in the validator.
pub struct TestFailure(pub String);

/// What a panic carried, as far as the validator distinguishes it.
pub enum PanicPayload {
    /// A panic with a text message (`&str` or `String`).
    Message(String),
    /// A test failure raised on purpose.
    TestFailure(TestFailure),
    /// Anything else.
    Other,
}

/// The suffix added to messages of panics that are bugs in the validator.
pub open spec fn bug_suffix() -> Seq<char> {
    ". This is a bug in the validator"@
}

/// What [`panic_message`] gives for a payload.
pub open spec fn spec_panic_message(panic: PanicPayload) -> Seq<char> {
    match panic {
        PanicPayload::Message(s) => s@ + bug_suffix(),
        PanicPayload::TestFailure(f) => f.0@,
        PanicPayload::Other => "A panic occurred. This is a bug in the validator"@,
    }
}

/// The message to report for a panic: a test failure's own message, or the panic's text marked
/// as a bug in the validator.
pub fn panic_message(panic: &PanicPayload) -> (r: String)
    ensures
        r@ == spec_panic_message(*panic),
{
    match panic {
        PanicPayload::Message(s) => s.clone().concat(". This is a bug in the validator"),
        PanicPayload::TestFailure(f) => f.0.clone(),
        PanicPayload::Other => String::from_str("A panic occurred. This is a bug in the validator"),
    }
}

} // verus!

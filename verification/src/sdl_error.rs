//! The error of a failed SDL call: which entry point failed, and the message
//! SDL left for it. Reading SDL's message is the application's part.

use vstd::prelude::*;

verus! {

#[derive(Clone, Debug, PartialEq, Eq)]
pub struct SdlError {
    call: &'static str,
    message: String,
}

/// How a failure reads: `"<call> failed"`, followed by `": <message>"`
/// where there is a message, since not every failure sets one.
pub open spec fn describe_failure(call: Seq<char>, message: Seq<char>) -> Seq<char> {
    if message.len() == 0 {
        call + " failed"@
    } else {
        call + " failed: "@ + message
    }
}

impl SdlError {
    pub closed spec fn call_name(self) -> Seq<char> {
        self.call@
    }

    pub closed spec fn message_text(self) -> Seq<char> {
        self.message@
    }

    /// The failure of `call`, with `message`.
    pub fn with_message(call: &'static str, message: String) -> (e: SdlError)
        ensures
            e.call_name() == call@,
            e.message_text() == message@,
    {
        SdlError { call, message }
    }

    pub fn call(&self) -> (c: &'static str)
        ensures
            c@ == self.call_name(),
    {
        self.call
    }

    pub fn message(&self) -> (m: &str)
        ensures
            m@ == self.message_text(),
    {
        self.message.as_str()
    }

    /// How the failure reads.
    pub fn describe(&self) -> (s: String)
        ensures
            s@ == describe_failure(self.call_name(), self.message_text()),
    {
        let mut text = String::from_str(self.call);
        if self.message.as_str().is_empty() {
            text.append(" failed");
        } else {
            text.append(" failed: ");
            text.append(self.message.as_str());
        }
        text
    }
}

/// The first step of initializing SDL, given whether it was already
/// initialized when the flag was claimed: SDL is initialized once per
/// process.
pub fn claim_init(already_initialized: bool) -> (r: Result<(), SdlError>)
    ensures
        !already_initialized ==> r is Ok,
        already_initialized ==> (r matches Err(e) && e.call_name() == "SDL_Init"@
            && e.message_text() == "SDL is already initialized"@),
{
    if already_initialized {
        return Err(
            SdlError::with_message("SDL_Init", String::from_str("SDL is already initialized")),
        );
    }
    Ok(())
}

/// The outcome of an SDL entry point that reports success as a boolean:
/// on failure, the error carries the message that `read_message` reads from
/// SDL, which is read only then.
pub fn check<F>(call: &'static str, ok: bool, read_message: F) -> (r: Result<(), SdlError>) where
    F: FnOnce() -> String,

    requires
        !ok ==> read_message.requires(()),
    ensures
        ok ==> r is Ok,
        !ok ==> (r matches Err(e) && e.call_name() == call@ && exists|m: String|
            read_message.ensures((), m) && e.message_text() == m@),
{
    if ok {
        Ok(())
    } else {
        let message = read_message();
        Err(SdlError::with_message(call, message))
    }
}

} // verus!

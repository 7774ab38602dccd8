use vstd::prelude::*;

use crate::error::{Cause, Error};
use crate::sys::Platform;

verus! {

/// The message of the error for a platform that has no notifier.
pub open spec fn unsupported_message() -> Seq<char> {
    "Unsupported platform"@
}

/// The command that shows a desktop notification on `platform`, as its program and its
/// arguments: `notify-send`, the title and the message on Linux. Other platforms have no
/// notifier and give a general error.
pub fn notify_command(platform: Platform, title: &str, message: &str) -> (r: Result<
    Vec<String>,
    Error,
>)
    ensures
        platform == Platform::Linux <==> r is Ok,
        r matches Ok(args) ==> args@.len() == 3 && args@[0]@ == "notify-send"@ && args@[1]@
            == title@ && args@[2]@ == message@,
        r matches Err(e) ==> e.cause == Cause::GeneralError(e.message) && e.message@
            == unsupported_message(),
{
    match platform {
        Platform::Linux => Ok(
            vec![String::from_str("notify-send"), String::from_str(title), String::from_str(message)],
        ),
        _ => {
            let msg = String::from_str("Unsupported platform");
            Err(Error { cause: Cause::GeneralError(msg.clone()), message: msg })
        },
    }
}

/// The outcome of a notifier that exited with or without success.
pub fn notify_outcome(success: bool) -> (r: Result<(), Error>)
    ensures
        success <==> r is Ok,
        r matches Err(e) ==> e.cause == Cause::IOError && e.message@
            == "Non-zero status code when calling notify-send"@,
{
    if success {
        Ok(())
    } else {
        Err(Error::new(Cause::IOError, "Non-zero status code when calling notify-send"))
    }
}

} // verus!

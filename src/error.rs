use vstd::prelude::*;

verus! {

/// Possible error causes, to handle failures without going into their detail.
#[derive(Debug, PartialEq)]
pub enum Cause {
    AlreadyExists,
    NotFound,
    /// An invalid state met in a concurrent situation, such as awaiting a stopped thread.
    ConcurrencyError,
    /// Invalid data from the user.
    InvalidData,
    /// An operation failed on a corrupt state; recovery is often impossible.
    InvalidState,
    /// Data could not be serialized or deserialized.
    SerializationError,
    /// A failure of input or output.
    IOError,
    /// A failure of the system clock.
    TimeError,
    /// A failure from another crate, or one not described by the other causes.
    GeneralError(String),
}

/// The name of a cause as it shows in an error's description.
pub open spec fn cause_label(c: Cause) -> Seq<char> {
    match c {
        Cause::AlreadyExists => "AlreadyExists"@,
        Cause::NotFound => "NotFound"@,
        Cause::ConcurrencyError => "ConcurrencyError"@,
        Cause::InvalidData => "InvalidData"@,
        Cause::InvalidState => "InvalidState"@,
        Cause::SerializationError => "SerializationError"@,
        Cause::IOError => "IOError"@,
        Cause::TimeError => "TimeError"@,
        Cause::GeneralError(d) => "GeneralError(\""@ + d@ + "\")"@,
    }
}

/// How an error with this cause and message is described: `[cause] - message`.
pub open spec fn describe_error(cause: Cause, message: Seq<char>) -> Seq<char> {
    "["@ + cause_label(cause) + "] - "@ + message
}

impl Cause {
    /// The name of the cause; a general error shows its detail in quotes.
    pub fn label(&self) -> (r: String)
        ensures
            r@ == cause_label(*self),
    {
        match self {
            Cause::AlreadyExists => String::from_str("AlreadyExists"),
            Cause::NotFound => String::from_str("NotFound"),
            Cause::ConcurrencyError => String::from_str("ConcurrencyError"),
            Cause::InvalidData => String::from_str("InvalidData"),
            Cause::InvalidState => String::from_str("InvalidState"),
            Cause::SerializationError => String::from_str("SerializationError"),
            Cause::IOError => String::from_str("IOError"),
            Cause::TimeError => String::from_str("TimeError"),
            Cause::GeneralError(d) => {
                let mut r = String::from_str("GeneralError(\"");
                r.append(d.as_str());
                r.append("\")");
                r
            },
        }
    }
}

/// A failure: its cause and a message with more detail.
#[derive(Debug)]
pub struct Error {
    /// The cause of the error.
    pub cause: Cause,
    /// Additional information on the error.
    pub message: String,
}

/// std's input and output error, carried through as it is.
#[verifier::external_type_specification]
#[verifier::external_body]
pub struct ExIoError(std::io::Error);

/// std's error for a clock read before the epoch, carried through as it is.
#[verifier::external_type_specification]
#[verifier::external_body]
pub struct ExSystemTimeError(std::time::SystemTimeError);

/// Relies on the `Display` of std::io::Error: its text, which the system may supply.
#[verifier::external_body]
fn io_error_text(e: &std::io::Error) -> String {
    format!("{}", e)
}

/// Relies on the `Display` of std::time::SystemTimeError: its text.
#[verifier::external_body]
fn time_error_text(e: &std::time::SystemTimeError) -> String {
    format!("{}", e)
}

impl Error {
    /// An error of the given cause, with `msg` as its message.
    pub fn new(cause: Cause, msg: &str) -> (r: Error)
        ensures
            r.cause == cause,
            r.message@ == msg@,
    {
        Error { cause, message: String::from_str(msg) }
    }

    /// An input or output failure, with the text of `e` as its message.
    pub fn from_io(e: std::io::Error) -> (r: Error)
        ensures
            r.cause == Cause::IOError,
    {
        let text = io_error_text(&e);
        Error::new(Cause::IOError, text.as_str())
    }

    /// A clock failure, with the text of `e` as its message.
    pub fn from_time(e: std::time::SystemTimeError) -> (r: Error)
        ensures
            r.cause == Cause::TimeError,
    {
        let text = time_error_text(&e);
        Error::new(Cause::TimeError, text.as_str())
    }

    /// The description of the error: `[cause] - message`.
    pub fn describe(&self) -> (r: String)
        ensures
            r@ == describe_error(self.cause, self.message@),
    {
        let mut r = String::from_str("[");
        let label = self.cause.label();
        r.append(label.as_str());
        r.append("] - ");
        r.append(self.message.as_str());
        r
    }
}

impl From<std::io::Error> for Error {
    /// An input or output failure, with the text of `v` as its message.
    fn from(v: std::io::Error) -> (r: Error)
        ensures
            r.cause == Cause::IOError,
    {
        Error::from_io(v)
    }
}

/// The message comes from the system, so no value is promised for the conversion as a
/// whole; the cause is stated on `from` itself.
impl vstd::std_specs::convert::FromSpecImpl<std::io::Error> for Error {
    open spec fn obeys_from_spec() -> bool {
        false
    }

    open spec fn from_spec(v: std::io::Error) -> Error {
        arbitrary()
    }
}

impl From<std::time::SystemTimeError> for Error {
    /// A clock failure, with the text of `v` as its message.
    fn from(v: std::time::SystemTimeError) -> (r: Error)
        ensures
            r.cause == Cause::TimeError,
    {
        Error::from_time(v)
    }
}

/// The message comes from the error's text, so no value is promised for the conversion as
/// a whole; the cause is stated on `from` itself.
impl vstd::std_specs::convert::FromSpecImpl<std::time::SystemTimeError> for Error {
    open spec fn obeys_from_spec() -> bool {
        false
    }

    open spec fn from_spec(v: std::time::SystemTimeError) -> Error {
        arbitrary()
    }
}

/// The result of an operation that fails with an [`Error`].
pub type CausedResult<T> = Result<T, Error>;

} // verus!

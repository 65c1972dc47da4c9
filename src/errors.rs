use vstd::prelude::*;

verus! {

/// What went wrong while loading a configuration.
#[derive(Debug, Clone, Copy, PartialEq, Eq, Structural)]
pub enum ConfigErrorCode {
    OpenError,
    ReadError,
    CloseError,
    ParseError,
}

pub open spec fn code_name(c: ConfigErrorCode) -> Seq<char> {
    match c {
        ConfigErrorCode::OpenError => "OpenError"@,
        ConfigErrorCode::ReadError => "ReadError"@,
        ConfigErrorCode::CloseError => "CloseError"@,
        ConfigErrorCode::ParseError => "ParseError"@,
    }
}

impl ConfigErrorCode {
    /// The variant's name, as used in diagnostic output.
    pub fn name(&self) -> (r: &'static str)
        ensures
            r@ == code_name(*self),
    {
        match self {
            ConfigErrorCode::OpenError => "OpenError",
            ConfigErrorCode::ReadError => "ReadError",
            ConfigErrorCode::CloseError => "CloseError",
            ConfigErrorCode::ParseError => "ParseError",
        }
    }
}

/// A configuration failure: its kind, a message for the user, and detail for
/// diagnostics.
pub struct ConfigError {
    pub code: ConfigErrorCode,
    pub message: String,
    pub extra: String,
}

pub open spec fn open_failed_message(path: Seq<char>) -> Seq<char> {
    "Could not open the file "@ + path
}

pub open spec fn read_failed_message(path: Seq<char>) -> Seq<char> {
    "Couldn't read the file "@ + path
}

pub open spec fn parse_failed_message() -> Seq<char> {
    "Couldn't parse config"@
}

/// The diagnostic rendering of an error: `{ code: C, message: "M", info: E }`.
pub open spec fn describe_spec(code: ConfigErrorCode, message: Seq<char>, extra: Seq<char>) -> Seq<
    char,
> {
    "{ code: "@ + code_name(code) + ", message: \""@ + message + "\", info: "@ + extra + " }"@
}

impl ConfigError {
    pub fn new(code: ConfigErrorCode, message: String, extra: String) -> (r: ConfigError)
        ensures
            r.code == code,
            r.message@ == message@,
            r.extra@ == extra@,
    {
        ConfigError { code, message, extra }
    }

    /// The file at `path` (as the user should see it) could not be opened.
    pub fn open_failed(path: &str, extra: String) -> (r: ConfigError)
        ensures
            r.code == ConfigErrorCode::OpenError,
            r.message@ == open_failed_message(path@),
            r.extra@ == extra@,
    {
        let message = String::from_str("Could not open the file ").concat(path);
        ConfigError { code: ConfigErrorCode::OpenError, message, extra }
    }

    /// The file at `path` was opened but could not be read.
    pub fn read_failed(path: &str, extra: String) -> (r: ConfigError)
        ensures
            r.code == ConfigErrorCode::ReadError,
            r.message@ == read_failed_message(path@),
            r.extra@ == extra@,
    {
        let message = String::from_str("Couldn't read the file ").concat(path);
        ConfigError { code: ConfigErrorCode::ReadError, message, extra }
    }

    /// The file's contents are not a configuration.
    pub fn parse_failed(extra: String) -> (r: ConfigError)
        ensures
            r.code == ConfigErrorCode::ParseError,
            r.message@ == parse_failed_message(),
            r.extra@ == extra@,
    {
        ConfigError {
            code: ConfigErrorCode::ParseError,
            message: String::from_str("Couldn't parse config"),
            extra,
        }
    }

    /// The text shown to the user: the message alone.
    pub fn display(&self) -> (r: String)
        ensures
            r@ == self.message@,
    {
        self.message.clone()
    }

    /// The text for diagnostics, with the kind and the detail.
    pub fn describe(&self) -> (r: String)
        ensures
            r@ == describe_spec(self.code, self.message@, self.extra@),
    {
        let mut r = String::from_str("{ code: ");
        r.append(self.code.name());
        r.append(", message: \"");
        r.append(self.message.as_str());
        r.append("\", info: ");
        r.append(self.extra.as_str());
        r.append(" }");
        r
    }
}

} // verus!

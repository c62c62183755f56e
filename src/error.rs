use vstd::prelude::*;

verus! {

/// An error of the host's I/O layer, carried opaquely as a cause.
#[verifier::external_type_specification]
#[verifier::external_body]
pub struct ExIoError(std::io::Error);

/// An error met while reading a TOML document, carried opaquely as a cause.
#[verifier::external_type_specification]
#[verifier::external_body]
pub struct ExTomlDeError(toml::de::Error);

/// An error met while writing a TOML document, carried opaquely as a cause.
#[verifier::external_type_specification]
#[verifier::external_body]
pub struct ExTomlSerError(toml::ser::Error);

/// Why an environment variable could not be read.
#[derive(Debug)]
pub enum EnvVarFailure {
    /// The variable is not set.
    NotPresent,
    /// The variable is set, but its value is not valid Unicode; the value is
    /// kept with the invalid parts replaced.
    NotUnicode(String),
}

/// The failures of the engine's support systems. Some variants carry only a
/// description; the others also own the lower-level error that caused them.
#[derive(Debug)]
pub enum GameError {
    IOError(String, std::io::Error),
    FileSystemError(String),
    UnknownError(String),
    ThreadPoolError(String),
    DeserializationError(String, toml::de::Error),
    SerializationError(String, toml::ser::Error),
    EnvironmentError(String, EnvVarFailure),
}

/// A borrowed view of the lower-level error wrapped by a `GameError`.
#[derive(Debug)]
pub enum ErrorCause<'a> {
    Io(&'a std::io::Error),
    Deserialization(&'a toml::de::Error),
    Serialization(&'a toml::ser::Error),
    Environment(&'a EnvVarFailure),
}

pub type GameResult<T> = Result<T, GameError>;

/// The short label naming the category of `e`.
pub open spec fn category_of(e: GameError) -> Seq<char> {
    match e {
        GameError::IOError(..) => "LogError"@,
        GameError::FileSystemError(..) => "FileSystemError"@,
        GameError::UnknownError(..) => "UnknownError"@,
        GameError::ThreadPoolError(..) => "ThreadPoolError"@,
        GameError::DeserializationError(..) => "DeserializationError"@,
        GameError::SerializationError(..) => "SerializationError"@,
        GameError::EnvironmentError(..) => "EnvironmentError"@,
    }
}

/// The words that open the message of `e`, before its description.
pub open spec fn heading_of(e: GameError) -> Seq<char> {
    match e {
        GameError::IOError(..) => "IO error: "@,
        GameError::FileSystemError(..) => "File system error: "@,
        GameError::UnknownError(..) => "Unknown error: "@,
        GameError::ThreadPoolError(..) => "ThreadPool error: "@,
        GameError::DeserializationError(..) => "TOML deserialization error: "@,
        GameError::SerializationError(..) => "TOML serialization error: "@,
        GameError::EnvironmentError(..) => "Environment variable error: "@,
    }
}

/// The description that `e` was built with.
pub open spec fn description_of(e: GameError) -> Seq<char> {
    match e {
        GameError::IOError(d, _) => d@,
        GameError::FileSystemError(d) => d@,
        GameError::UnknownError(d) => d@,
        GameError::ThreadPoolError(d) => d@,
        GameError::DeserializationError(d, _) => d@,
        GameError::SerializationError(d, _) => d@,
        GameError::EnvironmentError(d, _) => d@,
    }
}

/// The human-readable message of `e`: `"<Category> error: <description>"`.
pub open spec fn message_of(e: GameError) -> Seq<char> {
    heading_of(e) + description_of(e)
}

/// The variants that wrap a lower-level error.
pub open spec fn has_cause(e: GameError) -> bool {
    match e {
        GameError::IOError(..) => true,
        GameError::DeserializationError(..) => true,
        GameError::SerializationError(..) => true,
        GameError::EnvironmentError(..) => true,
        _ => false,
    }
}

/// A sandbox or readonly rule refused the operation.
pub open spec fn is_policy_violation(e: GameError) -> bool {
    e is FileSystemError
}

impl GameError {
    /// The short label naming this error's category.
    pub fn description(&self) -> (r: &'static str)
        ensures
            r@ == category_of(*self),
    {
        proof {
            reveal_strlit("LogError");
            reveal_strlit("FileSystemError");
            reveal_strlit("UnknownError");
            reveal_strlit("ThreadPoolError");
            reveal_strlit("DeserializationError");
            reveal_strlit("SerializationError");
            reveal_strlit("EnvironmentError");
        }
        match self {
            GameError::IOError(..) => "LogError",
            GameError::FileSystemError(..) => "FileSystemError",
            GameError::UnknownError(..) => "UnknownError",
            GameError::ThreadPoolError(..) => "ThreadPoolError",
            GameError::DeserializationError(..) => "DeserializationError",
            GameError::SerializationError(..) => "SerializationError",
            GameError::EnvironmentError(..) => "EnvironmentError",
        }
    }

    /// The human-readable message: `"<Category> error: <description>"`.
    pub fn message(&self) -> (r: String)
        ensures
            r@ == message_of(*self),
    {
        proof {
            reveal_strlit("IO error: ");
            reveal_strlit("File system error: ");
            reveal_strlit("Unknown error: ");
            reveal_strlit("ThreadPool error: ");
            reveal_strlit("TOML deserialization error: ");
            reveal_strlit("TOML serialization error: ");
            reveal_strlit("Environment variable error: ");
        }
        let (heading, description) = match self {
            GameError::IOError(d, _) => ("IO error: ", d),
            GameError::FileSystemError(d) => ("File system error: ", d),
            GameError::UnknownError(d) => ("Unknown error: ", d),
            GameError::ThreadPoolError(d) => ("ThreadPool error: ", d),
            GameError::DeserializationError(d, _) => ("TOML deserialization error: ", d),
            GameError::SerializationError(d, _) => ("TOML serialization error: ", d),
            GameError::EnvironmentError(d, _) => ("Environment variable error: ", d),
        };
        let mut r = String::from_str(heading);
        r.append(description.as_str());
        r
    }

    /// The lower-level error this one wraps, if its variant carries one.
    pub fn cause(&self) -> (r: Option<ErrorCause<'_>>)
        ensures
            r is Some <==> has_cause(*self),
            self is IOError ==> r == Some(ErrorCause::Io(&self->IOError_1)),
            self is DeserializationError ==> r == Some(
                ErrorCause::Deserialization(&self->DeserializationError_1),
            ),
            self is SerializationError ==> r == Some(
                ErrorCause::Serialization(&self->SerializationError_1),
            ),
            self is EnvironmentError ==> r == Some(
                ErrorCause::Environment(&self->EnvironmentError_1),
            ),
    {
        match self {
            GameError::IOError(_, e) => Some(ErrorCause::Io(e)),
            GameError::FileSystemError(_) => None,
            GameError::UnknownError(_) => None,
            GameError::ThreadPoolError(_) => None,
            GameError::DeserializationError(_, e) => Some(ErrorCause::Deserialization(e)),
            GameError::SerializationError(_, e) => Some(ErrorCause::Serialization(e)),
            GameError::EnvironmentError(_, e) => Some(ErrorCause::Environment(e)),
        }
    }

    /// Wraps a failure of the host's I/O layer.
    pub fn from_io(error: std::io::Error) -> (r: GameError)
        ensures
            r is IOError,
            r->IOError_0@ == "Error while dealing with file"@,
            r->IOError_1 == error,
    {
        proof {
            reveal_strlit("Error while dealing with file");
        }
        GameError::IOError(String::from_str("Error while dealing with file"), error)
    }

    /// Wraps a failure to read a TOML document.
    pub fn from_deserialization(error: toml::de::Error) -> (r: GameError)
        ensures
            r is DeserializationError,
            r->DeserializationError_0@ == "Error while deserializing a TOML file"@,
            r->DeserializationError_1 == error,
    {
        proof {
            reveal_strlit("Error while deserializing a TOML file");
        }
        GameError::DeserializationError(
            String::from_str("Error while deserializing a TOML file"),
            error,
        )
    }

    /// Wraps a failure to write a TOML document.
    pub fn from_serialization(error: toml::ser::Error) -> (r: GameError)
        ensures
            r is SerializationError,
            r->SerializationError_0@ == "Error while serializing a TOML file"@,
            r->SerializationError_1 == error,
    {
        proof {
            reveal_strlit("Error while serializing a TOML file");
        }
        GameError::SerializationError(
            String::from_str("Error while serializing a TOML file"),
            error,
        )
    }

    /// Wraps a failure to read an environment variable.
    pub fn from_environment(error: EnvVarFailure) -> (r: GameError)
        ensures
            r is EnvironmentError,
            r->EnvironmentError_0@ == "Error while reading an environment variable"@,
            r->EnvironmentError_1 == error,
    {
        proof {
            reveal_strlit("Error while reading an environment variable");
        }
        GameError::EnvironmentError(
            String::from_str("Error while reading an environment variable"),
            error,
        )
    }
}

/// Lets `?` turn a host I/O failure into a `GameError`.
impl From<std::io::Error> for GameError {
    fn from(error: std::io::Error) -> (r: GameError)
        ensures
            r is IOError,
            r->IOError_0@ == "Error while dealing with file"@,
            r->IOError_1 == error,
    {
        GameError::from_io(error)
    }
}

/// The conversion is stated by the `ensures` of `from` above; its
/// description is a fresh `String`, which no spec function can build.
impl vstd::std_specs::convert::FromSpecImpl<std::io::Error> for GameError {
    open spec fn obeys_from_spec() -> bool {
        false
    }

    open spec fn from_spec(v: std::io::Error) -> GameError {
        choose|e: GameError| e is IOError && e->IOError_1 == v
    }
}

/// Lets `?` turn a TOML reading failure into a `GameError`.
impl From<toml::de::Error> for GameError {
    fn from(error: toml::de::Error) -> (r: GameError)
        ensures
            r is DeserializationError,
            r->DeserializationError_0@ == "Error while deserializing a TOML file"@,
            r->DeserializationError_1 == error,
    {
        GameError::from_deserialization(error)
    }
}

/// The conversion is stated by the `ensures` of `from` above; its
/// description is a fresh `String`, which no spec function can build.
impl vstd::std_specs::convert::FromSpecImpl<toml::de::Error> for GameError {
    open spec fn obeys_from_spec() -> bool {
        false
    }

    open spec fn from_spec(v: toml::de::Error) -> GameError {
        choose|e: GameError| e is DeserializationError && e->DeserializationError_1 == v
    }
}

/// Lets `?` turn a TOML writing failure into a `GameError`.
impl From<toml::ser::Error> for GameError {
    fn from(error: toml::ser::Error) -> (r: GameError)
        ensures
            r is SerializationError,
            r->SerializationError_0@ == "Error while serializing a TOML file"@,
            r->SerializationError_1 == error,
    {
        GameError::from_serialization(error)
    }
}

/// The conversion is stated by the `ensures` of `from` above; its
/// description is a fresh `String`, which no spec function can build.
impl vstd::std_specs::convert::FromSpecImpl<toml::ser::Error> for GameError {
    open spec fn obeys_from_spec() -> bool {
        false
    }

    open spec fn from_spec(v: toml::ser::Error) -> GameError {
        choose|e: GameError| e is SerializationError && e->SerializationError_1 == v
    }
}

/// Lets `?` turn an environment lookup failure into a `GameError`.
impl From<EnvVarFailure> for GameError {
    fn from(error: EnvVarFailure) -> (r: GameError)
        ensures
            r is EnvironmentError,
            r->EnvironmentError_0@ == "Error while reading an environment variable"@,
            r->EnvironmentError_1 == error,
    {
        GameError::from_environment(error)
    }
}

/// The conversion is stated by the `ensures` of `from` above; its
/// description is a fresh `String`, which no spec function can build.
impl vstd::std_specs::convert::FromSpecImpl<EnvVarFailure> for GameError {
    open spec fn obeys_from_spec() -> bool {
        false
    }

    open spec fn from_spec(v: EnvVarFailure) -> GameError {
        choose|e: GameError| e is EnvironmentError && e->EnvironmentError_1 == v
    }
}

} // verus!

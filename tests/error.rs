use maskerad::{EnvVarFailure, ErrorCause, GameError};

fn io_error() -> std::io::Error {
    std::io::Error::new(std::io::ErrorKind::NotFound, "missing")
}

fn de_error() -> toml::de::Error {
    toml::from_str::<toml::Value>("= no key").unwrap_err()
}

fn ser_error() -> toml::ser::Error {
    toml::to_string(&1u32).unwrap_err()
}

#[test]
fn category_labels() {
    assert_eq!(GameError::from(io_error()).description(), "LogError");
    assert_eq!(GameError::FileSystemError("x".to_string()).description(), "FileSystemError");
    assert_eq!(GameError::UnknownError("x".to_string()).description(), "UnknownError");
    assert_eq!(GameError::ThreadPoolError("x".to_string()).description(), "ThreadPoolError");
    assert_eq!(GameError::from(de_error()).description(), "DeserializationError");
    assert_eq!(GameError::from(ser_error()).description(), "SerializationError");
    assert_eq!(GameError::from(EnvVarFailure::NotPresent).description(), "EnvironmentError");
}

#[test]
fn messages() {
    assert_eq!(GameError::from(io_error()).message(), "IO error: Error while dealing with file");
    assert_eq!(GameError::FileSystemError("bad".to_string()).message(), "File system error: bad");
    assert_eq!(GameError::UnknownError("what".to_string()).message(), "Unknown error: what");
    assert_eq!(GameError::ThreadPoolError("pool".to_string()).message(), "ThreadPool error: pool");
    assert_eq!(
        GameError::from(de_error()).message(),
        "TOML deserialization error: Error while deserializing a TOML file"
    );
    assert_eq!(
        GameError::from(ser_error()).message(),
        "TOML serialization error: Error while serializing a TOML file"
    );
    assert_eq!(
        GameError::from(EnvVarFailure::NotUnicode("a\u{fffd}".to_string())).message(),
        "Environment variable error: Error while reading an environment variable"
    );
}

#[test]
fn causes_are_kept() {
    let e = GameError::from(io_error());
    match e.cause() {
        Some(ErrorCause::Io(c)) => {
            assert_eq!(c.kind(), std::io::ErrorKind::NotFound);
            assert_eq!(c.to_string(), "missing");
        }
        _ => panic!("expected the I/O cause"),
    }
    let e = GameError::from(de_error());
    assert!(matches!(e.cause(), Some(ErrorCause::Deserialization(_))));
    let e = GameError::from(ser_error());
    assert!(matches!(e.cause(), Some(ErrorCause::Serialization(_))));
    let e = GameError::from(EnvVarFailure::NotPresent);
    assert!(matches!(e.cause(), Some(ErrorCause::Environment(EnvVarFailure::NotPresent))));
}

#[test]
fn description_only_variants_have_no_cause() {
    assert!(GameError::FileSystemError("x".to_string()).cause().is_none());
    assert!(GameError::UnknownError("x".to_string()).cause().is_none());
    assert!(GameError::ThreadPoolError("x".to_string()).cause().is_none());
}

#[test]
fn question_mark_converts_io_errors() {
    fn fails() -> maskerad::GameResult<()> {
        Err(io_error())?;
        Ok(())
    }
    assert!(matches!(fails(), Err(GameError::IOError(_, _))));
}

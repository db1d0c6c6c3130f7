use conpty_oxide::error::ErrorSource;
use conpty_oxide::io_error::{is_disconnect_error, IoError, IoErrorKind};
use conpty_oxide::wide::WideString;
use conpty_oxide::win32::{
    ERROR_BROKEN_PIPE, ERROR_HANDLE_EOF, ERROR_NO_DATA, ERROR_PIPE_NOT_CONNECTED,
};
use conpty_oxide::{BackendError, BackendErrorKind, Error, ErrorKind};

fn io_err(kind: IoErrorKind) -> IoError {
    IoError::new(kind, "underlying os error")
}

fn path(text: &str) -> WideString {
    WideString::from_text(text)
}

#[test]
fn display_messages_preserve_diagnostic_context() {
    let cases: [(Error, ErrorKind, &str); 8] = [
        (
            Error::create_console(io_err(IoErrorKind::Other)),
            ErrorKind::CreateConsole,
            "failed to create pseudoconsole",
        ),
        (
            Error::spawn(path("cmd.exe"), io_err(IoErrorKind::NotFound)),
            ErrorKind::Spawn,
            "failed to spawn `cmd.exe`",
        ),
        (
            Error::resize(io_err(IoErrorKind::Other)),
            ErrorKind::Resize,
            "failed to resize pseudoconsole",
        ),
        (
            Error::clear(io_err(IoErrorKind::Other)),
            ErrorKind::Clear,
            "failed to clear pseudoconsole",
        ),
        (
            Error::unsupported_feature("ClearPseudoConsole"),
            ErrorKind::UnsupportedFeature,
            "the ConPTY backend does not support ClearPseudoConsole",
        ),
        (
            Error::invalid_size(0, 80),
            ErrorKind::InvalidSize,
            "invalid pseudoconsole size: 0 rows x 80 cols \
             (each dimension must be 1..=32767)",
        ),
        (
            Error::wait(io_err(IoErrorKind::Other)),
            ErrorKind::Wait,
            "failed to wait for child process",
        ),
        (
            Error::kill(io_err(IoErrorKind::Other)),
            ErrorKind::Kill,
            "failed to kill child process",
        ),
    ];
    for (err, kind, expected) in cases {
        assert_eq!(err.kind(), kind);
        assert_eq!(err.to_string(), expected);
    }
}

#[test]
fn backend_display_messages_preserve_diagnostic_context() {
    let cases: [(BackendError, BackendErrorKind, &str); 5] = [
        (
            BackendError::dll_not_found(path("C:\\app"), io_err(IoErrorKind::NotFound)),
            BackendErrorKind::DllNotFound,
            "conpty.dll not found in `C:\\app`",
        ),
        (
            BackendError::missing_export(path("C:\\app\\conpty.dll"), "CreatePseudoConsole"),
            BackendErrorKind::MissingExport,
            "`C:\\app\\conpty.dll` is missing required export `CreatePseudoConsole`",
        ),
        (
            BackendError::open_console_missing(path("C:\\app\\conpty.dll")),
            BackendErrorKind::OpenConsoleMissing,
            "OpenConsole.exe not found next to `C:\\app\\conpty.dll`",
        ),
        (
            BackendError::version_mismatch(
                path("C:\\app\\conpty.dll"),
                "1.19".to_owned(),
                "1.22".to_owned(),
            ),
            BackendErrorKind::VersionMismatch,
            "version mismatch: `C:\\app\\conpty.dll` reports 1.19 \
             but its OpenConsole.exe reports 1.22",
        ),
        (
            BackendError::unsupported(),
            BackendErrorKind::Unsupported,
            "ConPTY is not available on this version of Windows; \
             Windows 10 1809 (build 17763) or later is required",
        ),
    ];
    for (err, kind, expected) in cases {
        assert_eq!(err.kind(), kind);
        assert_eq!(err.to_string(), expected);
    }
}

#[test]
fn direct_io_accessor_and_source_agree() {
    let err = Error::create_console(io_err(IoErrorKind::PermissionDenied));
    assert_eq!(
        err.io_error().map(IoError::kind),
        Some(IoErrorKind::PermissionDenied)
    );

    match err.source().expect("the source must be retained") {
        ErrorSource::Io(source) => assert_eq!(source.kind(), IoErrorKind::PermissionDenied),
        ErrorSource::Backend(_) => panic!("the source must be an I/O error"),
    }
}

#[test]
fn every_operation_io_error_exposes_the_direct_source_only() {
    let cases = [
        Error::create_console(io_err(IoErrorKind::Other)),
        Error::spawn(path("missing.exe"), io_err(IoErrorKind::NotFound)),
        Error::resize(io_err(IoErrorKind::InvalidInput)),
        Error::clear(io_err(IoErrorKind::PermissionDenied)),
        Error::wait(io_err(IoErrorKind::TimedOut)),
        Error::kill(io_err(IoErrorKind::Interrupted)),
        Error::from(io_err(IoErrorKind::BrokenPipe)),
    ];

    for err in cases {
        assert!(err.io_error().is_some());
        assert!(err.backend_error().is_none());
        assert!(
            matches!(err.source(), Some(ErrorSource::Io(_))),
            "{:?} must retain its direct I/O source",
            err.kind()
        );
        let rendered = format!("{err:?}");
        assert!(rendered.contains("kind"), "{rendered}");
        assert!(rendered.contains("context"), "{rendered}");
    }
}

#[test]
fn context_only_errors_have_no_typed_source() {
    for err in [
        Error::unsupported_feature("ClearPseudoConsole"),
        Error::invalid_size(0, 0),
    ] {
        assert!(err.io_error().is_none());
        assert!(err.backend_error().is_none());
        assert!(err.source().is_none());
    }
}

#[test]
fn backend_source_chain_and_accessors_are_preserved() {
    let err = Error::from(BackendError::dll_not_found(
        path("C:\\app"),
        io_err(IoErrorKind::NotFound),
    ));
    assert_eq!(err.kind(), ErrorKind::Backend);
    assert!(err.io_error().is_none());

    let backend = err
        .backend_error()
        .expect("backend failures retain their typed source");
    assert_eq!(backend.kind(), BackendErrorKind::DllNotFound);
    assert_eq!(
        backend.io_error().map(IoError::kind),
        Some(IoErrorKind::NotFound)
    );

    assert!(matches!(err.source(), Some(ErrorSource::Backend(_))));
    assert!(matches!(backend.source(), Some(ErrorSource::Io(_))));
    let rendered = format!("{backend:?}");
    assert!(rendered.contains("kind"), "{rendered}");
    assert!(rendered.contains("context"), "{rendered}");
}

#[test]
fn backend_errors_without_io_context_report_no_source() {
    let cases = [
        BackendError::missing_export(path("C:\\app\\conpty.dll"), "CreatePseudoConsole"),
        BackendError::open_console_missing(path("C:\\app\\conpty.dll")),
        BackendError::version_mismatch(
            path("C:\\app\\conpty.dll"),
            "1.19".to_owned(),
            "1.22".to_owned(),
        ),
        BackendError::unsupported(),
    ];

    for err in cases {
        assert!(err.io_error().is_none());
        assert!(err.source().is_none());
        let rendered = format!("{err:?}");
        assert!(rendered.contains("kind"), "{rendered}");
        assert!(rendered.contains("context"), "{rendered}");
    }
}

#[test]
fn from_io_error_preserves_kind_and_source() {
    let err = Error::from(io_err(IoErrorKind::BrokenPipe));
    assert_eq!(err.kind(), ErrorKind::Io);
    assert_eq!(
        err.io_error().map(IoError::kind),
        Some(IoErrorKind::BrokenPipe)
    );
}

#[test]
fn an_io_error_shows_its_own_message() {
    assert_eq!(
        Error::from(io_err(IoErrorKind::BrokenPipe)).to_string(),
        "underlying os error"
    );
    assert_eq!(
        Error::from(BackendError::open_console_missing(path("a"))).to_string(),
        "failed to initialize the ConPTY backend"
    );
}

#[test]
fn disconnect_errors_are_recognized() {
    for code in [
        ERROR_BROKEN_PIPE,
        ERROR_HANDLE_EOF,
        ERROR_NO_DATA,
        ERROR_PIPE_NOT_CONNECTED,
    ] {
        let code = i32::try_from(code).expect("the Win32 error code fits in i32");
        assert!(is_disconnect_error(&IoError::from_os(
            code,
            IoErrorKind::Uncategorized,
            "os error"
        )));
    }
    assert!(is_disconnect_error(&IoError::new(
        IoErrorKind::BrokenPipe,
        "synthetic"
    )));
    assert!(!is_disconnect_error(&IoError::new(
        IoErrorKind::PermissionDenied,
        "synthetic"
    )));
}

#[test]
fn other_system_errors_are_not_disconnects() {
    for code in [0, 5, 108, 110, 231, 234, 535, 997] {
        assert!(!is_disconnect_error(&IoError::from_os(
            code,
            IoErrorKind::Uncategorized,
            "os error"
        )));
    }
}

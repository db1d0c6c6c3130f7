use std::cell::Cell;

use conpty_oxide::backend::bundle::{
    absolute_dir, bundle_dir, check_version_pair, find_console_host, log_rejected,
    machine_arch_subdir, native_arch_subdir, native_machine, product_version_path,
    read_product_version, selected_native_machine, translation_count, trim_resource_string,
    validate, version_block_len, version_value_found, BundleFacts, BUNDLE_REJECTED, CONPTY_DLL,
    OPEN_CONSOLE_EXE, UNKNOWN_VERSION,
};
use conpty_oxide::backend::exports::{
    candidate_names, resolve_export, restricted_search_flags, wide_path, ConptyApi, NamedExport,
    CREATE_PSEUDO_CONSOLE,
};
use conpty_oxide::backend::version::{is_white_space, parse_version, versions_are_compatible};
use conpty_oxide::backend::{
    hresult_ok, hresult_to_io_error, log_missing_system_export, SuccessfulCache,
    SYSTEM_EXPORT_MISSING,
};
use conpty_oxide::diagnostics::{LogLevel, LogRecord};
use conpty_oxide::io_error::{IoError, IoErrorKind};
use conpty_oxide::path::join;
use conpty_oxide::wide::WideString;
use conpty_oxide::{BackendError, BackendErrorKind, BackendKind, ConPtyBackend};

fn wide(text: &str) -> WideString {
    WideString::from_text(text)
}

fn export(name: &str, address: usize) -> NamedExport {
    let mut name = name.as_bytes().to_vec();
    name.push(0);
    NamedExport { name, address }
}

fn kernel32() -> Vec<NamedExport> {
    vec![
        export("CreatePseudoConsole", 0x1000),
        export("ResizePseudoConsole", 0x2000),
        export("ClosePseudoConsole", 0x3000),
        export("ReleasePseudoConsole", 0x4000),
    ]
}

fn bundled_exports() -> Vec<NamedExport> {
    let mut exports = kernel32();
    exports.push(export("ConptyCreatePseudoConsole", 0x11000));
    exports.push(export("ConptyResizePseudoConsole", 0x12000));
    exports.push(export("ConptyClosePseudoConsole", 0x13000));
    exports.push(export("ConptyReleasePseudoConsole", 0x14000));
    exports.push(export("ConptyClearPseudoConsole", 0x15000));
    exports
}

fn system() -> ConPtyBackend {
    ConPtyBackend::system(Some(&kernel32()), true, &mut Vec::new())
        .expect("every required export is there")
}

fn from_os(code: i32) -> IoError {
    let kind = match code {
        2 => IoErrorKind::NotFound,
        5 => IoErrorKind::PermissionDenied,
        87 => IoErrorKind::InvalidInput,
        _ => IoErrorKind::Uncategorized,
    };
    IoError::from_os(code, kind, "os error")
}

fn good_facts(dir: &str) -> BundleFacts {
    BundleFacts {
        absolute: Ok(wide(dir)),
        dll_is_file: Ok(true),
        subdir: Some("x64"),
        adjacent_host_is_file: true,
        native_host_is_file: false,
        dll_version: Some("1.24.1234.0".to_owned()),
        host_version: Some("1.24.1234.0".to_owned()),
    }
}

#[test]
fn system_backend_loads_on_this_machine() {
    let backend = system();
    assert_eq!(backend.kind(), &BackendKind::System);
    assert!(!backend.module_pinned());
    assert_eq!(backend.api().create, 0x1000);
}

#[test]
fn supports_release_answers_without_panicking() {
    assert!(system().supports_release());
    let mut old = kernel32();
    old.pop();
    let backend = ConPtyBackend::system(Some(&old), true, &mut Vec::new())
        .expect("the release export is optional");
    assert!(!backend.supports_release());
}

#[test]
fn external_dll_search_policy_is_restricted() {
    const DLL_LOAD_DIR: u32 = 0x0000_0100;
    const SYSTEM32: u32 = 0x0000_0800;
    assert_eq!(restricted_search_flags(), DLL_LOAD_DIR | SYSTEM32);
    assert_ne!(restricted_search_flags() & DLL_LOAD_DIR, 0);
    assert_ne!(restricted_search_flags() & SYSTEM32, 0);
}

#[test]
fn supports_clear_answers_without_panicking() {
    assert!(!system().supports_clear());
    let clearing = ConPtyBackend::system(Some(&bundled_exports()), true, &mut Vec::new()).unwrap();
    assert!(clearing.supports_clear());
    let narrow = ConPtyBackend::system(Some(&bundled_exports()), false, &mut Vec::new()).unwrap();
    assert!(!narrow.supports_clear());
}

#[test]
fn without_release_drops_only_the_release_export() {
    let backend = system();
    let legacy = backend.without_release();
    assert!(
        !legacy.supports_release(),
        "the forced-legacy clone must not report a release export"
    );
    assert_eq!(legacy.kind(), backend.kind());
    // Every other capability survives the strip.
    assert_eq!(legacy.supports_clear(), backend.supports_clear());
    // The original backend is untouched by the stripped clone.
    assert_eq!(backend.supports_release(), system().supports_release());
}

#[test]
fn clones_share_one_resolved_api() {
    let backend = system();
    let clone = backend.clone();
    assert_eq!(clone.kind(), backend.kind());
    assert_eq!(clone.supports_release(), backend.supports_release());
    assert_eq!(clone.api(), backend.api());
}

#[test]
fn resolve_default_matches_automatic_selection() {
    let mut cache = SuccessfulCache::new();
    let automatic = ConPtyBackend::auto(&mut cache, || Ok(system())).unwrap();
    let resolved = ConPtyBackend::auto(&mut cache, || panic!("the selection is cached")).unwrap();
    assert_eq!(resolved.kind(), automatic.kind());
    assert_eq!(resolved.supports_release(), automatic.supports_release());
    assert_eq!(resolved.supports_clear(), automatic.supports_clear());
}

#[test]
fn auto_falls_back_to_the_system_backend() {
    let mut log = Vec::new();
    let backend = ConPtyBackend::detect_auto(
        None,
        |_| panic!("there is no bundle to load"),
        || Ok(system()),
        &mut log,
    )
    .unwrap();
    assert_eq!(backend.kind(), &BackendKind::System);
    assert!(log.is_empty());
}

#[test]
fn auto_reports_a_rejected_bundle_and_uses_the_system() {
    let mut log = Vec::new();
    let dir = wide("C:\\app");
    let backend = ConPtyBackend::detect_auto(
        Some(&dir),
        |dir| Err(BackendError::open_console_missing(join(dir, CONPTY_DLL))),
        || Ok(system()),
        &mut log,
    )
    .unwrap();
    assert_eq!(backend.kind(), &BackendKind::System);
    assert_eq!(log.len(), 1);
    assert_eq!(log[0].level, LogLevel::Warn);
    assert_eq!(log[0].message, BUNDLE_REJECTED);
    assert_eq!(log[0].fields[0].value, "C:\\app");
}

#[test]
fn auto_prefers_a_bundle_that_loads() {
    let mut log = Vec::new();
    let dir = wide("C:\\app");
    let backend = ConPtyBackend::detect_auto(
        Some(&dir),
        |dir| {
            ConPtyBackend::from_dir(
                validate(dir, true, good_facts("C:\\app")),
                true,
                |_| Ok(bundled_exports()),
            )
        },
        || panic!("the system is not needed"),
        &mut log,
    )
    .unwrap();
    assert_eq!(
        backend.kind(),
        &BackendKind::External {
            dll: wide("C:\\app\\conpty.dll")
        }
    );
    assert!(backend.module_pinned());
    assert!(log.is_empty());
}

#[test]
fn successful_cache_retries_after_failure_and_then_stays_cached() {
    let mut cache = SuccessfulCache::new();
    let calls = Cell::new(0);

    let first = cache.get_or_try_init(|| {
        calls.set(calls.get() + 1);
        Err::<u32, &'static str>("retryable")
    });
    assert_eq!(first, Err("retryable"));

    let recovered = cache
        .get_or_try_init(|| {
            calls.set(calls.get() + 1);
            Ok::<u32, &'static str>(42)
        })
        .expect("the second detector must succeed");
    assert_eq!(recovered, 42);

    let cached = cache
        .get_or_try_init(|| {
            calls.set(calls.get() + 1);
            Ok::<u32, &'static str>(99)
        })
        .expect("the cached result must be returned");
    assert_eq!(cached, 42);
    assert_eq!(calls.get(), 2);
}

fn load_nothing(_: &WideString) -> Result<Vec<NamedExport>, IoError> {
    panic!("a bundle that is not valid must not be loaded")
}

#[test]
fn from_dir_reports_a_missing_directory() {
    let missing = "C:\\temp\\no-such-directory";
    let facts = BundleFacts {
        dll_is_file: Err(from_os(2)),
        ..good_facts(missing)
    };
    let err = ConPtyBackend::from_dir(validate(&wide(missing), true, facts), true, load_nothing)
        .expect_err("a missing directory must fail");
    assert_eq!(err.kind(), BackendErrorKind::DllNotFound);
    assert_eq!(
        err.io_error().map(IoError::kind),
        Some(IoErrorKind::NotFound)
    );
    assert!(err.to_string().contains(missing));
}

#[test]
fn from_dir_reports_an_empty_directory() {
    let dir = "C:\\temp\\empty-dir";
    let facts = BundleFacts {
        dll_is_file: Err(from_os(2)),
        adjacent_host_is_file: false,
        ..good_facts(dir)
    };
    let err = ConPtyBackend::from_dir(validate(&wide(dir), true, facts), true, load_nothing)
        .expect_err("an empty directory must fail");
    assert_eq!(err.kind(), BackendErrorKind::DllNotFound);
    assert_eq!(
        err.io_error().map(IoError::kind),
        Some(IoErrorKind::NotFound)
    );
    assert!(err.to_string().contains(dir));
}

#[test]
fn from_dir_reports_a_missing_console_host() {
    for verify_pair in [true, false] {
        let facts = BundleFacts {
            adjacent_host_is_file: false,
            ..good_facts("C:\\app")
        };
        let err = ConPtyBackend::from_dir(
            validate(&wide("C:\\app"), verify_pair, facts),
            true,
            load_nothing,
        )
        .expect_err("a bundle without OpenConsole.exe must fail");
        assert_eq!(err.kind(), BackendErrorKind::OpenConsoleMissing);
        assert!(err.to_string().contains("C:\\app\\conpty.dll"));
    }
}

#[test]
fn from_dir_finds_the_console_host_in_the_native_architecture_subdirectory() {
    let facts = BundleFacts {
        adjacent_host_is_file: false,
        native_host_is_file: true,
        dll_version: None,
        host_version: None,
        ..good_facts("C:\\app")
    };
    let err = validate(&wide("C:\\app"), true, facts)
        .expect_err("placeholder files carry no version resource");
    assert_eq!(err.kind(), BackendErrorKind::VersionMismatch);
    let rendered = err.to_string();
    assert!(rendered.contains(UNKNOWN_VERSION), "{rendered}");
}

#[test]
fn a_console_host_in_a_non_native_subdirectory_is_not_accepted() {
    assert_eq!(
        find_console_host(&wide("C:\\app"), Some("x64"), false, false),
        None
    );
    let facts = BundleFacts {
        adjacent_host_is_file: false,
        native_host_is_file: false,
        ..good_facts("C:\\app")
    };
    let err = validate(&wide("C:\\app"), true, facts)
        .expect_err("a host the DLL would never launch must not validate the bundle");
    assert_eq!(err.kind(), BackendErrorKind::OpenConsoleMissing);
}

#[test]
fn the_native_arch_subdirectory_is_known_on_this_machine() {
    for probe in [None, Some((0, 0)), Some((1, 0xAA64))] {
        let subdir =
            native_arch_subdir(probe, 0x8664).expect("test machines have a known architecture");
        assert!(["x64", "arm64", "x86"].contains(&subdir), "{subdir}");
    }
}

#[test]
fn every_supported_machine_code_maps_to_its_package_directory() {
    assert_eq!(machine_arch_subdir(0x8664), Some("x64"));
    assert_eq!(machine_arch_subdir(0xAA64), Some("arm64"));
    assert_eq!(machine_arch_subdir(0x014c), Some("x86"));
    assert_eq!(machine_arch_subdir(0), None);
}

#[test]
fn native_machine_selection_uses_the_probe_only_after_success() {
    assert_eq!(selected_native_machine(1, 0xAA64, 0x8664), 0xAA64);
    assert_eq!(selected_native_machine(0, 0xAA64, 0x8664), 0x8664);
    assert_eq!(native_machine(None, 0x8664), 0x8664);
    assert_eq!(native_machine(Some((1, 0xAA64)), 0x8664), 0xAA64);
}

#[test]
fn version_resource_lengths_and_padding_are_normalized() {
    assert_eq!(translation_count(0), 0);
    assert_eq!(translation_count(4), 1);
    assert_eq!(translation_count(8), 2);
    assert_eq!(trim_resource_string("\x001.2.3.4\0"), "1.2.3.4");
    assert_eq!(trim_resource_string("  1.2.3.4  "), "1.2.3.4");
}

#[test]
fn a_version_block_is_rounded_up_to_whole_units() {
    for (size, len) in [(0, 0), (1, 1), (4, 1), (5, 2), (8, 2), (u32::MAX, 0x4000_0000)] {
        assert_eq!(version_block_len(size), len);
    }
}

#[test]
fn only_a_found_value_is_read() {
    assert!(version_value_found(1, false, 8));
    assert!(!version_value_found(0, false, 8));
    assert!(!version_value_found(1, true, 8));
    assert!(!version_value_found(1, false, 0));
}

#[test]
fn console_host_search_prefers_the_dll_directory() {
    assert_eq!(
        find_console_host(&wide("C:\\app"), Some("x64"), true, true),
        Some(wide("C:\\app\\OpenConsole.exe"))
    );
    assert_eq!(
        find_console_host(&wide("C:\\app"), Some("x64"), false, true),
        Some(wide("C:\\app\\x64\\OpenConsole.exe"))
    );
}

#[test]
fn console_host_search_reports_nothing_for_an_empty_directory() {
    for subdir in [None, Some("x64")] {
        assert_eq!(
            find_console_host(&wide("C:\\host-none"), subdir, false, false),
            None
        );
    }
}

#[test]
fn from_dir_unchecked_skips_only_the_version_check() {
    let facts = || BundleFacts {
        dll_version: None,
        host_version: None,
        ..good_facts("C:\\temp\\unchecked")
    };
    let dir = wide("C:\\temp\\unchecked");

    let err = ConPtyBackend::from_dir(validate(&dir, true, facts()), true, load_nothing)
        .expect_err("placeholder files carry no version resource");
    assert_eq!(err.kind(), BackendErrorKind::VersionMismatch);

    let err = ConPtyBackend::from_dir(validate(&dir, false, facts()), true, |dll| {
        assert_eq!(dll, &wide("C:\\temp\\unchecked\\conpty.dll"));
        Err(from_os(193))
    })
    .expect_err("an empty file is not a loadable DLL");
    assert_eq!(err.kind(), BackendErrorKind::DllNotFound);
    // Not `NotFound`: the file exists, the loader rejected it.
    assert_ne!(
        err.io_error()
            .expect("DLL load failures retain an I/O error")
            .kind(),
        IoErrorKind::NotFound
    );
    assert!(err.to_string().contains("C:\\temp\\unchecked"));
}

#[test]
fn from_dir_rejects_a_directory_named_like_the_dll() {
    let facts = BundleFacts {
        dll_is_file: Ok(false),
        ..good_facts("C:\\dll-is-a-dir")
    };
    let err = validate(&wide("C:\\dll-is-a-dir"), true, facts)
        .expect_err("a directory is not a loadable DLL");
    assert_eq!(err.kind(), BackendErrorKind::DllNotFound);
    assert_eq!(
        err.io_error().map(IoError::kind),
        Some(IoErrorKind::InvalidInput)
    );
}

#[test]
fn a_relative_directory_is_resolved_against_the_working_directory() {
    let relative = "conpty-oxide-no-such-relative-directory";
    let resolved = absolute_dir(
        &wide(relative),
        false,
        Ok((join(&wide("C:\\work"), relative), true)),
    );
    let facts = BundleFacts {
        absolute: resolved,
        dll_is_file: Err(from_os(2)),
        ..good_facts("")
    };
    let err = validate(&wide(relative), true, facts).expect_err("a missing directory must fail");
    assert_eq!(err.kind(), BackendErrorKind::DllNotFound);
    let rendered = err.to_string();
    assert!(rendered.contains(relative));
    assert!(rendered.contains("C:\\work\\"));
}

#[test]
fn a_drive_relative_directory_is_rejected() {
    let drive_relative = "C:conpty-oxide-drive-relative";
    let refused = || absolute_dir(&wide(drive_relative), false, Ok((wide(drive_relative), false)));

    let err = refused().expect_err("a drive-relative path must not survive absolutization");
    assert_eq!(err.kind(), IoErrorKind::InvalidInput);

    let facts = BundleFacts {
        absolute: refused(),
        ..good_facts("")
    };
    let err = ConPtyBackend::from_dir(
        validate(&wide(drive_relative), true, facts),
        true,
        load_nothing,
    )
    .expect_err("a drive-relative directory must be rejected");
    assert_eq!(err.kind(), BackendErrorKind::DllNotFound);
    assert_eq!(
        err.io_error().map(IoError::kind),
        Some(IoErrorKind::InvalidInput)
    );
    assert!(err.to_string().contains(drive_relative));
}

#[test]
fn a_rooted_driveless_directory_takes_the_working_directory_drive() {
    let resolved = absolute_dir(
        &wide("\\conpty-oxide-rooted"),
        false,
        Ok((wide("C:\\conpty-oxide-rooted"), true)),
    )
    .expect("a rooted path must absolutize");
    assert_eq!(resolved, wide("C:\\conpty-oxide-rooted"));
}

#[test]
fn an_absolute_directory_is_kept_and_an_unknown_working_directory_fails() {
    assert_eq!(
        absolute_dir(&wide("C:\\app"), true, Err(from_os(2))).unwrap(),
        wide("C:\\app")
    );
    let err = absolute_dir(&wide("app"), false, Err(from_os(2))).unwrap_err();
    assert_eq!(err.raw_os_error(), Some(2));
}

#[test]
fn a_name_is_joined_with_one_separator() {
    assert_eq!(join(&wide("C:\\app"), "x"), wide("C:\\app\\x"));
    assert_eq!(join(&wide("C:\\app\\"), "x"), wide("C:\\app\\x"));
    assert_eq!(join(&wide("C:/app/"), "x"), wide("C:/app/x"));
    assert_eq!(join(&wide("C:"), "x"), wide("C:x"));
    assert_eq!(join(&wide(""), "x"), wide("x"));
    // A drive is a letter: anything else before a colon is a name.
    assert_eq!(join(&wide("1:"), "x"), wide("1:\\x"));
}

#[test]
fn a_name_is_joined_to_a_verbatim_directory() {
    let cases = [
        (r"\\?\C:\app", r"\\?\C:\app\x"),
        (r"\\?\C:\app\", r"\\?\C:\app\x"),
        (r"\\?\C:\app/", r"\\?\C:\app/\x"),
        (r"\\?\C:", r"\\?\C:\x"),
        (r"\\?\C:\", r"\\?\C:\x"),
        (r"\\?\C:/app", r"\\?\C:\app\x"),
        (r"\\?\C:\a\\b\\", r"\\?\C:\a\b\x"),
        (r"\\?\name\\a", r"\\?\name\a\x"),
        (r"\\?\UNC\server\share", r"\\?\UNC\server\share\x"),
        (r"\\?\UNC\server\share\\a\", r"\\?\UNC\server\share\a\x"),
        (r"\\?\UNC\server", r"\\?\UNC\server\x"),
        (r"\\?\UNC\\share\a", r"\\?\UNC\\share\a\x"),
        (r"\\server\share/", r"\\server\share/x"),
    ];
    for (dir, joined) in cases {
        assert_eq!(join(&wide(dir), "x"), wide(joined), "joining to {dir}");
    }
}

#[test]
fn parse_version_reads_the_numeric_prefix() {
    let cases: [(&str, Option<[u64; 4]>); 14] = [
        ("1.24.1234.0", Some([1, 24, 1234, 0])),
        ("1.22.10352.0", Some([1, 22, 10352, 0])),
        // The format that the ConPTY packages really use: the build component
        // is a nine-digit date serial, far beyond `u16`.
        ("1.24.260710001", Some([1, 24, 260_710_001, 0])),
        // Missing components are zeroes, so `1.22` == `1.22.0.0`.
        ("1.22", Some([1, 22, 0, 0])),
        ("3", Some([3, 0, 0, 0])),
        // Whitespace and the resource's trailing NUL are not part of the
        // version.
        ("  1.24.1234.0\0", Some([1, 24, 1234, 0])),
        ("\x001.24.1234.0\0", Some([1, 24, 1234, 0])),
        // A trailing label does not invalidate the numbers before it.
        ("1.24.1234.0-preview", Some([1, 24, 1234, 0])),
        // A labeled component contributes its leading digits and ends the
        // version.
        ("1.24.1234-hotfix", Some([1, 24, 1234, 0])),
        ("1.24.1234-hotfix.7", Some([1, 24, 1234, 0])),
        // A fifth component is beyond what the resource format stores.
        ("1.2.3.4.5", Some([1, 2, 3, 4])),
        ("", None),
        ("not a version", None),
        ("v1.24", None),
    ];
    for (text, expected) in cases {
        assert_eq!(parse_version(text), expected, "input: {text:?}");
    }
}

#[test]
fn version_pair_compatibility() {
    let cases: [(Option<&str>, Option<&str>, bool); 11] = [
        (Some("1.24.1234.0"), Some("1.24.1234.0"), true),
        (Some("1.24.260710001"), Some("1.24.260710001"), true),
        // Equal after padding: the same release, spelled two ways.
        (Some("1.22"), Some("1.22.0.0"), true),
        (Some("1.24.1234.0"), Some("1.24.1234.1"), false),
        (Some("1.22.10352.0"), Some("1.24.1234.0"), false),
        // Two releases of the same minor line, in the nine-digit spelling.
        (Some("1.24.260710001"), Some("1.24.260303001"), false),
        // Labeled builds keep their digits, so two different labeled
        // versions must not collapse into the same value.
        (Some("1.24.1234-hotfix"), Some("1.24.20250101-x"), false),
        // An unreadable version is never assumed to match.
        (None, Some("1.24.1234.0"), false),
        (Some("1.24.1234.0"), None, false),
        (None, None, false),
        (Some("junk"), Some("junk"), false),
    ];
    for (dll, host, expected) in cases {
        assert_eq!(
            versions_are_compatible(dll, host),
            expected,
            "inputs: {dll:?} / {host:?}"
        );
        assert_eq!(
            versions_are_compatible(host, dll),
            expected,
            "inputs: {host:?} / {dll:?}"
        );
    }
}

#[test]
fn a_component_beyond_64_bits_is_no_number() {
    assert_eq!(
        parse_version("1.18446744073709551615"),
        Some([1, u64::MAX, 0, 0])
    );
    assert_eq!(parse_version("1.18446744073709551616"), Some([1, 0, 0, 0]));
    assert_eq!(parse_version("18446744073709551616"), None);
    assert_eq!(parse_version("1. 2"), Some([1, 2, 0, 0]));
    assert_eq!(parse_version("1..2"), Some([1, 0, 0, 0]));
}

#[test]
fn a_mismatch_shows_both_versions() {
    let err = check_version_pair(&wide("d"), Some("1.2".to_owned()), None).unwrap_err();
    assert_eq!(
        err.to_string(),
        "version mismatch: `d` reports 1.2 but its OpenConsole.exe reports unknown"
    );
    assert!(check_version_pair(
        &wide("d"),
        Some("1.2".to_owned()),
        Some("1.2.0".to_owned())
    )
    .is_ok());
}

#[test]
fn white_space_is_what_the_standard_library_takes_it_for() {
    for code in 0..=0x10FFFF_u32 {
        if let Some(c) = char::from_u32(code) {
            assert_eq!(is_white_space(c), c.is_whitespace(), "U+{code:04X}");
        }
    }
}

#[test]
fn product_version_of_a_system_binary_is_readable() {
    let units = |text: &str| -> Vec<u16> { text.encode_utf16().collect() };
    let version = read_product_version(&[(0x0000, 0x04B0), (0x0409, 0x04B0)], |path| {
        match path {
            "\\StringFileInfo\\000004b0\\ProductVersion" => Some(units(" \0")),
            "\\StringFileInfo\\040904b0\\ProductVersion" => Some(units("10.0.26100.1\0")),
            other => panic!("unexpected path {other}"),
        }
    })
    .expect("kernel32.dll must carry a version");
    assert_eq!(version, "10.0.26100.1");
    assert!(
        parse_version(&version).is_some(),
        "unparsable version: {version:?}"
    );
}

#[test]
fn reading_a_version_from_a_nonexistent_file_reports_nothing() {
    assert_eq!(read_product_version(&[], |_| panic!("nothing to ask")), None);
    // A resource without a version answers the same way.
    assert_eq!(read_product_version(&[(0x0409, 0x04B0)], |_| None), None);
    assert_eq!(
        product_version_path(0x0409, 0x04E4),
        "\\StringFileInfo\\040904e4\\ProductVersion"
    );
}

#[test]
fn wide_path_rejects_an_interior_nul() {
    let err = wide_path(&wide("C:\\a\0b")).expect_err("an interior NUL must be rejected");
    assert_eq!(err.kind(), IoErrorKind::InvalidInput);

    let wide = wide_path(&wide("C:\\a")).expect("a plain path must widen");
    // `C`, `:`, `\`, `a`, and the terminator this function appends.
    assert_eq!(wide.len(), 5);
    assert_eq!(wide.last(), Some(&0));
}

#[test]
fn bare_export_names_resolve_from_kernel32() {
    // The bare names only are there, so this also shows that the prefixed
    // attempt falls through instead of failing.
    assert_eq!(
        resolve_export(&kernel32(), CREATE_PSEUDO_CONSOLE),
        Some(0x1000)
    );
    assert_eq!(resolve_export(&kernel32(), "ThisExportDoesNotExist"), None);
}

#[test]
fn the_prefixed_spelling_comes_first() {
    assert_eq!(
        resolve_export(&bundled_exports(), CREATE_PSEUDO_CONSOLE),
        Some(0x11000)
    );
    let names = candidate_names();
    assert_eq!(names.len(), 10);
    assert!(names.contains(&b"ConptyClearPseudoConsole\0".to_vec()));
    assert!(names.contains(&b"ReleasePseudoConsole\0".to_vec()));
}

#[test]
fn a_missing_required_export_is_named() {
    let mut exports = kernel32();
    exports.remove(1);
    assert_eq!(
        ConptyApi::from_module(&exports, true),
        Err("ResizePseudoConsole")
    );

    let mut log: Vec<LogRecord> = Vec::new();
    let err = ConPtyBackend::system(Some(&exports), true, &mut log).unwrap_err();
    assert_eq!(err.kind(), BackendErrorKind::Unsupported);
    assert_eq!(log.len(), 1);
    assert_eq!(log[0].message, SYSTEM_EXPORT_MISSING);
    assert_eq!(log[0].fields[0].value, "ResizePseudoConsole");

    let err = ConPtyBackend::from_dir(
        validate(&wide("C:\\app"), true, good_facts("C:\\app")),
        true,
        |_| Ok(exports),
    )
    .unwrap_err();
    assert_eq!(err.kind(), BackendErrorKind::MissingExport);

    let mut log = Vec::new();
    let err = ConPtyBackend::system(None, true, &mut log).unwrap_err();
    assert_eq!(err.kind(), BackendErrorKind::Unsupported);
    assert!(log.is_empty());
}

#[test]
fn hresult_ok_accepts_success_codes() {
    assert!(hresult_ok(0, from_os).is_ok()); // S_OK
    assert!(hresult_ok(1, from_os).is_ok()); // S_FALSE is a success code
    assert!(hresult_ok(i32::MAX, from_os).is_ok());
}

#[test]
fn hresult_ok_rejects_failure_codes() {
    let hr = i32::from_ne_bytes(0x8007_0005_u32.to_ne_bytes());
    let err = hresult_ok(hr, from_os).expect_err("a failed HRESULT must stay an error");
    assert_eq!(err.kind(), IoErrorKind::PermissionDenied);
}

#[test]
fn rejected_optional_bundle_is_logged() {
    let mut events = Vec::new();
    events.push(log_rejected(
        &wide("rejected-bundle"),
        &BackendError::unsupported(),
    ));
    assert_eq!(events.len(), 1);
    assert_eq!(events[0].level, LogLevel::Warn);
    assert_eq!(events[0].fields[0].name, "dir");
    assert_eq!(events[0].fields[0].value, "rejected-bundle");
    assert_eq!(events[0].fields[1].name, "error");
    assert_eq!(
        events[0].fields[1].value,
        BackendError::unsupported().to_string()
    );
}

#[test]
fn missing_system_export_is_logged() {
    let mut events = Vec::new();
    events.push(log_missing_system_export("MissingConPtyExport"));
    assert_eq!(events.len(), 1);
    assert_eq!(events[0].level, LogLevel::Warn);
    assert_eq!(events[0].fields[0].name, "symbol");
    assert_eq!(events[0].fields[0].value, "MissingConPtyExport");
}

#[test]
fn hresult_win32_facility_unwraps_to_the_os_error() {
    // HRESULT_FROM_WIN32(ERROR_ACCESS_DENIED)
    let err = hresult_to_io_error(
        i32::from_ne_bytes(0x8007_0005_u32.to_ne_bytes()),
        from_os,
    );
    assert_eq!(err.raw_os_error(), Some(5));
    assert_eq!(err.kind(), IoErrorKind::PermissionDenied);

    // E_INVALIDARG is HRESULT_FROM_WIN32(ERROR_INVALID_PARAMETER)
    let err = hresult_to_io_error(
        i32::from_ne_bytes(0x8007_0057_u32.to_ne_bytes()),
        from_os,
    );
    assert_eq!(err.raw_os_error(), Some(87));
}

#[test]
fn hresult_other_facilities_pass_through() {
    // E_NOTIMPL lives in FACILITY_NULL, so there is nothing to unwrap and
    // the raw code must survive verbatim.
    let hr = i32::from_ne_bytes(0x8000_4001_u32.to_ne_bytes());
    assert_eq!(hresult_to_io_error(hr, from_os).raw_os_error(), Some(hr));

    // A success code must never be handed to the converter, but if it is,
    // it still round-trips rather than being misread as FACILITY_WIN32.
    assert_eq!(
        hresult_to_io_error(0x0001_0000, from_os).raw_os_error(),
        Some(0x1_0000)
    );
}

#[test]
fn the_file_names_of_a_bundle_are_fixed() {
    assert_eq!(CONPTY_DLL, "conpty.dll");
    assert_eq!(OPEN_CONSOLE_EXE, "OpenConsole.exe");
}

#[test]
fn a_bundle_is_tried_only_where_there_is_a_library() {
    let dir = || Some(wide("C:\\app"));
    assert_eq!(bundle_dir(dir(), true), dir());
    assert_eq!(bundle_dir(dir(), false), None);
    assert_eq!(bundle_dir(None, true), None);
}

#[test]
fn a_label_ends_a_version_and_padding_is_no_part_of_it() {
    assert_eq!(parse_version("1.24"), Some([1, 24, 0, 0]));
    assert_eq!(parse_version("1.24.2-beta.7"), Some([1, 24, 2, 0]));
    assert_eq!(
        parse_version("1.24.2-beta.7"),
        parse_version("1.24.2-beta.8.9")
    );
    let padded = "\0 1.24.2 \0";
    let trimmed = trim_resource_string(padded);
    assert_eq!(trimmed, "1.24.2");
    assert_eq!(trim_resource_string(trimmed), trimmed);
    assert_eq!(parse_version(trimmed), parse_version(padded));
}

#[test]
fn kinds_can_be_kept_in_a_hash_set() {
    let mut kinds = std::collections::HashSet::new();
    kinds.insert(BackendKind::System);
    kinds.insert(BackendKind::External {
        dll: wide("C:\\app\\conpty.dll"),
    });
    assert!(kinds.contains(&BackendKind::System));
    assert!(!kinds.contains(&BackendKind::External {
        dll: wide("C:\\other\\conpty.dll")
    }));
}

use conpty_oxide::text::{push_decimal, push_hexadecimal};
use conpty_oxide::wide::{contains_nul, contains_unit, text_lossy, WideString};
use conpty_oxide::win32;
use windows_sys::Win32::Foundation as foundation;
use windows_sys::Win32::Storage::FileSystem as files;
use windows_sys::Win32::System::Console as console;
use windows_sys::Win32::System::LibraryLoader as loader;
use windows_sys::Win32::System::Pipes as pipes;
use windows_sys::Win32::System::SystemInformation as machines;
use windows_sys::Win32::System::Threading as threading;

use conpty_oxide::backend::{bundle, exports};

#[test]
fn numbers_are_written_like_the_standard_library_writes_them() {
    for n in [
        0,
        1,
        9,
        10,
        15,
        16,
        99,
        100,
        255,
        256,
        65_535,
        4_294_967_295,
        u64::MAX - 1,
        u64::MAX,
    ] {
        let mut decimal = String::from("n=");
        push_decimal(&mut decimal, n);
        assert_eq!(decimal, format!("n={n}"));
        let mut hexadecimal = String::from("0x");
        push_hexadecimal(&mut hexadecimal, n);
        assert_eq!(hexadecimal, format!("{n:#x}"));
    }
}

#[test]
fn every_character_is_encoded_like_the_standard_library_encodes_it() {
    for code in 0..=0x10FFFF_u32 {
        if let Some(c) = char::from_u32(code) {
            let text = c.to_string();
            let wide = WideString::from_text(&text);
            let expected: Vec<u16> = text.encode_utf16().collect();
            assert_eq!(wide.as_units(), &expected[..]);
            assert_eq!(wide.to_text_lossy(), text);
        }
    }
}

#[test]
fn unpaired_surrogates_are_replaced_like_the_standard_library_replaces_them() {
    let cases: [&[u16]; 10] = [
        &[],
        &[0x61],
        &[0xD800],
        &[0xDC00],
        &[0xD83D, 0xDE00],
        &[0xDE00, 0xD83D],
        &[0xD83D, 0x61],
        &[0xD83D, 0xD83D, 0xDE00],
        &[0x61, 0xD83D],
        &[0xFFFF, 0xE000, 0xD7FF],
    ];
    for units in cases {
        assert_eq!(text_lossy(units), String::from_utf16_lossy(units));
        assert_eq!(
            WideString::from_units(units.to_vec()).to_text_lossy(),
            String::from_utf16_lossy(units)
        );
    }
}

#[test]
fn units_are_found() {
    assert!(contains_nul(&[1, 0, 2]));
    assert!(!contains_nul(&[1, 2]));
    assert!(contains_unit(&[1, 2], 2));
    assert!(!contains_unit(&[], 2));
}

#[test]
fn a_clone_is_equal() {
    let text = WideString::from_text("C:\\\u{e9}");
    assert_eq!(text.clone(), text);
    assert_ne!(text, WideString::from_text("C:\\e"));
}

#[test]
fn error_codes_are_those_of_the_system() {
    assert_eq!(win32::ERROR_ACCESS_DENIED, foundation::ERROR_ACCESS_DENIED);
    assert_eq!(win32::ERROR_HANDLE_EOF, foundation::ERROR_HANDLE_EOF);
    assert_eq!(win32::ERROR_BROKEN_PIPE, foundation::ERROR_BROKEN_PIPE);
    assert_eq!(win32::ERROR_PIPE_BUSY, foundation::ERROR_PIPE_BUSY);
    assert_eq!(win32::ERROR_NO_DATA, foundation::ERROR_NO_DATA);
    assert_eq!(
        win32::ERROR_PIPE_NOT_CONNECTED,
        foundation::ERROR_PIPE_NOT_CONNECTED
    );
    assert_eq!(
        win32::ERROR_PIPE_CONNECTED,
        foundation::ERROR_PIPE_CONNECTED
    );
    assert_eq!(win32::ERROR_IO_PENDING, foundation::ERROR_IO_PENDING);
    assert_eq!(win32::WAIT_OBJECT_0, foundation::WAIT_OBJECT_0);
    assert_eq!(win32::WAIT_TIMEOUT, foundation::WAIT_TIMEOUT);
    assert_eq!(win32::WAIT_FAILED, foundation::WAIT_FAILED);
}

#[test]
fn flags_are_those_of_the_system() {
    assert_eq!(
        win32::PSEUDOCONSOLE_INHERIT_CURSOR,
        console::PSEUDOCONSOLE_INHERIT_CURSOR
    );
    assert_eq!(win32::PIPE_ACCESS_INBOUND, files::PIPE_ACCESS_INBOUND);
    assert_eq!(win32::PIPE_ACCESS_OUTBOUND, files::PIPE_ACCESS_OUTBOUND);
    assert_eq!(win32::FILE_FLAG_OVERLAPPED, files::FILE_FLAG_OVERLAPPED);
    assert_eq!(
        win32::FILE_FLAG_FIRST_PIPE_INSTANCE,
        files::FILE_FLAG_FIRST_PIPE_INSTANCE
    );
    assert_eq!(win32::GENERIC_READ, foundation::GENERIC_READ);
    assert_eq!(win32::GENERIC_WRITE, foundation::GENERIC_WRITE);
    assert_eq!(win32::PIPE_TYPE_BYTE, pipes::PIPE_TYPE_BYTE);
    assert_eq!(win32::PIPE_READMODE_BYTE, pipes::PIPE_READMODE_BYTE);
    assert_eq!(win32::PIPE_WAIT, pipes::PIPE_WAIT);
    assert_eq!(
        win32::PIPE_REJECT_REMOTE_CLIENTS,
        pipes::PIPE_REJECT_REMOTE_CLIENTS
    );
    assert_eq!(
        win32::CREATE_UNICODE_ENVIRONMENT,
        threading::CREATE_UNICODE_ENVIRONMENT
    );
    assert_eq!(
        win32::EXTENDED_STARTUPINFO_PRESENT,
        threading::EXTENDED_STARTUPINFO_PRESENT
    );
    assert_eq!(
        exports::LOAD_LIBRARY_SEARCH_DLL_LOAD_DIR,
        loader::LOAD_LIBRARY_SEARCH_DLL_LOAD_DIR
    );
    assert_eq!(
        exports::LOAD_LIBRARY_SEARCH_SYSTEM32,
        loader::LOAD_LIBRARY_SEARCH_SYSTEM32
    );
    assert_eq!(
        bundle::IMAGE_FILE_MACHINE_I386,
        machines::IMAGE_FILE_MACHINE_I386
    );
    assert_eq!(
        bundle::IMAGE_FILE_MACHINE_AMD64,
        machines::IMAGE_FILE_MACHINE_AMD64
    );
    assert_eq!(
        bundle::IMAGE_FILE_MACHINE_ARM64,
        machines::IMAGE_FILE_MACHINE_ARM64
    );
}

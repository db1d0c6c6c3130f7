//! Discovery and validation of standalone `conpty.dll` bundles.
//!
//! A bundle is `conpty.dll` plus the `OpenConsole.exe` that it launches. The two
//! share a private protocol, so a pair that cannot be proved to match is
//! rejected, and every check comes before executable code is mapped. What the
//! file system says comes in as plain values.

use vstd::prelude::*;
use vstd::string::*;

use super::version::{chars_of, compatible, trim_range, trimmed, versions_are_compatible};
use crate::diagnostics::{LogLevel, LogRecord};
use crate::error::BackendError;
use crate::io_error::{IoError, IoErrorKind};
use crate::path::{join, joined};
use crate::text::{digit, digit_char, hexadecimal};
use crate::wide::{decode_lossy, text_lossy, WideString};

verus! {

/// The library of a bundle.
pub const CONPTY_DLL: &'static str = "conpty.dll";

/// The console host of a bundle.
pub const OPEN_CONSOLE_EXE: &'static str = "OpenConsole.exe";

/// What is reported for a version that cannot be read.
pub const UNKNOWN_VERSION: &'static str = "unknown";

/// 32-bit x86.
pub const IMAGE_FILE_MACHINE_I386: u16 = 0x014c;

/// x86-64.
pub const IMAGE_FILE_MACHINE_AMD64: u16 = 0x8664;

/// 64-bit Arm.
pub const IMAGE_FILE_MACHINE_ARM64: u16 = 0xAA64;

/// The directory that holds the console host for a machine.
pub open spec fn arch_subdir(machine: u16) -> Option<&'static str> {
    if machine == IMAGE_FILE_MACHINE_AMD64 {
        Some("x64")
    } else if machine == IMAGE_FILE_MACHINE_ARM64 {
        Some("arm64")
    } else if machine == IMAGE_FILE_MACHINE_I386 {
        Some("x86")
    } else {
        None
    }
}

/// Returns the directory that holds the console host for a machine, as the
/// standalone package spells it.
pub fn machine_arch_subdir(machine: u16) -> (subdir: Option<&'static str>)
    ensures
        subdir == arch_subdir(machine),
{
    if machine == IMAGE_FILE_MACHINE_AMD64 {
        Some("x64")
    } else if machine == IMAGE_FILE_MACHINE_ARM64 {
        Some("arm64")
    } else if machine == IMAGE_FILE_MACHINE_I386 {
        Some("x86")
    } else {
        None
    }
}

/// Selects the machine that `IsWow64Process2` reported, if it succeeded.
pub fn selected_native_machine(ok: i32, native: u16, compiled_for: u16) -> (machine: u16)
    ensures
        machine == (if ok == 0 {
            compiled_for
        } else {
            native
        }),
{
    if ok == 0 {
        compiled_for
    } else {
        native
    }
}

/// The native machine, given what `IsWow64Process2` returned and reported where
/// the system has that function.
pub open spec fn native_machine_of(probe: Option<(i32, u16)>, compiled_for: u16) -> u16 {
    match probe {
        Some((ok, native)) => if ok != 0 {
            native
        } else {
            compiled_for
        },
        None => compiled_for,
    }
}

/// Returns the native machine, given what `IsWow64Process2` returned and
/// reported where the system has that function.
pub fn native_machine(probe: Option<(i32, u16)>, compiled_for: u16) -> (machine: u16)
    ensures
        machine == native_machine_of(probe, compiled_for),
{
    match probe {
        Some((ok, native)) => selected_native_machine(ok, native, compiled_for),
        None => compiled_for,
    }
}

/// Returns the directory that holds the console host for the native machine.
pub fn native_arch_subdir(probe: Option<(i32, u16)>, compiled_for: u16) -> (subdir: Option<
    &'static str,
>)
    ensures
        subdir == arch_subdir(native_machine_of(probe, compiled_for)),
{
    machine_arch_subdir(native_machine(probe, compiled_for))
}

/// Returns the directory to search, made absolute once and for all.
///
/// `is_absolute` says whether `dir` is absolute by itself; where it is not,
/// `resolved` is `dir` joined to the working directory and whether that is
/// absolute, or the failure to learn the working directory.
///
/// # Errors
///
/// That failure, or [`IoErrorKind::InvalidInput`] for a drive-relative
/// directory, which names a path relative to that drive's own current directory
/// and cannot be pinned.
pub fn absolute_dir(
    dir: &WideString,
    is_absolute: bool,
    resolved: Result<(WideString, bool), IoError>,
) -> (absolute: Result<WideString, IoError>)
    ensures
        is_absolute ==> absolute is Ok && absolute->Ok_0@ == dir@,
        !is_absolute && resolved is Err ==> absolute == Err::<WideString, IoError>(
            resolved->Err_0,
        ),
        (!is_absolute && resolved is Ok) ==> {
            let (path, path_is_absolute) = resolved->Ok_0;
            &&& path_is_absolute ==> absolute == Ok::<WideString, IoError>(path)
            &&& !path_is_absolute ==> {
                &&& absolute is Err
                &&& absolute->Err_0.kind == IoErrorKind::InvalidInput
                &&& absolute->Err_0.code == None::<i32>
                &&& absolute->Err_0.message@ == DRIVE_RELATIVE@
                &&& absolute->Err_0.message@
                    == "a drive-relative path resolves against that drive's current directory, which this loader refuses to depend on"@
                &&& absolute->Err_0.inner == None::<Box<IoError>>
            }
        },
{
    if is_absolute {
        return Ok(dir.clone());
    }
    match resolved {
        Err(err) => Err(err),
        Ok((path, path_is_absolute)) => if path_is_absolute {
            Ok(path)
        } else {
            Err(IoError::new(IoErrorKind::InvalidInput, DRIVE_RELATIVE))
        },
    }
}

/// Why a drive-relative directory is refused.
pub const DRIVE_RELATIVE: &'static str =
    "a drive-relative path resolves against that drive's current directory, which this loader refuses to depend on";

/// Where the console host of the bundle in `dir` is: next to the library, or
/// else in the subdirectory of the native architecture. The library searches
/// nowhere else.
pub open spec fn console_host(
    dir: Seq<u16>,
    subdir: Option<&'static str>,
    adjacent_is_file: bool,
    native_is_file: bool,
) -> Option<Seq<u16>> {
    if adjacent_is_file {
        Some(joined(dir, OPEN_CONSOLE_EXE@))
    } else if subdir is Some && native_is_file {
        Some(joined(joined(dir, subdir->0@), OPEN_CONSOLE_EXE@))
    } else {
        None
    }
}

/// Returns the path next to the library at which its console host may be.
pub fn adjacent_host(dir: &WideString) -> (path: WideString)
    ensures
        path@ == joined(dir@, OPEN_CONSOLE_EXE@),
{
    join(dir, OPEN_CONSOLE_EXE)
}

/// Returns the path in the native architecture's subdirectory at which the
/// console host may be.
pub fn native_host(dir: &WideString, subdir: &str) -> (path: WideString)
    ensures
        path@ == joined(joined(dir@, subdir@), OPEN_CONSOLE_EXE@),
{
    join(&join(dir, subdir), OPEN_CONSOLE_EXE)
}

/// Locates the console host that the library in `dir` itself will find, given
/// which of the two candidates is a file.
pub fn find_console_host(
    dir: &WideString,
    subdir: Option<&'static str>,
    adjacent_is_file: bool,
    native_is_file: bool,
) -> (host: Option<WideString>)
    ensures
        host is Some <==> console_host(dir@, subdir, adjacent_is_file, native_is_file) is Some,
        host is Some ==> host->0@ == console_host(
            dir@,
            subdir,
            adjacent_is_file,
            native_is_file,
        )->0,
{
    if adjacent_is_file {
        return Some(adjacent_host(dir));
    }
    match subdir {
        Some(subdir) => if native_is_file {
            Some(native_host(dir, subdir))
        } else {
            None
        },
        None => None,
    }
}

/// The text of an optional string.
pub open spec fn text_of(text: Option<String>) -> Option<Seq<char>> {
    match text {
        Some(text) => Some(text@),
        None => None,
    }
}

/// The text of a version, or what is reported for one that cannot be read.
pub open spec fn reported_version(text: Option<String>) -> Seq<char> {
    match text {
        Some(text) => text@,
        None => UNKNOWN_VERSION@,
    }
}

/// Whether `err` reports the versions of a pair that does not match.
pub open spec fn mismatch(
    err: BackendError,
    dll: Seq<u16>,
    dll_version: Option<String>,
    exe_version: Option<String>,
) -> bool {
    &&& err@ is VersionMismatch
    &&& err@->VersionMismatch_dll@ == dll
    &&& err@->dll_version@ == reported_version(dll_version)
    &&& err@->exe_version@ == reported_version(exe_version)
}

/// Fails unless both files of a pair carry the same numeric product version.
///
/// # Errors
///
/// A version mismatch that holds both versions.
pub fn check_version_pair(
    dll: &WideString,
    dll_version: Option<String>,
    exe_version: Option<String>,
) -> (checked: Result<(), BackendError>)
    ensures
        checked is Ok <==> compatible(text_of(dll_version), text_of(exe_version)),
        checked is Err ==> mismatch(checked->Err_0, dll@, dll_version, exe_version),
{
    let dll_text: Option<&str> = match &dll_version {
        Some(text) => Some(text.as_str()),
        None => None,
    };
    let exe_text: Option<&str> = match &exe_version {
        Some(text) => Some(text.as_str()),
        None => None,
    };
    if versions_are_compatible(dll_text, exe_text) {
        return Ok(());
    }
    let dll_shown = match dll_version {
        Some(text) => text,
        None => String::from_str(UNKNOWN_VERSION),
    };
    let exe_shown = match exe_version {
        Some(text) => text,
        None => String::from_str(UNKNOWN_VERSION),
    };
    Err(BackendError::version_mismatch(dll.clone(), dll_shown, exe_shown))
}

/// What the file system says of a candidate bundle.
#[derive(Debug)]
pub struct BundleFacts {
    /// The absolute directory, see [`absolute_dir`].
    pub absolute: Result<WideString, IoError>,
    /// Whether the library in that directory is a file, or why that cannot be
    /// learned.
    pub dll_is_file: Result<bool, IoError>,
    /// The subdirectory of the native architecture.
    pub subdir: Option<&'static str>,
    /// Whether there is a console host next to the library.
    pub adjacent_host_is_file: bool,
    /// Whether there is one in the native architecture's subdirectory.
    pub native_host_is_file: bool,
    /// The product version of the library.
    pub dll_version: Option<String>,
    /// The product version of the console host that [`find_console_host`] finds.
    pub host_version: Option<String>,
}

/// A bundle that passed every check and was not loaded yet.
#[derive(Debug)]
pub struct ValidatedBundle {
    dir: WideString,
    dll: WideString,
}

impl ValidatedBundle {
    /// The absolute directory of the bundle.
    pub closed spec fn spec_dir(&self) -> Seq<u16> {
        self.dir@
    }

    /// The path of its library.
    pub closed spec fn spec_dll(&self) -> Seq<u16> {
        self.dll@
    }

    /// Returns the absolute directory of the bundle.
    pub fn dir(&self) -> (dir: &WideString)
        ensures
            dir@ == self.spec_dir(),
    {
        &self.dir
    }

    /// Returns the path of its library.
    pub fn dll(&self) -> (dll: &WideString)
        ensures
            dll@ == self.spec_dll(),
    {
        &self.dll
    }
}

/// What validating a bundle comes to.
pub enum Verdict {
    /// The directory cannot be made absolute.
    NoDirectory,
    /// Nothing can be learned of the library.
    NoDll,
    /// The library is no regular file.
    NotAFile,
    /// The library has no console host.
    NoHost,
    /// Library and console host do not match.
    Mismatch,
    /// The bundle can be used.
    Valid,
}

/// What validating the bundle that `facts` describe comes to. The checks are
/// made in this order, and `verify_pair` says whether the last one is made.
pub open spec fn verdict(facts: BundleFacts, verify_pair: bool) -> Verdict {
    if facts.absolute is Err {
        Verdict::NoDirectory
    } else if facts.dll_is_file is Err {
        Verdict::NoDll
    } else if !facts.dll_is_file->Ok_0 {
        Verdict::NotAFile
    } else if console_host(
        facts.absolute->Ok_0@,
        facts.subdir,
        facts.adjacent_host_is_file,
        facts.native_host_is_file,
    ) is None {
        Verdict::NoHost
    } else if verify_pair && !compatible(
        text_of(facts.dll_version),
        text_of(facts.host_version),
    ) {
        Verdict::Mismatch
    } else {
        Verdict::Valid
    }
}

/// Whether `err` says that no usable library is in `dir`, because of `source`.
pub open spec fn dll_not_found_in(err: BackendError, dir: Seq<u16>, source: IoError) -> bool {
    &&& err@ is DllNotFound
    &&& err@->dir@ == dir
    &&& err@->source == source
}

/// Validates the pair of library and console host in `dir`.
///
/// # Errors
///
/// The failure of the first check that is not passed.
pub fn validate(dir: &WideString, verify_pair: bool, facts: BundleFacts) -> (bundle: Result<
    ValidatedBundle,
    BackendError,
>)
    ensures
        bundle is Ok <==> verdict(facts, verify_pair) is Valid,
        bundle is Ok ==> {
            &&& bundle->Ok_0.spec_dir() == facts.absolute->Ok_0@
            &&& bundle->Ok_0.spec_dll() == joined(facts.absolute->Ok_0@, CONPTY_DLL@)
        },
        verdict(facts, verify_pair) is NoDirectory ==> dll_not_found_in(
            bundle->Err_0,
            dir@,
            facts.absolute->Err_0,
        ),
        verdict(facts, verify_pair) is NoDll ==> dll_not_found_in(
            bundle->Err_0,
            facts.absolute->Ok_0@,
            facts.dll_is_file->Err_0,
        ),
        verdict(facts, verify_pair) is NotAFile ==> {
            &&& bundle->Err_0@ is DllNotFound
            &&& bundle->Err_0@->dir@ == facts.absolute->Ok_0@
            &&& bundle->Err_0@->source.kind == IoErrorKind::InvalidInput
            &&& bundle->Err_0@->source.code == None::<i32>
            &&& bundle->Err_0@->source.message@ == "conpty.dll is not a regular file"@
            &&& bundle->Err_0@->source.inner == None::<Box<IoError>>
        },
        verdict(facts, verify_pair) is NoHost ==> {
            &&& bundle->Err_0@ is OpenConsoleMissing
            &&& bundle->Err_0@->OpenConsoleMissing_dll@ == joined(
                facts.absolute->Ok_0@,
                CONPTY_DLL@,
            )
        },
        verdict(facts, verify_pair) is Mismatch ==> mismatch(
            bundle->Err_0,
            joined(facts.absolute->Ok_0@, CONPTY_DLL@),
            facts.dll_version,
            facts.host_version,
        ),
{
    let absolute = match facts.absolute {
        Ok(absolute) => absolute,
        Err(source) => return Err(BackendError::dll_not_found(dir.clone(), source)),
    };
    let dll = join(&absolute, CONPTY_DLL);
    match facts.dll_is_file {
        Err(source) => return Err(BackendError::dll_not_found(absolute, source)),
        Ok(is_file) => {
            if !is_file {
                return Err(
                    BackendError::dll_not_found(
                        absolute,
                        IoError::new(
                            IoErrorKind::InvalidInput,
                            "conpty.dll is not a regular file",
                        ),
                    ),
                );
            }
        },
    }
    let host = find_console_host(
        &absolute,
        facts.subdir,
        facts.adjacent_host_is_file,
        facts.native_host_is_file,
    );
    if host.is_none() {
        return Err(BackendError::open_console_missing(dll));
    }
    if verify_pair {
        match check_version_pair(&dll, facts.dll_version, facts.host_version) {
            Ok(()) => {},
            Err(err) => return Err(err),
        }
    }
    Ok(ValidatedBundle { dir: absolute, dll })
}

/// A bundle whose versions are not verified passes whenever the verified one
/// does, and fails otherwise only by a mismatch: no other check is skipped.
pub proof fn unchecked_validation_skips_only_the_versions(facts: BundleFacts)
    ensures
        verdict(facts, true) is Valid ==> verdict(facts, false) is Valid,
        !(verdict(facts, true) is Mismatch) ==> verdict(facts, false) == verdict(facts, true),
        verdict(facts, true) is Mismatch ==> verdict(facts, false) is Valid,
{
}

/// Returns the number of entries of a translation table of `byte_len` bytes,
/// each being a language and a code page of two bytes.
pub fn translation_count(byte_len: u32) -> (count: usize)
    ensures
        count == byte_len / 4,
{
    (byte_len / 4) as usize
}

/// Returns how many 32-bit units hold a version resource of `size` bytes; whole
/// units keep the alignment that its records need.
pub fn version_block_len(size: u32) -> (len: usize)
    ensures
        4 * len >= size,
        4 * len < size + 4,
{
    if size % 4 == 0 {
        (size / 4) as usize
    } else {
        (size / 4) as usize + 1
    }
}

/// Returns whether `VerQueryValueW` found a value that can be read.
pub fn version_value_found(found: i32, value_is_null: bool, len: u32) -> (readable: bool)
    ensures
        readable == (found != 0 && !value_is_null && len != 0),
{
    found != 0 && !value_is_null && len != 0
}

/// Returns a resource string without the zeros and white space that pad it.
pub fn trim_resource_string(text: &str) -> (trimmed_text: &str)
    ensures
        trimmed_text@ == trimmed(text@, true),
{
    let chars = chars_of(text);
    assert(chars@.subrange(0, chars@.len() as int) =~= chars@);
    let (lo, hi): (usize, usize) = trim_range(&chars, 0, chars.len(), true);
    text.substring_char(lo, hi)
}

/// The four hexadecimal digits of `n`.
pub open spec fn hex4(n: u16) -> Seq<char> {
    seq![
        digit(n as int / 4096),
        digit(n as int / 256 % 16),
        digit(n as int / 16 % 16),
        digit(n as int % 16),
    ]
}

/// Where a version resource keeps the product version of a translation.
pub open spec fn product_version_key(language: u16, code_page: u16) -> Seq<char> {
    r"\StringFileInfo\"@ + hex4(language) + hex4(code_page) + r"\ProductVersion"@
}

/// Appends the four hexadecimal digits of `n`.
fn push_hex4(out: &mut String, n: u16)
    ensures
        final(out)@ == old(out)@ + hex4(n),
{
    out.push(digit_char((n / 4096) as u8));
    out.push(digit_char((n / 256 % 16) as u8));
    out.push(digit_char((n / 16 % 16) as u8));
    out.push(digit_char((n % 16) as u8));
    assert(out@ =~= old(out)@ + hex4(n));
}

/// Returns where a version resource keeps the product version of a translation.
pub fn product_version_path(language: u16, code_page: u16) -> (path: String)
    ensures
        path@ == product_version_key(language, code_page),
{
    let mut path = String::from_str(r"\StringFileInfo\");
    push_hex4(&mut path, language);
    push_hex4(&mut path, code_page);
    path.append(r"\ProductVersion");
    path
}

/// The version that a resource's answer holds, empty if there is none.
pub open spec fn version_in(answer: Option<Vec<u16>>) -> Seq<char> {
    match answer {
        Some(units) => trimmed(decode_lossy(units@), true),
        None => seq![],
    }
}

/// Whether `answers` are what `query` says for the first translations, all but
/// the last of them without a version.
pub open spec fn answered<F: Fn(&str) -> Option<Vec<u16>>>(
    query: F,
    translations: Seq<(u16, u16)>,
    answers: Seq<Option<Vec<u16>>>,
) -> bool {
    &&& answers.len() <= translations.len()
    &&& forall|i: int|
        0 <= i < answers.len() ==> answers_for(
            query,
            translations[i],
            #[trigger] answers[i],
        )
    &&& forall|i: int|
        0 <= i < answers.len() - 1 ==> version_in(#[trigger] answers[i]).len() == 0
}

/// Whether `answer` is what `query` says for a translation.
pub open spec fn answers_for<F: Fn(&str) -> Option<Vec<u16>>>(
    query: F,
    translation: (u16, u16),
    answer: Option<Vec<u16>>,
) -> bool {
    exists|key: &str|
        key@ == product_version_key(translation.0, translation.1) && #[trigger] query.ensures(
            (key,),
            answer,
        )
}

/// Whether `query` may be asked `key`, the path for translation number `i`: the
/// one before it may have no version.
pub open spec fn asked<F: Fn(&str) -> Option<Vec<u16>>>(
    query: F,
    translations: Seq<(u16, u16)>,
    i: int,
    key: &str,
) -> bool {
    &&& 0 <= i < translations.len()
    &&& key@ == product_version_key(translations[i].0, translations[i].1)
    &&& i > 0 ==> exists|answer: Option<Vec<u16>>| #[trigger]
        answers_for(query, translations[i - 1], answer) && version_in(answer).len() == 0
}

/// Returns a file's product version: the first one, in the order of the
/// resource's translations, that is not empty once its padding is removed.
///
/// `query` reads a string of the version resource by its path, and answers
/// `None` where the resource has none. It is asked for one translation after the
/// other, and no more once there is a version.
pub fn read_product_version<F: Fn(&str) -> Option<Vec<u16>>>(
    translations: &[(u16, u16)],
    query: F,
) -> (version: Option<String>)
    requires
        forall|i: int, key: &str| #[trigger]
            asked(query, translations@, i, key) ==> query.requires((key,)),
    ensures
        exists|answers: Seq<Option<Vec<u16>>>| #[trigger]
            answered(query, translations@, answers) && (match version {
                Some(text) => {
                    &&& answers.len() > 0
                    &&& text@ == version_in(answers.last())
                    &&& text@.len() > 0
                },
                None => {
                    &&& answers.len() == translations@.len()
                    &&& answers.len() > 0 ==> version_in(answers.last()).len() == 0
                },
            }),
{
    let ghost mut answers: Seq<Option<Vec<u16>>> = seq![];
    let mut i: usize = 0;
    while i < translations.len()
        invariant
            i <= translations@.len(),
            answers.len() == i,
            forall|i: int, key: &str| #[trigger]
                asked(query, translations@, i, key) ==> query.requires((key,)),
            answered(query, translations@, answers),
            answers.len() > 0 ==> version_in(answers.last()).len() == 0,
        decreases translations@.len() - i,
    {
        let (language, code_page): (u16, u16) = translations[i];
        let path = product_version_path(language, code_page);
        let key: &str = path.as_str();
        assert(asked(query, translations@, i as int, key)) by {
            if i > 0 {
                assert(answers_for(query, translations@[i - 1], answers[i - 1]));
            }
        }
        let answer = query(key);
        let ghost extended = answers.push(answer);
        proof {
            assert(answers_for(query, translations@[i as int], answer)) by {
                assert(query.ensures((key,), answer));
            }
            assert(answered(query, translations@, extended)) by {
                assert forall|j: int| 0 <= j < extended.len() implies answers_for(
                    query,
                    translations@[j],
                    #[trigger] extended[j],
                ) by {
                    if j < i {
                        assert(extended[j] == answers[j]);
                    }
                }
                assert forall|j: int| 0 <= j < extended.len() - 1 implies version_in(
                    #[trigger] extended[j],
                ).len() == 0 by {
                    assert(extended[j] == answers[j]);
                    if j == answers.len() - 1 {
                        assert(answers[j] == answers.last());
                    }
                }
            }
            assert(extended.last() == answer);
        }
        if let Some(units) = &answer {
            let text = text_lossy(units.as_slice());
            let version = trim_resource_string(text.as_str());
            if !version.is_empty() {
                return Some(version.to_owned());
            }
        }
        proof {
            answers = extended;
        }
        i += 1;
    }
    None
}

/// Returns the directory whose bundle automatic selection tries: that of the
/// executable, if it is known and its `conpty.dll` is a file.
pub fn bundle_dir(exe_dir: Option<WideString>, dll_is_file: bool) -> (dir: Option<WideString>)
    ensures
        dir == (if dll_is_file {
            exe_dir
        } else {
            None
        }),
{
    if dll_is_file {
        exe_dir
    } else {
        None
    }
}

/// Reported when an optional bundle is rejected.
pub const BUNDLE_REJECTED: &'static str =
    "ignoring the bundled conpty.dll; falling back to the system ConPTY";

/// Returns the report of an optional bundle in `dir` that was rejected for
/// `err`.
pub fn log_rejected(dir: &WideString, err: &BackendError) -> (record: LogRecord)
    ensures
        record.says(
            LogLevel::Warn,
            BUNDLE_REJECTED,
            seq![("dir"@, decode_lossy(dir@)), ("error"@, err@.message())],
        ),
        record.message@ == "ignoring the bundled conpty.dll; falling back to the system ConPTY"@,
{
    let record = LogRecord::new(LogLevel::Warn, BUNDLE_REJECTED).with(
        "dir",
        dir.to_text_lossy().as_str(),
    ).with("error", err.to_string().as_str());
    assert(record.spec_fields() =~= seq![
        ("dir"@, decode_lossy(dir@)),
        ("error"@, err@.message()),
    ]);
    record
}

/// A machine has a directory of its own in a bundle exactly where it is one of
/// three: `x64`, `arm64` and `x86`.
pub proof fn three_machines_have_a_directory(machine: u16)
    ensures
        machine == 0x8664 ==> arch_subdir(machine) == Some("x64"),
        machine == 0xAA64 ==> arch_subdir(machine) == Some("arm64"),
        machine == 0x014c ==> arch_subdir(machine) == Some("x86"),
        machine != 0x8664 && machine != 0xAA64 && machine != 0x014c ==> arch_subdir(
            machine,
        ) is None,
{
}

/// The machine is the one that a successful probe reports, and otherwise the one
/// that the program was built for.
pub proof fn probed_machines_are_believed(ok: i32, native: u16, compiled_for: u16)
    ensures
        ok != 0 ==> native_machine_of(Some((ok, native)), compiled_for) == native,
        native_machine_of(Some((0i32, native)), compiled_for) == compiled_for,
        native_machine_of(None, compiled_for) == compiled_for,
{
}

/// The console host of a bundle is the one next to the library, if there is one,
/// and else the one in the directory of the machine.
pub proof fn adjacent_hosts_are_preferred(
    dir: Seq<u16>,
    subdir: &'static str,
    adjacent: bool,
    native: bool,
)
    ensures
        console_host(dir, Some(subdir), true, native) == Some(joined(dir, "OpenConsole.exe"@)),
        console_host(dir, None, true, native) == Some(joined(dir, "OpenConsole.exe"@)),
        console_host(dir, Some(subdir), false, true) == Some(
            joined(joined(dir, subdir@), "OpenConsole.exe"@),
        ),
        console_host(dir, Some(subdir), false, false) is None,
        console_host(dir, None, false, native) is None,
{
}

/// A version that cannot be read is reported as unknown, any other as it is.
pub proof fn unread_versions_are_unknown(text: String)
    ensures
        reported_version(Some(text)) == text@,
        reported_version(None) == "unknown"@,
        text_of(Some(text)) == Some(text@),
        text_of(None) is None,
{
}

/// A mismatch names the library and both versions, each as the side that it is of.
pub proof fn mismatches_name_both_versions(
    err: BackendError,
    dll: Seq<u16>,
    dll_version: Option<String>,
    exe_version: Option<String>,
)
    requires
        mismatch(err, dll, dll_version, exe_version),
    ensures
        err@ is VersionMismatch,
        err@->VersionMismatch_dll@ == dll,
        dll_version matches Some(text) ==> err@->dll_version@ == text@,
        dll_version is None ==> err@->dll_version@ == "unknown"@,
        exe_version matches Some(text) ==> err@->exe_version@ == text@,
        exe_version is None ==> err@->exe_version@ == "unknown"@,
{
}

/// A missing library is reported with its directory and what was found out.
pub proof fn missing_libraries_name_their_directory(
    err: BackendError,
    dir: Seq<u16>,
    source: IoError,
)
    requires
        dll_not_found_in(err, dir, source),
    ensures
        err@ is DllNotFound,
        err@->dir@ == dir,
        err@->source == source,
{
}

/// A bundle is valid exactly where its directory is known, its library is a file,
/// there is a console host for it, and, if the pair is to be verified, the versions
/// of the two are the same. Otherwise the first of these that fails decides.
pub proof fn bundles_fail_at_the_first_defect(facts: BundleFacts, verify_pair: bool)
    ensures
        ({
            let placed = facts.absolute is Ok;
            let known = facts.dll_is_file is Ok;
            let file = known && facts.dll_is_file->Ok_0;
            let hosted = facts.adjacent_host_is_file || facts.subdir is Some
                && facts.native_host_is_file;
            let paired = !verify_pair || compatible(
                text_of(facts.dll_version),
                text_of(facts.host_version),
            );
            let found = verdict(facts, verify_pair);
            &&& found == Verdict::NoDirectory <==> !placed
            &&& found == Verdict::NoDll <==> placed && !known
            &&& found == Verdict::NotAFile <==> placed && known && !file
            &&& found == Verdict::NoHost <==> placed && file && !hosted
            &&& found == Verdict::Mismatch <==> placed && file && hosted && !paired
            &&& found == Verdict::Valid <==> placed && file && hosted && paired
        }),
{
}

/// The numeral of a number is that of its front and its last digit.
proof fn lemma_last_digit(front: nat, last: nat)
    requires
        last < 16,
    ensures
        hexadecimal(last) == seq![digit(last as int)],
        front > 0 ==> hexadecimal(front * 16 + last) == hexadecimal(front).push(
            digit(last as int),
        ),
{
    assert((front * 16 + last) / 16 == front);
    assert((front * 16 + last) % 16 == last);
}

/// The four hexadecimal digits of a number.
proof fn lemma_four_digits(n: u16, a: nat, b: nat, c: nat, d: nat)
    requires
        a < 16,
        b < 16,
        c < 16,
        d < 16,
        n == ((a * 16 + b) * 16 + c) * 16 + d,
    ensures
        hex4(n) == seq![digit(a as int), digit(b as int), digit(c as int), digit(d as int)],
{
    assert(n as int / 4096 == a);
    assert(n as int / 256 == a * 16 + b);
    assert(n as int / 16 == (a * 16 + b) * 16 + c);
}

/// A number is written as four hexadecimal digits: its numeral, with zeros in
/// front.
pub proof fn four_digits_are_padded_with_zeros(n: u16)
    ensures
        hexadecimal(n as nat).len() <= 4,
        hex4(n) == Seq::new((4 - hexadecimal(n as nat).len()) as nat, |i: int| '0') + hexadecimal(
            n as nat,
        ),
{
    let v = n as nat;
    let (d, c, b, a) = (v % 16, v / 16 % 16, v / 16 / 16 % 16, v / 16 / 16 / 16);
    assert(v == ((a * 16 + b) * 16 + c) * 16 + d);
    lemma_four_digits(n, a, b, c, d);
    lemma_last_digit((a * 16 + b) * 16 + c, d);
    lemma_last_digit(a * 16 + b, c);
    lemma_last_digit(a, b);
    lemma_last_digit(0, a);
    let zeros = Seq::new((4 - hexadecimal(v).len()) as nat, |i: int| '0');
    if a > 0 {
        assert(hexadecimal(v) == seq![digit(a as int)].push(digit(b as int)).push(
            digit(c as int),
        ).push(digit(d as int)));
        assert(zeros =~= seq![]);
    } else if b > 0 {
        assert(hexadecimal(v) == seq![digit(b as int)].push(digit(c as int)).push(
            digit(d as int),
        ));
        assert(zeros =~= seq!['0']);
    } else if c > 0 {
        assert(hexadecimal(v) == seq![digit(c as int)].push(digit(d as int)));
        assert(zeros =~= seq!['0', '0']);
    } else {
        assert(hexadecimal(v) == seq![digit(d as int)]);
        assert(zeros =~= seq!['0', '0', '0']);
    }
    assert(digit(0) == '0');
    assert(hex4(n) =~= zeros + hexadecimal(v));
}

/// The product version is kept under the language and then the code page, each as
/// four hexadecimal digits.
pub proof fn versions_are_kept_by_translation(language: u16, code_page: u16)
    ensures
        product_version_key(language, code_page) == r"\StringFileInfo\"@ + hex4(language) + hex4(
            code_page,
        ) + r"\ProductVersion"@,
        product_version_key(language, code_page).len() == r"\StringFileInfo\"@.len() + 8
            + r"\ProductVersion"@.len(),
{
}

/// The version in an answer is its text without the padding around it; no answer
/// holds none.
pub proof fn answers_hold_their_text(units: Vec<u16>)
    ensures
        version_in(Some(units)) == trimmed(decode_lossy(units@), true),
        version_in(None) == Seq::<char>::empty(),
{
}

/// A resource is asked for its translations in order, each under its own path, and
/// for another one only after an answer without a version.
pub proof fn translations_are_asked_in_order<F: Fn(&str) -> Option<Vec<u16>>>(
    query: F,
    translations: Seq<(u16, u16)>,
    answers: Seq<Option<Vec<u16>>>,
    i: int,
)
    requires
        answered(query, translations, answers),
    ensures
        answers.len() <= translations.len(),
        0 <= i < answers.len() ==> exists|key: &str|
            key@ == product_version_key(translations[i].0, translations[i].1)
                && #[trigger] query.ensures((key,), answers[i]),
        0 <= i < answers.len() - 1 ==> version_in(answers[i]).len() == 0,
{
    if 0 <= i < answers.len() {
        assert(answers_for(query, translations[i], answers[i]));
    }
}

/// A resource may be asked for a translation under its own path alone, and behind
/// the first only after one that had no version.
pub proof fn translations_are_asked_by_their_path<F: Fn(&str) -> Option<Vec<u16>>>(
    query: F,
    translations: Seq<(u16, u16)>,
    i: int,
    key: &str,
)
    requires
        asked(query, translations, i, key),
    ensures
        0 <= i < translations.len(),
        key@ == product_version_key(translations[i].0, translations[i].1),
        i > 0 ==> exists|answer: Option<Vec<u16>>| #[trigger]
            answers_for(query, translations[i - 1], answer) && version_in(answer).len() == 0,
{
}

} // verus!

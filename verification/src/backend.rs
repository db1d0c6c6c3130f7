//! `ConPTY` implementations: which one a session runs on, and what it offers.

pub mod bundle;
pub mod exports;
pub mod version;

use vstd::prelude::*;

use self::bundle::{dll_not_found_in, log_rejected, BUNDLE_REJECTED, ValidatedBundle};
use self::exports::{api_of, missing_export_of, usable, ConptyApi, NamedExport};
use crate::diagnostics::{appended, report, LogLevel, LogRecord};
use crate::error::{BackendError, BackendErrorContext};
use crate::io_error::IoError;
use crate::wide::{decode_lossy, WideString};

verus! {

/// Which `ConPTY` implementation a [`ConPtyBackend`] is bound to.
#[derive(Debug, PartialEq, Eq, Hash)]
#[non_exhaustive]
pub enum BackendKind {
    /// The `ConPTY` API built into the operating system (`kernel32.dll`).
    System,
    /// A standalone `conpty.dll` loaded from the given path.
    External {
        /// Path of the loaded `conpty.dll`.
        dll: WideString,
    },
}

impl BackendKind {
    /// Whether the two kinds name the same implementation.
    pub open spec fn same(self, other: BackendKind) -> bool {
        match (self, other) {
            (BackendKind::System, BackendKind::System) => true,
            (BackendKind::External { dll: a }, BackendKind::External { dll: b }) => a@ == b@,
            _ => false,
        }
    }
}

impl Clone for BackendKind {
    fn clone(&self) -> (copy: BackendKind)
        ensures
            self.same(copy),
    {
        match self {
            BackendKind::System => BackendKind::System,
            BackendKind::External { dll } => BackendKind::External { dll: dll.clone() },
        }
    }
}

/// A loaded `ConPTY` implementation.
#[derive(Debug)]
pub struct ConPtyBackend {
    kind: BackendKind,
    api: ConptyApi,
    module_pinned: bool,
}

impl ConPtyBackend {
    /// Which implementation the backend is bound to.
    pub closed spec fn spec_kind(&self) -> BackendKind {
        self.kind
    }

    /// The resolved entry points.
    pub closed spec fn spec_api(&self) -> ConptyApi {
        self.api
    }

    /// Whether the backend keeps the module of its entry points loaded.
    pub closed spec fn spec_module_pinned(&self) -> bool {
        self.module_pinned
    }

    /// Whether `other` is bound to the same implementation, through the same
    /// entry points.
    pub open spec fn same(&self, other: ConPtyBackend) -> bool {
        &&& self.spec_kind().same(other.spec_kind())
        &&& self.spec_api() == other.spec_api()
        &&& self.spec_module_pinned() == other.spec_module_pinned()
    }

    /// Whether the backend exports `ReleasePseudoConsole`.
    pub open spec fn spec_supports_release(&self) -> bool {
        self.spec_api().release is Some
    }

    /// Whether the backend exports a callable `ClearPseudoConsole`.
    pub open spec fn spec_supports_clear(&self) -> bool {
        self.spec_api().clear is Some
    }

    /// The system's module is mapped for the whole life of the process and is
    /// never pinned; a standalone library always is.
    #[verifier::type_invariant]
    spec fn inv(self) -> bool {
        self.module_pinned <==> self.kind is External
    }

    /// Binds to the `ConPTY` API built into the operating system.
    ///
    /// `exports` are those of `kernel32.dll`, or `None` where that module cannot
    /// be found. A required export that is missing is reported.
    ///
    /// # Errors
    ///
    /// [`BackendErrorContext::Unsupported`] if and only if the module or one of
    /// the required exports is missing.
    pub fn system(
        exports: Option<&[NamedExport]>,
        clear_abi_is_callable: bool,
        log: &mut Vec<LogRecord>,
    ) -> (backend: Result<ConPtyBackend, BackendError>)
        ensures
            backend is Ok <==> exports is Some && usable(exports->0@),
            backend is Ok ==> {
                &&& backend->Ok_0.spec_kind() == BackendKind::System
                &&& backend->Ok_0.spec_api() == api_of(exports->0@, clear_abi_is_callable)
                &&& !backend->Ok_0.spec_module_pinned()
            },
            backend is Err ==> backend->Err_0@ == BackendErrorContext::Unsupported,
            exports is Some && !usable(exports->0@) ==> appended(
                old(log)@,
                final(log)@,
                LogLevel::Warn,
                SYSTEM_EXPORT_MISSING,
                seq![("symbol"@, missing_export_of(exports->0@)@)],
            ),
            exports is None || usable(exports->0@) ==> final(log)@ == old(log)@,
    {
        let exports = match exports {
            Some(exports) => exports,
            None => return Err(BackendError::unsupported()),
        };
        match ConptyApi::from_module(exports, clear_abi_is_callable) {
            Ok(api) => Ok(ConPtyBackend { kind: BackendKind::System, api, module_pinned: false }),
            Err(symbol) => {
                report(log, log_missing_system_export(symbol));
                Err(BackendError::unsupported())
            },
        }
    }

    /// Binds to the library of a bundle that was validated, given the exports of
    /// the module that it was loaded as.
    ///
    /// # Errors
    ///
    /// [`BackendErrorContext::DllNotFound`] if and only if the library cannot be
    /// loaded, and else [`BackendErrorContext::MissingExport`] if and only if it
    /// lacks a required export.
    pub fn from_bundle(
        bundle: ValidatedBundle,
        loaded: Result<Vec<NamedExport>, IoError>,
        clear_abi_is_callable: bool,
    ) -> (backend: Result<ConPtyBackend, BackendError>)
        ensures
            backend is Ok <==> loaded is Ok && usable(loaded->Ok_0@),
            backend is Ok ==> {
                &&& backend->Ok_0.spec_kind() is External
                &&& backend->Ok_0.spec_kind()->dll@ == bundle.spec_dll()
                &&& backend->Ok_0.spec_api() == api_of(loaded->Ok_0@, clear_abi_is_callable)
                &&& backend->Ok_0.spec_module_pinned()
            },
            loaded is Err ==> dll_not_found_in(
                backend->Err_0,
                bundle.spec_dir(),
                loaded->Err_0,
            ),
            loaded is Ok && !usable(loaded->Ok_0@) ==> {
                &&& backend->Err_0@ is MissingExport
                &&& backend->Err_0@->MissingExport_dll@ == bundle.spec_dll()
                &&& backend->Err_0@->symbol == missing_export_of(loaded->Ok_0@)
            },
    {
        let exports = match loaded {
            Ok(exports) => exports,
            Err(source) => {
                return Err(BackendError::dll_not_found(bundle.dir().clone(), source));
            },
        };
        let dll = bundle.dll().clone();
        match ConptyApi::from_module(exports.as_slice(), clear_abi_is_callable) {
            Ok(api) => Ok(
                ConPtyBackend { kind: BackendKind::External { dll }, api, module_pinned: true },
            ),
            Err(symbol) => Err(BackendError::missing_export(dll, symbol)),
        }
    }

    /// Loads the bundle in a directory: `load` is called only for a bundle that
    /// `validated` found valid, and returns the exports of the loaded module.
    ///
    /// # Errors
    ///
    /// The failure of the validation, of the loading, or a missing export.
    pub fn from_dir<F: FnOnce(&WideString) -> Result<Vec<NamedExport>, IoError>>(
        validated: Result<ValidatedBundle, BackendError>,
        clear_abi_is_callable: bool,
        load: F,
    ) -> (backend: Result<ConPtyBackend, BackendError>)
        requires
            validated is Ok ==> forall|dll: &WideString|
                dll@ == validated->Ok_0.spec_dll() ==> #[trigger] load.requires((dll,)),
        ensures
            validated is Err ==> backend == Err::<ConPtyBackend, BackendError>(validated->Err_0),
            validated is Ok ==> exists|dll: &WideString, loaded|
                {
                    &&& #[trigger] load.ensures((dll,), loaded)
                    &&& dll@ == validated->Ok_0.spec_dll()
                    &&& backend is Ok <==> loaded is Ok && usable(loaded->Ok_0@)
                    &&& backend is Ok ==> {
                        &&& backend->Ok_0.spec_kind() is External
                        &&& backend->Ok_0.spec_kind()->dll@ == dll@
                        &&& backend->Ok_0.spec_api() == api_of(
                            loaded->Ok_0@,
                            clear_abi_is_callable,
                        )
                    }
                    &&& loaded is Err ==> dll_not_found_in(
                        backend->Err_0,
                        validated->Ok_0.spec_dir(),
                        loaded->Err_0,
                    )
                    &&& (loaded is Ok && !usable(loaded->Ok_0@)) ==> {
                        &&& backend->Err_0@ is MissingExport
                        &&& backend->Err_0@->MissingExport_dll@ == dll@
                        &&& backend->Err_0@->symbol == missing_export_of(loaded->Ok_0@)
                    }
                },
    {
        let bundle = match validated {
            Ok(bundle) => bundle,
            Err(err) => return Err(err),
        };
        let loaded = load(bundle.dll());
        ConPtyBackend::from_bundle(bundle, loaded, clear_abi_is_callable)
    }

    /// Performs one automatic selection: the bundle in the executable's
    /// directory where there is one, and else the system's implementation.
    ///
    /// `bundle_dir` is that directory if it holds a library; `from_dir` loads
    /// the bundle and `system` binds to the system, which is done only where
    /// there is no bundle or the bundle is rejected. That is no failure: the
    /// rejection is reported and the system's implementation takes its place.
    ///
    /// # Errors
    ///
    /// The failure of `system`, where it was needed.
    pub fn detect_auto<
        B: FnOnce(&WideString) -> Result<ConPtyBackend, BackendError>,
        S: FnOnce() -> Result<ConPtyBackend, BackendError>,
    >(
        bundle_dir: Option<&WideString>,
        from_dir: B,
        system: S,
        log: &mut Vec<LogRecord>,
    ) -> (backend: Result<ConPtyBackend, BackendError>)
        requires
            bundle_dir is Some ==> from_dir.requires((bundle_dir->0,)),
            bundle_dir is None ==> system.requires(()),
            bundle_dir is Some ==> forall|err: BackendError|
                #[trigger] from_dir.ensures(
                    (bundle_dir->0,),
                    Err::<ConPtyBackend, BackendError>(err),
                ) ==> system.requires(()),
        ensures
            bundle_dir is None ==> final(log)@ == old(log)@ && system.ensures((), backend),
            bundle_dir is Some ==> exists|bundled|
                {
                    &&& #[trigger] from_dir.ensures((bundle_dir->0,), bundled)
                    &&& bundled is Ok ==> backend == bundled && final(log)@ == old(log)@
                    &&& bundled is Err ==> {
                        &&& system.ensures((), backend)
                        &&& appended(
                            old(log)@,
                            final(log)@,
                            LogLevel::Warn,
                            BUNDLE_REJECTED,
                            seq![
                                ("dir"@, decode_lossy(bundle_dir->0@)),
                                ("error"@, bundled->Err_0@.message()),
                            ],
                        )
                    }
                },
    {
        match bundle_dir {
            Some(dir) => match from_dir(dir) {
                Ok(backend) => {
                    return Ok(backend);
                },
                Err(err) => {
                    report(log, log_rejected(dir, &err));
                },
            },
            None => {},
        }
        system()
    }

    /// Returns the automatically selected backend, asking `detect` for it until it
    /// succeeds once, and never again.
    ///
    /// Remembering the success keeps a bundled library loaded once per process
    /// rather than once per session.
    ///
    /// # Errors
    ///
    /// The failure of `detect`, which the next call tries again.
    pub fn auto<F: FnOnce() -> Result<ConPtyBackend, BackendError>>(
        cache: &mut SuccessfulCache<ConPtyBackend>,
        detect: F,
    ) -> (backend: Result<ConPtyBackend, BackendError>)
        requires
            old(cache).spec_value() is None ==> detect.requires(()),
        ensures
            old(cache).spec_value() is Some ==> {
                &&& final(cache).spec_value() == old(cache).spec_value()
                &&& backend is Ok
                &&& old(cache).spec_value()->0.same(backend->Ok_0)
            },
            old(cache).spec_value() is None ==> exists|detected|
                {
                    &&& #[trigger] detect.ensures((), detected)
                    &&& detected is Ok ==> {
                        &&& final(cache).spec_value() == Some(detected->Ok_0)
                        &&& backend is Ok
                        &&& detected->Ok_0.same(backend->Ok_0)
                    }
                    &&& detected is Err ==> {
                        &&& final(cache).spec_value() is None
                        &&& backend == detected
                    }
                },
    {
        cache.get_or_try_init(detect)
    }

    /// Returns which `ConPTY` implementation this backend is bound to.
    pub fn kind(&self) -> (kind: &BackendKind)
        ensures
            *kind == self.spec_kind(),
    {
        &self.kind
    }

    /// Returns the resolved entry points.
    pub fn api(&self) -> (api: ConptyApi)
        ensures
            api == self.spec_api(),
    {
        self.api
    }

    /// Returns whether the backend keeps a loaded module pinned, which it does
    /// exactly when it is bound to a standalone library.
    pub fn module_pinned(&self) -> (pinned: bool)
        ensures
            pinned == self.spec_module_pinned(),
            pinned <==> self.spec_kind() is External,
    {
        proof {
            use_type_invariant(self);
        }
        self.module_pinned
    }

    /// Returns whether this backend exports `ReleasePseudoConsole`.
    pub fn supports_release(&self) -> (supported: bool)
        ensures
            supported == self.spec_supports_release(),
    {
        self.api.release.is_some()
    }

    /// Returns whether this backend can clear the pseudoconsole's buffer.
    pub fn supports_clear(&self) -> (supported: bool)
        ensures
            supported == self.spec_supports_clear(),
    {
        self.api.clear.is_some()
    }

    /// Returns a copy of this backend without the `ReleasePseudoConsole` export.
    ///
    /// Sessions on the copy behave as on a Windows version that predates the
    /// export.
    pub fn without_release(&self) -> (copy: ConPtyBackend)
        ensures
            self.spec_kind().same(copy.spec_kind()),
            copy.spec_api() == (ConptyApi { release: None, ..self.spec_api() }),
            copy.spec_module_pinned() == self.spec_module_pinned(),
    {
        proof {
            use_type_invariant(self);
        }
        ConPtyBackend {
            kind: self.kind.clone(),
            api: self.api.without_release(),
            module_pinned: self.module_pinned,
        }
    }
}

/// Whether two choices of a backend are the same: both leave it open, or both
/// name the same one.
pub open spec fn same_choice(a: Option<ConPtyBackend>, b: Option<ConPtyBackend>) -> bool {
    match (a, b) {
        (Some(a), Some(b)) => a.same(b),
        (None, None) => true,
        _ => false,
    }
}

/// Returns a copy of the choice of a backend.
pub(crate) fn clone_choice(backend: &Option<ConPtyBackend>) -> (copy: Option<ConPtyBackend>)
    ensures
        same_choice(*backend, copy),
{
    match backend {
        Some(backend) => Some(backend.clone()),
        None => None,
    }
}

impl Clone for ConPtyBackend {
    fn clone(&self) -> (copy: ConPtyBackend)
        ensures
            self.same(copy),
    {
        proof {
            use_type_invariant(self);
        }
        ConPtyBackend {
            kind: self.kind.clone(),
            api: self.api,
            module_pinned: self.module_pinned,
        }
    }
}

/// Reported when the operating system lacks a required export.
pub const SYSTEM_EXPORT_MISSING: &'static str =
    "the system ConPTY backend is missing a required export";

/// Returns the report of a required export that the operating system lacks.
pub fn log_missing_system_export(symbol: &'static str) -> (record: LogRecord)
    ensures
        record.says(LogLevel::Warn, SYSTEM_EXPORT_MISSING, seq![("symbol"@, symbol@)]),
        record.message@ == "the system ConPTY backend is missing a required export"@,
{
    let record = LogRecord::new(LogLevel::Warn, SYSTEM_EXPORT_MISSING).with("symbol", symbol);
    assert(record.spec_fields() =~= seq![("symbol"@, symbol@)]);
    record
}

/// A fallible initializer that remembers only its first successful result.
#[derive(Debug)]
pub struct SuccessfulCache<T> {
    value: Option<T>,
}

impl<T> SuccessfulCache<T> {
    /// The value, once there is one.
    pub closed spec fn spec_value(&self) -> Option<T> {
        self.value
    }

    /// Creates an empty cache.
    pub fn new() -> (cache: SuccessfulCache<T>)
        ensures
            cache.spec_value() == None::<T>,
    {
        SuccessfulCache { value: None }
    }
}

impl<T: Clone> SuccessfulCache<T> {
    /// Returns a clone of the value, asking `detect` for it as long as there is
    /// none, and never again.
    ///
    /// # Errors
    ///
    /// The failure of `detect`, which is not remembered: the next call asks
    /// again.
    pub fn get_or_try_init<E, F: FnOnce() -> Result<T, E>>(&mut self, detect: F) -> (value: Result<
        T,
        E,
    >)
        requires
            old(self).spec_value() is None ==> detect.requires(()),
        ensures
            old(self).spec_value() is Some ==> {
                &&& final(self).spec_value() == old(self).spec_value()
                &&& value is Ok
                &&& cloned::<T>(old(self).spec_value()->0, value->Ok_0)
            },
            old(self).spec_value() is None ==> exists|detected|
                {
                    &&& #[trigger] detect.ensures((), detected)
                    &&& value is Ok <==> detected is Ok
                    &&& detected is Ok ==> {
                        &&& final(self).spec_value() == Some(detected->Ok_0)
                        &&& cloned::<T>(detected->Ok_0, value->Ok_0)
                    }
                    &&& detected is Err ==> {
                        &&& final(self).spec_value() is None
                        &&& value->Err_0 == detected->Err_0
                    }
                },
    {
        match &self.value {
            Some(value) => {
                return Ok(value.clone());
            },
            None => {},
        }
        match detect() {
            Ok(detected) => {
                let value = detected.clone();
                self.value = Some(detected);
                Ok(value)
            },
            Err(err) => Err(err),
        }
    }
}

/// The start of the range of `HRESULT`s that wrap a plain Win32 error code:
/// failure bit and Win32 facility set.
pub const HRESULT_WIN32_FAILURES: i32 = -2147024896;

/// The OS error code that a failed `HRESULT` stands for: the wrapped Win32 code
/// where there is one, and else the value itself.
pub open spec fn hresult_code(hr: i32) -> i32 {
    if HRESULT_WIN32_FAILURES <= hr < HRESULT_WIN32_FAILURES + 0x10000 {
        (hr - HRESULT_WIN32_FAILURES) as i32
    } else {
        hr
    }
}

/// Converts a failed `HRESULT` into the failure that `from_raw_os_error` makes
/// of its OS error code.
///
/// Unwrapping a Win32 code is what lets it be classified and described.
pub fn hresult_to_io_error<F: FnOnce(i32) -> IoError>(hr: i32, from_raw_os_error: F) -> (err:
    IoError)
    requires
        from_raw_os_error.requires((hresult_code(hr),)),
    ensures
        from_raw_os_error.ensures((hresult_code(hr),), err),
{
    let bits: u32 = hr as u32;
    proof {
        assert(bits & 0xFFFF_0000 == 0x8007_0000 <==> (-2147024896 <= hr && hr < -2147024896
            + 0x10000)) by (bit_vector)
            requires
                bits == hr as u32,
        ;
        assert(bits & 0xFFFF_0000 == 0x8007_0000 ==> (bits & 0xFFFF) as int == hr + 2147024896)
            by (bit_vector)
            requires
                bits == hr as u32,
        ;
    }
    if bits & 0xFFFF_0000 == 0x8007_0000 {
        from_raw_os_error((bits & 0xFFFF) as i32)
    } else {
        from_raw_os_error(hr)
    }
}

/// Presents an `HRESULT`: success for every non-negative value, and else the
/// failure that `from_raw_os_error` makes of its OS error code.
pub fn hresult_ok<F: FnOnce(i32) -> IoError>(hr: i32, from_raw_os_error: F) -> (ok: Result<
    (),
    IoError,
>)
    requires
        hr < 0 ==> from_raw_os_error.requires((hresult_code(hr),)),
    ensures
        ok is Ok <==> hr >= 0,
        ok is Err ==> from_raw_os_error.ensures((hresult_code(hr),), ok->Err_0),
{
    if hr >= 0 {
        Ok(())
    } else {
        Err(hresult_to_io_error(hr, from_raw_os_error))
    }
}

/// Backends are of the same kind exactly where both are the system's, or both are
/// bundles with the same path.
pub proof fn kinds_are_told_apart(a: BackendKind, b: BackendKind)
    ensures
        a is System && b is System ==> a.same(b),
        a is System && b is External ==> !a.same(b) && !b.same(a),
        a matches BackendKind::External { dll: x } ==> (b matches BackendKind::External { dll: y }
            ==> (a.same(b) <==> x@ == y@)),
        a.same(a),
        a.same(b) == b.same(a),
{
}

/// Two choices of a backend are the same exactly where neither was made, or both
/// are for the same kind, entry points and pin.
pub proof fn choices_are_told_apart(a: ConPtyBackend, b: ConPtyBackend)
    ensures
        same_choice(None, None),
        !same_choice(Some(a), None),
        !same_choice(None, Some(b)),
        same_choice(Some(a), Some(b)) <==> {
            &&& a.spec_kind().same(b.spec_kind())
            &&& a.spec_api().create == b.spec_api().create
            &&& a.spec_api().resize == b.spec_api().resize
            &&& a.spec_api().close == b.spec_api().close
            &&& a.spec_api().release == b.spec_api().release
            &&& a.spec_api().clear == b.spec_api().clear
            &&& a.spec_module_pinned() == b.spec_module_pinned()
        },
{
}

/// A backend can release and clear exactly where it has the entry point for it.
pub proof fn features_are_entry_points(backend: &ConPtyBackend)
    ensures
        backend.spec_supports_release() <==> backend.spec_api().release is Some,
        backend.spec_supports_clear() <==> backend.spec_api().clear is Some,
{
}

/// A failure that stands for an error of the operating system has that error's
/// code: its lower sixteen bits. Every other result is its own code.
pub proof fn system_errors_keep_their_code(hr: i32, code: u16)
    ensures
        hresult_code((-0x7FF9_0000 + code) as i32) == code,
        hr < -0x7FF9_0000 || hr > -0x7FF8_0001 ==> hresult_code(hr) == hr,
{
}

} // verus!

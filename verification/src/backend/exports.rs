//! Resolution of the `ConPTY` entry points of a module.
//!
//! A mapped module is seen here as the list of the exports that its loader
//! reported: [`candidate_names`] says which names to ask for, and
//! [`ConptyApi::from_module`] decides from the answers whether the module is a
//! usable `ConPTY` implementation.

use vstd::prelude::*;
use vstd::string::*;
use vstd::utf8::*;

use crate::io_error::{IoError, IoErrorKind};
use crate::wide::{terminated, WideString};

verus! {

/// Prefix under which a standalone `conpty.dll` exports its entry points.
pub const CONPTY_EXPORT_PREFIX: &'static str = "Conpty";

/// The required export that creates a pseudoconsole.
pub const CREATE_PSEUDO_CONSOLE: &'static str = "CreatePseudoConsole";

/// The required export that resizes a pseudoconsole.
pub const RESIZE_PSEUDO_CONSOLE: &'static str = "ResizePseudoConsole";

/// The required export that closes a pseudoconsole.
pub const CLOSE_PSEUDO_CONSOLE: &'static str = "ClosePseudoConsole";

/// The optional export that hands a pseudoconsole its own lifetime back.
pub const RELEASE_PSEUDO_CONSOLE: &'static str = "ReleasePseudoConsole";

/// The optional export that clears a pseudoconsole's screen and scrollback.
pub const CLEAR_PSEUDO_CONSOLE: &'static str = "ClearPseudoConsole";

/// Lets the loader search the directory of the library that is being loaded.
pub const LOAD_LIBRARY_SEARCH_DLL_LOAD_DIR: u32 = 0x100;

/// Lets the loader search `System32`.
pub const LOAD_LIBRARY_SEARCH_SYSTEM32: u32 = 0x800;

/// Returns the loader search policy for a standalone `conpty.dll`: its own
/// directory and `System32`, and nothing else.
pub fn restricted_search_flags() -> (flags: u32)
    ensures
        flags == LOAD_LIBRARY_SEARCH_DLL_LOAD_DIR | LOAD_LIBRARY_SEARCH_SYSTEM32,
        flags == 0x900,
{
    assert(0x100u32 | 0x800u32 == 0x900u32) by (bit_vector);
    LOAD_LIBRARY_SEARCH_DLL_LOAD_DIR | LOAD_LIBRARY_SEARCH_SYSTEM32
}

/// The NUL-terminated spelling of an export name.
pub open spec fn c_name_of(prefix: Seq<char>, name: Seq<char>) -> Seq<u8> {
    encode_utf8(prefix) + encode_utf8(name) + seq![0u8]
}

/// Returns the NUL-terminated spelling of an export name.
fn c_name(prefix: &str, name: &str) -> (bytes: Vec<u8>)
    ensures
        bytes@ == c_name_of(prefix@, name@),
{
    let mut bytes: Vec<u8> = Vec::new();
    bytes.extend_from_slice(prefix.as_bytes());
    bytes.extend_from_slice(name.as_bytes());
    bytes.push(0);
    assert(bytes@ =~= c_name_of(prefix@, name@));
    bytes
}

/// One export of a module: its NUL-terminated name and its address.
#[derive(Debug)]
pub struct NamedExport {
    /// The name, terminating zero byte included.
    pub name: Vec<u8>,
    /// The address that the loader reported.
    pub address: usize,
}

/// The address that `exports` gives for `name`.
pub open spec fn address_of(exports: Seq<NamedExport>, name: Seq<u8>) -> Option<usize>
    decreases exports.len(),
{
    if exports.len() == 0 {
        None
    } else if exports[0].name@ == name {
        Some(exports[0].address)
    } else {
        address_of(exports.skip(1), name)
    }
}

/// The address of a `ConPTY` entry point: the one exported under the prefixed
/// spelling where there is one, else the one exported under the bare name.
pub open spec fn resolved(exports: Seq<NamedExport>, name: Seq<char>) -> Option<usize> {
    match address_of(exports, c_name_of(CONPTY_EXPORT_PREFIX@, name)) {
        Some(address) => Some(address),
        None => address_of(exports, c_name_of(""@, name)),
    }
}

/// Returns whether two byte strings are equal.
fn same_bytes(a: &[u8], b: &[u8]) -> (same: bool)
    ensures
        same == (a@ == b@),
{
    if a.len() != b.len() {
        return false;
    }
    let mut i: usize = 0;
    while i < a.len()
        invariant
            i <= a@.len(),
            a@.len() == b@.len(),
            forall|j: int| 0 <= j < i ==> a@[j] == b@[j],
        decreases a@.len() - i,
    {
        if a[i] != b[i] {
            return false;
        }
        i += 1;
    }
    assert(a@ =~= b@);
    true
}

/// Looks one spelling up among the exports of a module.
fn lookup(exports: &[NamedExport], name: &[u8]) -> (address: Option<usize>)
    ensures
        address == address_of(exports@, name@),
{
    let mut i: usize = 0;
    assert(exports@.skip(0) =~= exports@);
    while i < exports.len()
        invariant
            i <= exports@.len(),
            address_of(exports@, name@) == address_of(exports@.skip(i as int), name@),
        decreases exports@.len() - i,
    {
        assert(exports@.skip(i as int).skip(1) =~= exports@.skip(i + 1));
        if same_bytes(exports[i].name.as_slice(), name) {
            return Some(exports[i].address);
        }
        i += 1;
    }
    None
}

/// Resolves a `ConPTY` entry point among the exports of a module.
///
/// A standalone build is preferred by its `Conpty`-prefixed spelling; the
/// system's `kernel32.dll` falls through to the bare spelling.
pub fn resolve_export(exports: &[NamedExport], name: &str) -> (address: Option<usize>)
    ensures
        address == resolved(exports@, name@),
{
    let prefixed = c_name(CONPTY_EXPORT_PREFIX, name);
    let address: Option<usize> = lookup(exports, prefixed.as_slice());
    if address.is_some() {
        return address;
    }
    let bare = c_name("", name);
    lookup(exports, bare.as_slice())
}

/// Returns every spelling that [`ConptyApi::from_module`] may look up, in the
/// order in which it does: each entry point prefixed, then bare.
pub fn candidate_names() -> (names: Vec<Vec<u8>>)
    ensures
        names@.len() == 10,
        forall|i: int|
            0 <= i < 5 ==> {
                &&& (#[trigger] names@[2 * i])@ == c_name_of(
                    CONPTY_EXPORT_PREFIX@,
                    entry_point(i),
                )
                &&& names@[2 * i + 1]@ == c_name_of(""@, entry_point(i))
            },
{
    let mut names: Vec<Vec<u8>> = Vec::new();
    names.push(c_name(CONPTY_EXPORT_PREFIX, CREATE_PSEUDO_CONSOLE));
    names.push(c_name("", CREATE_PSEUDO_CONSOLE));
    names.push(c_name(CONPTY_EXPORT_PREFIX, RESIZE_PSEUDO_CONSOLE));
    names.push(c_name("", RESIZE_PSEUDO_CONSOLE));
    names.push(c_name(CONPTY_EXPORT_PREFIX, CLOSE_PSEUDO_CONSOLE));
    names.push(c_name("", CLOSE_PSEUDO_CONSOLE));
    names.push(c_name(CONPTY_EXPORT_PREFIX, RELEASE_PSEUDO_CONSOLE));
    names.push(c_name("", RELEASE_PSEUDO_CONSOLE));
    names.push(c_name(CONPTY_EXPORT_PREFIX, CLEAR_PSEUDO_CONSOLE));
    names.push(c_name("", CLEAR_PSEUDO_CONSOLE));
    names
}

/// The entry points, in the order in which they are resolved.
pub open spec fn entry_point(i: int) -> Seq<char> {
    if i == 0 {
        CREATE_PSEUDO_CONSOLE@
    } else if i == 1 {
        RESIZE_PSEUDO_CONSOLE@
    } else if i == 2 {
        CLOSE_PSEUDO_CONSOLE@
    } else if i == 3 {
        RELEASE_PSEUDO_CONSOLE@
    } else {
        CLEAR_PSEUDO_CONSOLE@
    }
}

/// The resolved entry points of one module.
///
/// The required exports are not optional, so a table that exists is always
/// usable. `release` and `clear` are the optional capabilities.
#[derive(Debug, Clone, Copy, PartialEq, Eq, Structural)]
pub struct ConptyApi {
    /// The address of `CreatePseudoConsole`.
    pub create: usize,
    /// The address of `ResizePseudoConsole`.
    pub resize: usize,
    /// The address of `ClosePseudoConsole`.
    pub close: usize,
    /// The address of `ReleasePseudoConsole`, where it is exported.
    pub release: Option<usize>,
    /// The address of `ClearPseudoConsole`, where it is exported and callable.
    pub clear: Option<usize>,
}

/// Whether a module has every required export.
pub open spec fn usable(exports: Seq<NamedExport>) -> bool {
    &&& resolved(exports, CREATE_PSEUDO_CONSOLE@) is Some
    &&& resolved(exports, RESIZE_PSEUDO_CONSOLE@) is Some
    &&& resolved(exports, CLOSE_PSEUDO_CONSOLE@) is Some
}

/// The entry points of a usable module.
pub open spec fn api_of(exports: Seq<NamedExport>, clear_abi_is_callable: bool) -> ConptyApi {
    ConptyApi {
        create: resolved(exports, CREATE_PSEUDO_CONSOLE@)->0,
        resize: resolved(exports, RESIZE_PSEUDO_CONSOLE@)->0,
        close: resolved(exports, CLOSE_PSEUDO_CONSOLE@)->0,
        release: resolved(exports, RELEASE_PSEUDO_CONSOLE@),
        clear: if clear_abi_is_callable {
            resolved(exports, CLEAR_PSEUDO_CONSOLE@)
        } else {
            None
        },
    }
}

/// The first required export that a module lacks.
pub open spec fn missing_export_of(exports: Seq<NamedExport>) -> &'static str {
    if resolved(exports, CREATE_PSEUDO_CONSOLE@) is None {
        CREATE_PSEUDO_CONSOLE
    } else if resolved(exports, RESIZE_PSEUDO_CONSOLE@) is None {
        RESIZE_PSEUDO_CONSOLE
    } else {
        CLOSE_PSEUDO_CONSOLE
    }
}

impl ConptyApi {
    /// Resolves every `ConPTY` entry point among the exports of a module.
    ///
    /// `clear_abi_is_callable` says whether the changing signature of
    /// `ClearPseudoConsole` can be called on the target: on 32-bit x86 an arity
    /// mismatch corrupts the stack, so the export is not offered there.
    ///
    /// # Errors
    ///
    /// The first required entry point, in the order create, resize, close,
    /// that the module exports under neither spelling.
    pub fn from_module(
        exports: &[NamedExport],
        clear_abi_is_callable: bool,
    ) -> (api: Result<ConptyApi, &'static str>)
        ensures
            api is Ok <==> usable(exports@),
            api is Ok ==> api->Ok_0 == api_of(exports@, clear_abi_is_callable),
            api is Err ==> api->Err_0 == missing_export_of(exports@),
    {
        let create: usize = match resolve_export(exports, CREATE_PSEUDO_CONSOLE) {
            Some(address) => address,
            None => return Err(CREATE_PSEUDO_CONSOLE),
        };
        let resize: usize = match resolve_export(exports, RESIZE_PSEUDO_CONSOLE) {
            Some(address) => address,
            None => return Err(RESIZE_PSEUDO_CONSOLE),
        };
        let close: usize = match resolve_export(exports, CLOSE_PSEUDO_CONSOLE) {
            Some(address) => address,
            None => return Err(CLOSE_PSEUDO_CONSOLE),
        };
        let release: Option<usize> = resolve_export(exports, RELEASE_PSEUDO_CONSOLE);
        let clear: Option<usize> = if clear_abi_is_callable {
            resolve_export(exports, CLEAR_PSEUDO_CONSOLE)
        } else {
            None
        };
        Ok(ConptyApi { create, resize, close, release, clear })
    }

    /// Returns the same table without its release entry point.
    pub fn without_release(&self) -> (api: ConptyApi)
        ensures
            api == (ConptyApi { release: None, ..*self }),
    {
        ConptyApi {
            create: self.create,
            resize: self.resize,
            close: self.close,
            release: None,
            clear: self.clear,
        }
    }
}

/// Converts a path to NUL-terminated UTF-16.
///
/// # Errors
///
/// [`IoErrorKind::InvalidInput`] if and only if `path` holds a zero unit.
pub fn wide_path(path: &WideString) -> (wide: Result<Vec<u16>, IoError>)
    ensures
        wide is Err <==> path@.contains(0u16),
        wide is Ok ==> wide->Ok_0@ == path@.push(0u16),
        wide is Err ==> {
            &&& wide->Err_0.kind == IoErrorKind::InvalidInput
            &&& wide->Err_0.code == None::<i32>
            &&& wide->Err_0.message@ == "path contains an interior NUL"@
            &&& wide->Err_0.inner == None::<Box<IoError>>
        },
{
    terminated(path.as_units(), "path contains an interior NUL")
}

/// Whether `exports[i]` is the first export of a module that is named `name`.
pub open spec fn first_named(exports: Seq<NamedExport>, name: Seq<u8>, i: int) -> bool {
    &&& 0 <= i < exports.len()
    &&& exports[i].name@ == name
    &&& forall|j: int| 0 <= j < i ==> (#[trigger] exports[j]).name@ != name
}

/// Whether a module exports `name`.
pub open spec fn exported(exports: Seq<NamedExport>, name: Seq<u8>) -> bool {
    exists|i: int| 0 <= i < exports.len() && (#[trigger] exports[i]).name@ == name
}

/// A name is looked up as it is: it has the address of the first export with just
/// that name, and none exactly where there is no such export.
pub proof fn looked_up_by_its_own_name(exports: Seq<NamedExport>, name: Seq<u8>)
    ensures
        address_of(exports, name) is Some <==> exported(exports, name),
        forall|i: int| #[trigger]
            first_named(exports, name, i) ==> address_of(exports, name) == Some(
                exports[i].address,
            ),
    decreases exports.len(),
{
    if exports.len() > 0 {
        let rest = exports.skip(1);
        looked_up_by_its_own_name(rest, name);
        if exports[0].name@ != name {
            if exported(rest, name) {
                let i = choose|i: int| 0 <= i < rest.len() && (#[trigger] rest[i]).name@ == name;
                assert(exports[i + 1].name@ == name);
            }
            if exported(exports, name) {
                let i = choose|i: int|
                    0 <= i < exports.len() && (#[trigger] exports[i]).name@ == name;
                assert(rest[i - 1].name@ == name);
            }
            assert forall|i: int| #[trigger] first_named(exports, name, i) implies address_of(
                exports,
                name,
            ) == Some(exports[i].address) by {
                assert(first_named(rest, name, i - 1)) by {
                    assert forall|j: int| 0 <= j < i - 1 implies (#[trigger] rest[j]).name@
                        != name by {
                        assert(rest[j] == exports[j + 1]);
                    }
                }
            }
        } else {
            assert(exported(exports, name));
            assert forall|i: int| #[trigger] first_named(exports, name, i) implies address_of(
                exports,
                name,
            ) == Some(exports[i].address) by {
                assert(i == 0);
            }
        }
    }
}

/// An entry point has the address that the module exports under its `Conpty`
/// spelling. Only a module that has no such export is asked for the bare one.
pub proof fn prefixed_export_is_preferred(exports: Seq<NamedExport>, name: Seq<char>, i: int)
    ensures
        ({
            let prefixed = encode_utf8("Conpty"@) + encode_utf8(name) + seq![0u8];
            let bare = encode_utf8(name) + seq![0u8];
            &&& resolved(exports, name) is Some <==> exported(exports, prefixed) || exported(
                exports,
                bare,
            )
            &&& first_named(exports, prefixed, i) ==> resolved(exports, name) == Some(
                exports[i].address,
            )
            &&& !exported(exports, prefixed) && first_named(exports, bare, i) ==> resolved(
                exports,
                name,
            ) == Some(exports[i].address)
        }),
{
    let prefixed = encode_utf8("Conpty"@) + encode_utf8(name) + seq![0u8];
    let bare = encode_utf8(name) + seq![0u8];
    looked_up_by_its_own_name(exports, prefixed);
    looked_up_by_its_own_name(exports, bare);
    reveal_strlit("");
    assert(encode_utf8(""@) =~= Seq::<u8>::empty());
    assert(c_name_of(""@, name) =~= bare);
}

/// What an export of a module answers for: the entry point called `name`, under
/// the `Conpty` spelling, or under the bare one where the other is missing.
pub open spec fn answers_for(exports: Seq<NamedExport>, name: Seq<char>, i: int) -> bool {
    let prefixed = encode_utf8("Conpty"@) + encode_utf8(name) + seq![0u8];
    let bare = encode_utf8(name) + seq![0u8];
    ||| first_named(exports, prefixed, i)
    ||| !exported(exports, prefixed) && first_named(exports, bare, i)
}

/// Every entry point of a table is the export of its own name: what resizes was
/// exported as `ResizePseudoConsole`, what closes as `ClosePseudoConsole`, and so
/// on, each with or without the `Conpty` prefix.
pub proof fn entry_points_are_their_own_exports(
    exports: Seq<NamedExport>,
    callable: bool,
    i: int,
)
    ensures
        ({
            let api = api_of(exports, callable);
            &&& answers_for(exports, "CreatePseudoConsole"@, i) ==> api.create
                == exports[i].address
            &&& answers_for(exports, "ResizePseudoConsole"@, i) ==> api.resize
                == exports[i].address
            &&& answers_for(exports, "ClosePseudoConsole"@, i) ==> api.close == exports[i].address
            &&& answers_for(exports, "ReleasePseudoConsole"@, i) ==> api.release == Some(
                exports[i].address,
            )
            &&& answers_for(exports, "ClearPseudoConsole"@, i) ==> api.clear == (if callable {
                Some(exports[i].address)
            } else {
                None
            })
        }),
{
    prefixed_export_is_preferred(exports, "CreatePseudoConsole"@, i);
    prefixed_export_is_preferred(exports, "ResizePseudoConsole"@, i);
    prefixed_export_is_preferred(exports, "ClosePseudoConsole"@, i);
    prefixed_export_is_preferred(exports, "ReleasePseudoConsole"@, i);
    prefixed_export_is_preferred(exports, "ClearPseudoConsole"@, i);
}

/// Whether a module exports the entry point called `name` under either spelling.
pub open spec fn offers(exports: Seq<NamedExport>, name: Seq<char>) -> bool {
    ||| exported(exports, encode_utf8("Conpty"@) + encode_utf8(name) + seq![0u8])
    ||| exported(exports, encode_utf8(name) + seq![0u8])
}

/// A module is usable exactly where it can create, resize and close. The first of
/// these that it lacks is the one that is reported. Release and clear are offered
/// exactly where they are exported, clear only where it can be called.
pub proof fn usable_modules_create_resize_and_close(exports: Seq<NamedExport>, callable: bool)
    ensures
        usable(exports) <==> {
            &&& offers(exports, "CreatePseudoConsole"@)
            &&& offers(exports, "ResizePseudoConsole"@)
            &&& offers(exports, "ClosePseudoConsole"@)
        },
        !offers(exports, "CreatePseudoConsole"@) ==> missing_export_of(exports)@
            == "CreatePseudoConsole"@,
        offers(exports, "CreatePseudoConsole"@) && !offers(exports, "ResizePseudoConsole"@)
            ==> missing_export_of(exports)@ == "ResizePseudoConsole"@,
        offers(exports, "CreatePseudoConsole"@) && offers(exports, "ResizePseudoConsole"@)
            && !offers(exports, "ClosePseudoConsole"@) ==> missing_export_of(exports)@
            == "ClosePseudoConsole"@,
        api_of(exports, callable).release is Some <==> offers(exports, "ReleasePseudoConsole"@),
        api_of(exports, callable).clear is Some <==> callable && offers(
            exports,
            "ClearPseudoConsole"@,
        ),
{
    prefixed_export_is_preferred(exports, "CreatePseudoConsole"@, 0);
    prefixed_export_is_preferred(exports, "ResizePseudoConsole"@, 0);
    prefixed_export_is_preferred(exports, "ClosePseudoConsole"@, 0);
    prefixed_export_is_preferred(exports, "ReleasePseudoConsole"@, 0);
    prefixed_export_is_preferred(exports, "ClearPseudoConsole"@, 0);
}

/// The loader is asked for the five entry points, in the order in which they are
/// needed, and every spelling ends in its one terminating zero.
pub proof fn five_entry_points_are_asked_for(prefix: Seq<char>, i: int)
    ensures
        entry_point(0) == "CreatePseudoConsole"@,
        entry_point(1) == "ResizePseudoConsole"@,
        entry_point(2) == "ClosePseudoConsole"@,
        entry_point(3) == "ReleasePseudoConsole"@,
        entry_point(4) == "ClearPseudoConsole"@,
        CONPTY_EXPORT_PREFIX@ == "Conpty"@,
        c_name_of(prefix, entry_point(i)) == encode_utf8(prefix) + encode_utf8(entry_point(i))
            + seq![0u8],
{
}

} // verus!

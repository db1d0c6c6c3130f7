//! Which executable a program names.
//!
//! A program with a directory names one file. A bare name is searched, but never
//! in the working directory: in the child's `PATH` where that differs from the
//! parent's, next to the running executable, in the directories of the system,
//! and in the parent's `PATH`.

use vstd::prelude::*;

use super::environment::invalid_input;
use super::line::QUOTE;
use super::{NUL_IN_PROGRAM, QUOTE_IN_PROGRAM};
use crate::io_error::{IoError, IoErrorKind};
use crate::path::{join_units, joined_units};
use crate::wide::{contains_nul, contains_unit, WideString};

verus! {

/// The dot before an extension.
pub const DOT: u16 = 0x2E;

/// Why an empty program is refused.
pub const EMPTY_PROGRAM: &'static str = "program must not be empty";

/// Why a program without a file name is refused.
pub const NO_FILE_NAME: &'static str = "program path has no file name";

/// Why a batch file is refused.
pub const BATCH_FILE: &'static str =
    "batch files must be invoked through an explicit command shell";

/// Why a program that is nowhere cannot be launched.
pub const PROGRAM_NOT_FOUND: &'static str = "program not found";

/// How a program reads as a path.
#[derive(Debug)]
pub struct ProgramPath {
    /// The last component, if the path ends in a name.
    pub file_name: Option<WideString>,
    /// What follows the last dot of that name, if it has one within.
    pub extension: Option<WideString>,
}

/// A unit with the case of its letter, if it is one, lowered.
pub open spec fn lowered(unit: u16) -> u16 {
    if 0x41 <= unit <= 0x5A {
        (unit + 0x20) as u16
    } else {
        unit
    }
}

/// Whether `units` spell the three letters, in either case.
pub open spec fn spells(units: Seq<u16>, a: char, b: char, c: char) -> bool {
    &&& units.len() == 3
    &&& lowered(units[0]) == a as u16
    &&& lowered(units[1]) == b as u16
    &&& lowered(units[2]) == c as u16
}

/// Whether an extension is that of a batch file.
pub open spec fn batch(extension: Seq<u16>) -> bool {
    spells(extension, 'b', 'a', 't') || spells(extension, 'c', 'm', 'd')
}

/// Why a program is refused.
pub open spec fn program_fault(program: Seq<u16>, path: ProgramPath) -> Option<&'static str> {
    if program.len() == 0 {
        Some(EMPTY_PROGRAM)
    } else if program.contains(0u16) {
        Some(NUL_IN_PROGRAM)
    } else if program.contains(QUOTE) {
        Some(QUOTE_IN_PROGRAM)
    } else if path.file_name is None {
        Some(NO_FILE_NAME)
    } else if path.extension is Some && batch(path.extension->0@) {
        Some(BATCH_FILE)
    } else {
        None
    }
}

fn lower(unit: u16) -> (low: u16)
    ensures
        low == lowered(unit),
{
    if 0x41 <= unit && unit <= 0x5A {
        unit + 0x20
    } else {
        unit
    }
}

/// Checks that a program can be launched by itself.
///
/// # Errors
///
/// [`IoErrorKind::InvalidInput`] if and only if the program is empty, holds a
/// zero unit or a quote, has no file name, or is a batch file.
pub fn check_program(program: &WideString, path: &ProgramPath) -> (checked: Result<(), IoError>)
    ensures
        checked is Err <==> program_fault(program@, *path) is Some,
        checked is Err ==> invalid_input(checked->Err_0, program_fault(program@, *path)->0@),
{
    let units = program.as_units();
    if units.len() == 0 {
        return Err(IoError::new(IoErrorKind::InvalidInput, EMPTY_PROGRAM));
    }
    if contains_nul(units) {
        return Err(IoError::new(IoErrorKind::InvalidInput, NUL_IN_PROGRAM));
    }
    if contains_unit(units, QUOTE) {
        return Err(IoError::new(IoErrorKind::InvalidInput, QUOTE_IN_PROGRAM));
    }
    if path.file_name.is_none() {
        return Err(IoError::new(IoErrorKind::InvalidInput, NO_FILE_NAME));
    }
    if let Some(extension) = &path.extension {
        let ext = extension.as_units();
        if ext.len() == 3 {
            let (a, b, c): (u16, u16, u16) = (lower(ext[0]), lower(ext[1]), lower(ext[2]));
            if (a == 0x62 && b == 0x61 && c == 0x74) || (a == 0x63 && b == 0x6D && c == 0x64) {
                return Err(IoError::new(IoErrorKind::InvalidInput, BATCH_FILE));
            }
        }
    }
    Ok(())
}

/// Whether the program is a bare name: the path is its last component alone.
pub open spec fn bare(program: Seq<u16>, path: ProgramPath) -> bool {
    path.file_name is Some && path.file_name->0@ == program
}

/// Returns whether the program is a bare name, which is searched.
pub fn is_bare(program: &WideString, path: &ProgramPath) -> (is: bool)
    ensures
        is == bare(program@, *path),
{
    match &path.file_name {
        Some(name) => {
            let (a, b) = (name.as_units(), program.as_units());
            if a.len() != b.len() {
                return false;
            }
            let mut i: usize = 0;
            while i < a.len()
                invariant
                    a@.len() == b@.len(),
                    a@ == name@,
                    b@ == program@,
                    path.file_name == Some(*name),
                    i <= a@.len(),
                    forall|j: int| 0 <= j < i ==> a@[j] == b@[j],
                decreases a@.len() - i,
            {
                if a[i] != b[i] {
                    return false;
                }
                i += 1;
            }
            assert(name@ =~= program@);
            true
        },
        None => false,
    }
}

/// Whether a program ends in the extension of executables.
pub open spec fn ends_in_exe(program: Seq<u16>) -> bool {
    &&& program.len() >= 4
    &&& program[program.len() - 4] == DOT
    &&& spells(program.skip(program.len() - 3), 'e', 'x', 'e')
}

/// The extension of executables, with its dot.
pub open spec fn dot_exe() -> Seq<u16> {
    seq![DOT, 'e' as u16, 'x' as u16, 'e' as u16]
}

/// The file that a bare name is searched as: one without a dot is an executable.
pub open spec fn searched_name(program: Seq<u16>) -> Seq<u16> {
    if program.contains(DOT) {
        program
    } else {
        program + dot_exe()
    }
}

/// Whether a directory is searched: it is no empty entry and can be named.
pub open spec fn searchable(dir: Seq<u16>) -> bool {
    dir.len() > 0 && !dir.contains(0u16)
}

/// Where a bare name is searched, in order.
pub open spec fn search_paths(program: Seq<u16>, dirs: Seq<Seq<u16>>) -> Seq<Seq<u16>>
    decreases dirs.len(),
{
    if dirs.len() == 0 {
        seq![]
    } else if searchable(dirs.last()) {
        search_paths(program, dirs.drop_last()).push(
            joined_units(dirs.last(), searched_name(program)),
        )
    } else {
        search_paths(program, dirs.drop_last())
    }
}

/// The paths at which the executable of a program may be, in order of preference.
pub open spec fn candidates(program: Seq<u16>, bare: bool, dirs: Seq<Seq<u16>>) -> Seq<Seq<u16>> {
    if bare {
        search_paths(program, dirs)
    } else if ends_in_exe(program) {
        seq![]
    } else {
        seq![program + dot_exe()]
    }
}

/// The texts of a list.
pub open spec fn texts(list: Seq<WideString>) -> Seq<Seq<u16>> {
    list.map_values(|text: WideString| text@)
}

/// Appends the extension of executables.
fn push_dot_exe(out: &mut Vec<u16>)
    ensures
        final(out)@ == old(out)@ + dot_exe(),
{
    out.push(DOT);
    out.push(0x65);
    out.push(0x78);
    out.push(0x65);
    assert(out@ =~= old(out)@ + dot_exe());
}

/// Returns the paths at which the executable of a program may be, in order of
/// preference; `is_bare` says whether it is searched in `dirs`, see [`is_bare`].
pub fn executable_candidates(program: &WideString, is_bare: bool, dirs: &[WideString]) -> (paths:
    Vec<WideString>)
    ensures
        texts(paths@) == candidates(program@, is_bare, texts(dirs@)),
{
    let units = program.as_units();
    let mut paths: Vec<WideString> = Vec::new();
    assert(texts(paths@) =~= seq![]);
    if !is_bare {
        let len: usize = units.len();
        if len >= 4 && units[len - 4] == DOT && lower(units[len - 3]) == 0x65 && lower(
            units[len - 2],
        ) == 0x78 && lower(units[len - 1]) == 0x65 {
            assert(ends_in_exe(program@));
            return paths;
        }
        let mut path: Vec<u16> = Vec::new();
        path.extend_from_slice(units);
        assert(path@ =~= program@);
        push_dot_exe(&mut path);
        paths.push(WideString::from_units(path));
        assert(texts(paths@) =~= seq![program@ + dot_exe()]);
        return paths;
    }
    let mut name: Vec<u16> = Vec::new();
    name.extend_from_slice(units);
    assert(name@ =~= program@);
    if !contains_unit(units, DOT) {
        push_dot_exe(&mut name);
    }
    let mut i: usize = 0;
    let ghost all = texts(dirs@);
    assert(all.take(0) =~= seq![]);
    while i < dirs.len()
        invariant
            i <= dirs@.len(),
            all == texts(dirs@),
            name@ == searched_name(program@),
            texts(paths@) == search_paths(program@, all.take(i as int)),
        decreases dirs@.len() - i,
    {
        let dir = &dirs[i];
        let ghost before = texts(paths@);
        proof {
            assert(all.take(i + 1).drop_last() =~= all.take(i as int));
            assert(all.take(i + 1).last() == dir@);
        }
        if dir.as_units().len() > 0 && !contains_nul(dir.as_units()) {
            let path = join_units(dir, name.as_slice());
            paths.push(path);
            assert(texts(paths@) =~= before.push(path@));
        }
        i += 1;
    }
    assert(all.take(i as int) =~= all);
    paths
}

/// Returns the executable to launch, `found` being the first candidate that
/// exists.
///
/// # Errors
///
/// [`IoErrorKind::NotFound`] if and only if a bare name was found nowhere. Any
/// other program is then launched as it is.
pub fn chosen_executable(program: &WideString, is_bare: bool, found: Option<WideString>) -> (chosen:
    Result<WideString, IoError>)
    ensures
        found is Some ==> chosen == Ok::<WideString, IoError>(found->0),
        found is None && !is_bare ==> chosen is Ok && chosen->Ok_0@ == program@,
        found is None && is_bare ==> {
            &&& chosen is Err
            &&& chosen->Err_0.kind == IoErrorKind::NotFound
            &&& chosen->Err_0.code == None::<i32>
            &&& chosen->Err_0.message@ == PROGRAM_NOT_FOUND@
            &&& chosen->Err_0.message@ == "program not found"@
            &&& chosen->Err_0.inner == None::<Box<IoError>>
        },
{
    match found {
        Some(path) => Ok(path),
        None => if is_bare {
            Err(IoError::new(IoErrorKind::NotFound, PROGRAM_NOT_FOUND))
        } else {
            Ok(program.clone())
        },
    }
}

/// The directories of a search, as far as they are known.
#[derive(Debug)]
pub struct SearchPlaces {
    /// The child's `PATH`, where its environment is not the parent's.
    pub child_path: Vec<WideString>,
    /// The directory of the running executable.
    pub application: Option<WideString>,
    /// The system directory.
    pub system: WideString,
    /// The Windows directory.
    pub windows: WideString,
    /// The parent's `PATH`.
    pub path: Vec<WideString>,
}

impl SearchPlaces {
    /// The directories in the order in which they are searched.
    pub open spec fn in_order(self) -> Seq<Seq<u16>> {
        texts(self.child_path@) + match self.application {
            Some(dir) => seq![dir@],
            None => seq![],
        } + seq![self.system@, self.windows@] + texts(self.path@)
    }

    /// Returns the directories in the order in which they are searched.
    pub fn into_dirs(self) -> (dirs: Vec<WideString>)
        ensures
            texts(dirs@) == self.in_order(),
    {
        let ghost places = self;
        let SearchPlaces { child_path, application, system, windows, path } = self;
        let mut dirs = child_path;
        let mut path = path;
        if let Some(dir) = application {
            dirs.push(dir);
        }
        dirs.push(system);
        dirs.push(windows);
        dirs.append(&mut path);
        assert(texts(dirs@) =~= places.in_order());
        dirs
    }
}

/// A bare name is never searched in the working directory: every candidate stands
/// in one of the directories that were given.
pub proof fn search_stays_in_its_directories(program: Seq<u16>, dirs: Seq<Seq<u16>>, i: int)
    requires
        0 <= i < candidates(program, true, dirs).len(),
    ensures
        exists|j: int|
            0 <= j < dirs.len() && searchable(#[trigger] dirs[j]) && candidates(
                program,
                true,
                dirs,
            )[i] == joined_units(dirs[j], searched_name(program)),
    decreases dirs.len(),
{
    let earlier = dirs.drop_last();
    if i < candidates(program, true, earlier).len() {
        search_stays_in_its_directories(program, earlier, i);
        let j = choose|j: int|
            0 <= j < earlier.len() && searchable(#[trigger] earlier[j]) && candidates(
                program,
                true,
                earlier,
            )[i] == joined_units(earlier[j], searched_name(program));
        assert(dirs[j] == earlier[j]);
    } else {
        assert(dirs[dirs.len() - 1] == dirs.last());
    }
}

/// Whether `unit` is the letter with this lower case and capital.
pub open spec fn letter(unit: u16, low: char, capital: char) -> bool {
    unit == low as u16 || unit == capital as u16
}

/// An extension is that of a batch file exactly where it reads `bat` or `cmd`, in
/// whatever case.
pub proof fn batch_files_are_known_by_their_extension(extension: Seq<u16>)
    ensures
        batch(extension) <==> extension.len() == 3 && {
            ||| letter(extension[0], 'b', 'B') && letter(extension[1], 'a', 'A') && letter(
                extension[2],
                't',
                'T',
            )
            ||| letter(extension[0], 'c', 'C') && letter(extension[1], 'm', 'M') && letter(
                extension[2],
                'd',
                'D',
            )
        },
{
}

/// A program is accepted exactly where it is not empty, holds neither a zero unit
/// nor a quote, ends in a file name, and is no batch file. Otherwise the first of
/// these that it breaks is named.
pub proof fn programs_are_refused_for_what_they_are(program: Seq<u16>, path: ProgramPath)
    ensures
        ({
            let empty = program.len() == 0;
            let nul = program.contains(0u16);
            let quote = program.contains(0x22u16);
            let nameless = path.file_name is None;
            let script = path.extension is Some && batch(path.extension->0@);
            let fault = program_fault(program, path);
            &&& fault is None <==> !empty && !nul && !quote && !nameless && !script
            &&& empty ==> fault->0@ == "program must not be empty"@
            &&& !empty && nul ==> fault->0@ == "program contains an interior NUL"@
            &&& !empty && !nul && quote ==> fault->0@ == "program must not contain a double quote"@
            &&& !empty && !nul && !quote && nameless ==> fault->0@
                == "program path has no file name"@
            &&& !empty && !nul && !quote && !nameless && script ==> fault->0@
                == "batch files must be invoked through an explicit command shell"@
        }),
{
}

/// A bare name without a dot is searched with `.exe` behind it, one with a dot as
/// it is. A program that is not bare is tried with `.exe` behind it, unless it ends
/// so already, in whatever case.
pub proof fn executables_end_in_exe(program: Seq<u16>, dirs: Seq<Seq<u16>>)
    ensures
        ({
            let n = program.len() as int;
            let ends = n >= 4 && program[n - 4] == 0x2E && letter(program[n - 3], 'e', 'E')
                && letter(program[n - 2], 'x', 'X') && letter(program[n - 1], 'e', 'E');
            let with_exe = program + seq![0x2Eu16, 0x65u16, 0x78u16, 0x65u16];
            &&& program.contains(0x2Eu16) ==> searched_name(program) == program
            &&& !program.contains(0x2Eu16) ==> searched_name(program) == with_exe
            &&& ends ==> candidates(program, false, dirs) == Seq::<Seq<u16>>::empty()
            &&& !ends ==> candidates(program, false, dirs) == seq![with_exe]
        }),
{
    let with_exe = program + seq![0x2Eu16, 0x65u16, 0x78u16, 0x65u16];
    assert(program + dot_exe() =~= with_exe);
    if program.len() >= 4 {
        let n = program.len() as int;
        let end = program.skip(n - 3);
        assert(end[0] == program[n - 3]);
        assert(end[1] == program[n - 2]);
        assert(end[2] == program[n - 1]);
    }
}

/// A bare name is looked for in one directory after the other, once in each. Empty
/// entries, and ones with a zero unit, are passed over.
pub proof fn directories_are_searched_in_order(
    program: Seq<u16>,
    a: Seq<Seq<u16>>,
    b: Seq<Seq<u16>>,
    dir: Seq<u16>,
)
    ensures
        candidates(program, true, Seq::empty()) == Seq::<Seq<u16>>::empty(),
        candidates(program, true, a + b) == candidates(program, true, a) + candidates(
            program,
            true,
            b,
        ),
        dir.len() == 0 || dir.contains(0u16) ==> candidates(program, true, seq![dir]) == Seq::<
            Seq<u16>,
        >::empty(),
        dir.len() > 0 && !dir.contains(0u16) ==> candidates(program, true, seq![dir]) == seq![
            joined_units(dir, searched_name(program)),
        ],
    decreases b.len(),
{
    let one = seq![dir];
    assert(one.drop_last() =~= Seq::<Seq<u16>>::empty());
    assert(search_paths(program, one.drop_last()) =~= Seq::<Seq<u16>>::empty());
    assert(search_paths(program, one) =~= if searchable(dir) {
        seq![joined_units(dir, searched_name(program))]
    } else {
        seq![]
    });
    if b.len() == 0 {
        assert(a + b =~= a);
        assert(search_paths(program, a) + search_paths(program, b) =~= search_paths(program, a));
    } else {
        directories_are_searched_in_order(program, a, b.drop_last(), dir);
        assert((a + b).drop_last() =~= a + b.drop_last());
        assert((a + b).last() == b.last());
        assert(search_paths(program, a + b) =~= search_paths(program, a) + search_paths(
            program,
            b,
        ));
    }
}

/// The child's own `PATH` is searched first, then the directory of the running
/// executable, the system's, that of Windows, and last the parent's `PATH`.
pub proof fn places_are_searched_in_order(places: SearchPlaces, i: int)
    ensures
        ({
            let dirs = places.in_order();
            let own = places.child_path@.len() as int;
            let app: int = if places.application is Some {
                1
            } else {
                0
            };
            &&& dirs.len() == own + app + 2 + places.path@.len()
            &&& 0 <= i < own ==> dirs[i] == places.child_path@[i]@
            &&& places.application is Some ==> dirs[own] == places.application->0@
            &&& dirs[own + app] == places.system@
            &&& dirs[own + app + 1] == places.windows@
            &&& 0 <= i < places.path@.len() ==> dirs[own + app + 2 + i] == places.path@[i]@
        }),
{
}

/// A program is bare exactly where its file name is all of it.
pub proof fn bare_programs_are_file_names(program: Seq<u16>, path: ProgramPath, name: WideString)
    ensures
        path.file_name == Some(name) ==> (bare(program, path) <==> program == name@),
        path.file_name is None ==> !bare(program, path),
{
}

} // verus!

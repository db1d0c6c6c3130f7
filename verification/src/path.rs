//! Paths of the operating system, as far as names are joined to them.

use vstd::prelude::*;

use crate::wide::{encode, WideString};

verus! {

/// The separator of paths.
pub const BACKSLASH: u16 = 0x5C;

/// The other separator, which verbatim paths do not know.
pub const SLASH: u16 = 0x2F;

/// What ends the name of a drive.
pub const COLON: u16 = 0x3A;

/// Whether `path` begins with a drive: a letter and a colon.
pub open spec fn begins_with_drive(path: Seq<u16>) -> bool {
    &&& path.len() >= 2
    &&& (0x41 <= path[0] <= 0x5A || 0x61 <= path[0] <= 0x7A)
    &&& path[1] == COLON
}

/// Whether a path that ends in `dir` needs a separator before a further name: it
/// does not when it is empty, when it ends in one, or when it is a bare drive.
pub open spec fn needs_separator(dir: Seq<u16>) -> bool {
    &&& dir.len() > 0
    &&& dir.last() != BACKSLASH
    &&& dir.last() != SLASH
    &&& !(dir.len() == 2 && begins_with_drive(dir))
}

/// Whether `path` is verbatim: it begins with two backslashes, a question mark
/// and a backslash.
pub open spec fn verbatim(path: Seq<u16>) -> bool {
    &&& path.len() >= 4
    &&& path[0] == BACKSLASH
    &&& path[1] == BACKSLASH
    &&& path[2] == '?' as u16
    &&& path[3] == BACKSLASH
}

/// Where the component of a verbatim path that begins at `from` ends: at the next
/// backslash, or with the path.
pub open spec fn component_end(path: Seq<u16>, from: int) -> int
    decreases path.len() - from,
{
    if from >= path.len() || path[from] == BACKSLASH {
        from
    } else {
        component_end(path, from + 1)
    }
}

/// Whether a verbatim path names a share of a server.
pub open spec fn names_server(path: Seq<u16>) -> bool {
    &&& path.len() >= 8
    &&& path[4] == 'U' as u16
    &&& path[5] == 'N' as u16
    &&& path[6] == 'C' as u16
    &&& path[7] == BACKSLASH
}

/// Whether a verbatim path begins with a drive and nothing more.
pub open spec fn names_drive(path: Seq<u16>) -> bool {
    &&& begins_with_drive(path.skip(4))
    &&& path.len() == 6 || path[6] == BACKSLASH || path[6] == SLASH
}

/// The length of the prefix of a verbatim path: up to the share of a server, if it
/// is named, up to a drive, or up to the first component.
pub open spec fn prefix_len(path: Seq<u16>) -> int {
    if names_server(path) {
        let server = component_end(path, 8);
        let share = component_end(path, server + 1);
        if share > server + 1 {
            share
        } else {
            server
        }
    } else if names_drive(path) {
        6
    } else {
        component_end(path, 4)
    }
}

/// `rest` without the backslashes that end it or stand before another one.
pub open spec fn squeezed(rest: Seq<u16>) -> Seq<u16>
    decreases rest.len(),
{
    if rest.len() == 0 {
        seq![]
    } else if rest[0] == BACKSLASH && (rest.len() == 1 || rest[1] == BACKSLASH) {
        squeezed(rest.skip(1))
    } else {
        seq![rest[0]] + squeezed(rest.skip(1))
    }
}

/// What follows the prefix of a verbatim path. A slash right behind a drive is its
/// root.
pub open spec fn behind_prefix(path: Seq<u16>) -> Seq<u16> {
    let rest = path.skip(prefix_len(path));
    if rest.len() > 0 && rest[0] == SLASH {
        rest.update(0, BACKSLASH)
    } else {
        rest
    }
}

/// The path of what `dir` holds as `name`, which is a single component. In a
/// verbatim directory only the backslash separates, and separators that separate
/// nothing are left out.
pub open spec fn joined_units(dir: Seq<u16>, name: Seq<u16>) -> Seq<u16> {
    if verbatim(dir) {
        dir.take(prefix_len(dir)) + squeezed(behind_prefix(dir)) + seq![BACKSLASH] + name
    } else if needs_separator(dir) {
        dir.push(BACKSLASH) + name
    } else {
        dir + name
    }
}

/// The path of the file `name` in `dir`.
pub open spec fn joined(dir: Seq<u16>, name: Seq<char>) -> Seq<u16> {
    joined_units(dir, encode(name))
}

/// Returns whether `path` begins with a drive.
fn is_drive(path: &[u16]) -> (drive: bool)
    ensures
        drive == begins_with_drive(path@),
{
    path.len() >= 2 && ((0x41 <= path[0] && path[0] <= 0x5A) || (0x61 <= path[0] && path[0]
        <= 0x7A)) && path[1] == COLON
}

/// A component does not end before it begins, nor behind the path.
proof fn lemma_component_end(path: Seq<u16>, from: int)
    requires
        0 <= from,
    ensures
        from <= component_end(path, from),
        from <= path.len() ==> component_end(path, from) <= path.len(),
        from > path.len() ==> component_end(path, from) == from,
    decreases path.len() - from,
{
    if from < path.len() && path[from] != BACKSLASH {
        lemma_component_end(path, from + 1);
    }
}

/// Returns where the component that begins at `from` ends.
fn find_component_end(path: &[u16], from: usize) -> (end: usize)
    requires
        from <= path@.len(),
    ensures
        end == component_end(path@, from as int),
        from <= end <= path@.len(),
{
    let mut end: usize = from;
    while end < path.len() && path[end] != BACKSLASH
        invariant
            from <= end <= path@.len(),
            component_end(path@, end as int) == component_end(path@, from as int),
        decreases path@.len() - end,
    {
        end += 1;
    }
    end
}

/// Returns the length of the prefix of a verbatim path.
fn find_prefix_len(path: &[u16]) -> (len: usize)
    requires
        verbatim(path@),
    ensures
        len == prefix_len(path@),
        len <= path@.len(),
{
    if path.len() >= 8 && path[4] == 0x55 && path[5] == 0x4E && path[6] == 0x43 && path[7]
        == BACKSLASH {
        let server: usize = find_component_end(path, 8);
        if server == path.len() {
            proof {
                lemma_component_end(path@, server + 1);
            }
            return server;
        }
        let share: usize = find_component_end(path, server + 1);
        if share > server + 1 {
            share
        } else {
            server
        }
    } else if path.len() >= 6 && is_drive(vstd::slice::slice_subrange(path, 4, path.len())) && (
    path.len() == 6 || path[6] == BACKSLASH || path[6] == SLASH) {
        assert(path@.subrange(4, path@.len() as int) =~= path@.skip(4));
        6
    } else {
        assert(path@.subrange(4, path@.len() as int) =~= path@.skip(4));
        find_component_end(path, 4)
    }
}

/// Appends what follows the prefix of a verbatim path, squeezed.
fn push_squeezed(out: &mut Vec<u16>, path: &[u16], from: usize)
    requires
        verbatim(path@),
        from == prefix_len(path@),
        from <= path@.len(),
    ensures
        final(out)@ == old(out)@ + squeezed(behind_prefix(path@)),
{
    let ghost rest = behind_prefix(path@);
    let mut i: usize = from;
    assert(rest.skip(0) =~= rest);
    while i < path.len()
        invariant
            from <= i <= path@.len(),
            from == prefix_len(path@),
            rest == behind_prefix(path@),
            rest.len() == path@.len() - from,
            out@ + squeezed(rest.skip(i - from)) == old(out)@ + squeezed(rest),
        decreases path@.len() - i,
    {
        let ghost here = rest.skip(i - from);
        let ghost before = out@;
        let unit: u16 = if i == from && path[i] == SLASH {
            BACKSLASH
        } else {
            path[i]
        };
        assert(here[0] == unit);
        assert(here.skip(1) =~= rest.skip(i + 1 - from));
        assert(i + 1 < path@.len() ==> here[1] == path@[i + 1]);
        if !(unit == BACKSLASH && (i + 1 == path.len() || path[i + 1] == BACKSLASH)) {
            out.push(unit);
            assert(before + (seq![unit] + squeezed(here.skip(1))) =~= out@ + squeezed(
                here.skip(1),
            ));
        }
        i += 1;
    }
    assert(rest.skip(i - from) =~= seq![]);
    assert(out@ =~= old(out)@ + squeezed(rest));
}

/// Returns the path of the file `name` in `dir`.
pub fn join(dir: &WideString, name: &str) -> (path: WideString)
    ensures
        path@ == joined(dir@, name@),
{
    join_units(dir, WideString::from_text(name).as_units())
}

/// Returns the path of what `dir` holds as `name`.
pub fn join_units(dir: &WideString, name: &[u16]) -> (path: WideString)
    ensures
        path@ == joined_units(dir@, name@),
{
    let units = dir.as_units();
    let len: usize = units.len();
    let mut path: Vec<u16> = Vec::new();
    if len >= 4 && units[0] == BACKSLASH && units[1] == BACKSLASH && units[2] == 0x3F && units[3]
        == BACKSLASH {
        let prefix: usize = find_prefix_len(units);
        path.extend_from_slice(vstd::slice::slice_subrange(units, 0, prefix));
        assert(path@ =~= dir@.take(prefix as int));
        push_squeezed(&mut path, units, prefix);
        path.push(BACKSLASH);
    } else {
        path.extend_from_slice(units);
        assert(path@ =~= dir@);
        if len > 0 && units[len - 1] != BACKSLASH && units[len - 1] != SLASH && !(len == 2
            && is_drive(units)) {
            path.push(BACKSLASH);
        }
    }
    path.extend_from_slice(name);
    assert(path@ =~= joined_units(dir@, name@));
    WideString::from_units(path)
}

/// A name is joined to an ordinary directory with one backslash between, or with
/// none where the directory is empty, ends in a backslash or a slash, or is a drive
/// alone.
pub proof fn names_are_joined_by_one_separator(dir: Seq<u16>, name: Seq<u16>)
    requires
        !(dir.len() >= 4 && dir[0] == 0x5C && dir[1] == 0x5C && dir[2] == 0x3F && dir[3] == 0x5C),
    ensures
        ({
            let drive = dir.len() == 2 && dir[1] == 0x3A && (0x41 <= dir[0] <= 0x5A || 0x61
                <= dir[0] <= 0x7A);
            let closed = dir.len() == 0 || dir.last() == 0x5C || dir.last() == 0x2F || drive;
            &&& closed ==> joined_units(dir, name) == dir + name
            &&& !closed ==> joined_units(dir, name) == dir + seq![0x5Cu16] + name
        }),
{
    assert(dir.push(BACKSLASH) + name =~= dir + seq![0x5Cu16] + name);
}

/// A name is joined to a verbatim directory behind one backslash, whatever the
/// directory ends in, and the prefix of the directory stays as it is.
pub proof fn verbatim_directories_end_in_one_separator(dir: Seq<u16>, name: Seq<u16>)
    requires
        dir.len() >= 4,
        dir[0] == 0x5C && dir[1] == 0x5C && dir[2] == 0x3F && dir[3] == 0x5C,
    ensures
        joined_units(dir, name) == dir.take(prefix_len(dir)) + squeezed(behind_prefix(dir))
            + seq![0x5Cu16] + name,
        4 <= prefix_len(dir) <= dir.len(),
{
    lemma_component_end(dir, 4);
    if names_server(dir) {
        let server = component_end(dir, 8);
        lemma_component_end(dir, 8);
        lemma_component_end(dir, server + 1);
    }
}

/// A file is joined by the UTF-16 of its name.
pub proof fn files_are_joined_by_their_name(dir: Seq<u16>, name: Seq<char>)
    ensures
        joined(dir, name) == joined_units(dir, encode(name)),
{
}

/// The component that begins at `from` ends at the first backslash behind that, or
/// with the path.
pub proof fn components_end_at_backslashes(path: Seq<u16>, from: int, end: int)
    requires
        0 <= from <= end <= path.len(),
        forall|i: int| from <= i < end ==> #[trigger] path[i] != 0x5C,
        end == path.len() || path[end] == 0x5C,
    ensures
        component_end(path, from) == end,
    decreases end - from,
{
    if from < end {
        assert(path[from] != 0x5C);
        components_end_at_backslashes(path, from + 1, end);
    }
}

/// Whether `text` is one component of a verbatim path.
pub open spec fn component(text: Seq<u16>) -> bool {
    forall|i: int| 0 <= i < text.len() ==> #[trigger] text[i] != 0x5C
}

/// Whether `rest` can follow a component: it is empty or begins with a backslash.
pub open spec fn ends_component(rest: Seq<u16>) -> bool {
    rest.len() == 0 || rest[0] == 0x5C
}

/// The prefix of a verbatim path to a share reaches up to the share.
pub proof fn share_belongs_to_the_prefix(server: Seq<u16>, share: Seq<u16>, rest: Seq<u16>)
    requires
        component(server),
        component(share),
        share.len() > 0,
        ends_component(rest),
    ensures
        ({
            let head = seq![
                0x5Cu16,
                0x5Cu16,
                0x3Fu16,
                0x5Cu16,
                0x55u16,
                0x4Eu16,
                0x43u16,
                0x5Cu16,
            ];
            let path = head + server + seq![0x5Cu16] + share + rest;
            &&& prefix_len(path) == 9 + server.len() + share.len()
            &&& behind_prefix(path) == rest
        }),
{
    let head = seq![
        0x5Cu16,
        0x5Cu16,
        0x3Fu16,
        0x5Cu16,
        0x55u16,
        0x4Eu16,
        0x43u16,
        0x5Cu16,
    ];
    let path = head + server + seq![0x5Cu16] + share + rest;
    let at = 8 + server.len() as int;
    let end = at + 1 + share.len();
    assert forall|i: int| 8 <= i < at implies #[trigger] path[i] != 0x5C by {
        assert(path[i] == server[i - 8]);
    }
    assert(path[at] == 0x5C);
    components_end_at_backslashes(path, 8, at);
    assert forall|i: int| at + 1 <= i < end implies #[trigger] path[i] != 0x5C by {
        assert(path[i] == share[i - at - 1]);
    }
    if rest.len() > 0 {
        assert(path[end] == rest[0]);
    }
    components_end_at_backslashes(path, at + 1, end);
    assert(path.skip(end) =~= rest);
}

/// The prefix of a verbatim path to a server without a share reaches up to the
/// server.
pub proof fn server_belongs_to_the_prefix(server: Seq<u16>, rest: Seq<u16>)
    requires
        component(server),
        rest.len() == 0 || rest == seq![0x5Cu16] || rest.len() > 1 && rest[0] == 0x5C && rest[1]
            == 0x5C,
    ensures
        ({
            let head = seq![
                0x5Cu16,
                0x5Cu16,
                0x3Fu16,
                0x5Cu16,
                0x55u16,
                0x4Eu16,
                0x43u16,
                0x5Cu16,
            ];
            &&& prefix_len(head + server + rest) == 8 + server.len()
            &&& behind_prefix(head + server + rest) == rest
        }),
{
    let head = seq![
        0x5Cu16,
        0x5Cu16,
        0x3Fu16,
        0x5Cu16,
        0x55u16,
        0x4Eu16,
        0x43u16,
        0x5Cu16,
    ];
    let path = head + server + rest;
    let at = 8 + server.len() as int;
    assert forall|i: int| 8 <= i < at implies #[trigger] path[i] != 0x5C by {
        assert(path[i] == server[i - 8]);
    }
    if rest.len() > 0 {
        assert(path[at] == rest[0]);
    }
    components_end_at_backslashes(path, 8, at);
    if rest.len() > 1 {
        assert(path[at + 1] == rest[1]);
    }
    assert(path.skip(at) =~= rest);
}

/// The prefix of a verbatim path to a drive is six units long.
pub proof fn drive_belongs_to_the_prefix(drive: u16, rest: Seq<u16>)
    requires
        0x41 <= drive <= 0x5A || 0x61 <= drive <= 0x7A,
        rest.len() == 0 || rest[0] == 0x5C || rest[0] == 0x2F,
    ensures
        ({
            let head = seq![0x5Cu16, 0x5Cu16, 0x3Fu16, 0x5Cu16, drive, 0x3Au16];
            let path = head + rest;
            &&& prefix_len(path) == 6
            &&& rest.len() == 0 ==> behind_prefix(path) == rest
            &&& rest.len() > 0 ==> behind_prefix(path) == seq![0x5Cu16] + rest.skip(1)
        }),
{
    let head = seq![0x5Cu16, 0x5Cu16, 0x3Fu16, 0x5Cu16, drive, 0x3Au16];
    let path = head + rest;
    assert(path[4] == drive);
    assert(path[5] == 0x3A);
    assert(path.skip(4)[0] == drive);
    assert(path.skip(4)[1] == 0x3A);
    assert(!names_server(path));
    if rest.len() > 0 {
        assert(path[6] == rest[0]);
    }
    assert(path.skip(6) =~= rest);
    if rest.len() > 0 {
        assert(rest.update(0, BACKSLASH) =~= seq![0x5Cu16] + rest.skip(1));
        assert(rest[0] == 0x5C ==> rest =~= seq![0x5Cu16] + rest.skip(1));
    }
}

/// The prefix of any other verbatim path is its first component.
pub proof fn first_component_is_the_prefix(first: Seq<u16>, rest: Seq<u16>)
    requires
        component(first),
        ends_component(rest),
        !(first.len() == 3 && first[0] == 0x55 && first[1] == 0x4E && first[2] == 0x43 && rest.len()
            > 0),
        !(first.len() >= 2 && (0x41 <= first[0] <= 0x5A || 0x61 <= first[0] <= 0x7A) && first[1]
            == 0x3A && (first.len() == 2 || first[2] == 0x2F)),
    ensures
        ({
            let path = seq![0x5Cu16, 0x5Cu16, 0x3Fu16, 0x5Cu16] + first + rest;
            &&& prefix_len(path) == 4 + first.len()
            &&& behind_prefix(path) == rest
        }),
{
    let path = seq![0x5Cu16, 0x5Cu16, 0x3Fu16, 0x5Cu16] + first + rest;
    let end = 4 + first.len() as int;
    assert forall|i: int| 4 <= i < end implies #[trigger] path[i] != 0x5C by {
        assert(path[i] == first[i - 4]);
    }
    if rest.len() > 0 {
        assert(path[end] == rest[0]);
    }
    components_end_at_backslashes(path, 4, end);
    assert(!names_server(path)) by {
        if names_server(path) {
            assert(first.len() <= 3) by {
                if first.len() > 3 {
                    assert(path[7] == first[3]);
                }
            }
            assert(first.len() >= 3) by {
                if first.len() < 3 {
                    assert(path[end] == rest[0]);
                }
            }
            assert(path[4] == first[0] && path[5] == first[1] && path[6] == first[2]);
        }
    }
    assert(!names_drive(path)) by {
        if names_drive(path) {
            assert(path.skip(4)[0] == path[4]);
            assert(path.skip(4)[1] == path[5]);
            if first.len() >= 2 {
                assert(path[4] == first[0]);
                assert(path[5] == first[1]);
                if first.len() > 2 {
                    assert(path[6] == first[2]);
                }
            } else if first.len() == 1 {
                assert(path[5] == rest[0]);
            } else {
                assert(path[4] == rest[0]);
            }
        }
    }
    assert(path.skip(end) =~= rest);
}

/// Of the backslashes before a name one stays, and those at the end go; everything
/// else stays as it is.
pub proof fn separators_are_squeezed(n: nat, unit: u16, rest: Seq<u16>)
    ensures
        squeezed(Seq::new(n, |i: int| 0x5Cu16)) == Seq::<u16>::empty(),
        unit != 0x5C && n == 0 ==> squeezed(seq![unit] + rest) == seq![unit] + squeezed(rest),
        unit != 0x5C && n > 0 ==> squeezed(Seq::new(n, |i: int| 0x5Cu16) + seq![unit] + rest)
            == seq![0x5Cu16, unit] + squeezed(rest),
    decreases n,
{
    let run = Seq::new(n, |i: int| 0x5Cu16);
    let whole = run + seq![unit] + rest;
    assert((seq![unit] + rest).skip(1) =~= rest);
    if n > 0 {
        let fewer = Seq::new((n - 1) as nat, |i: int| 0x5Cu16);
        separators_are_squeezed((n - 1) as nat, unit, rest);
        assert(run.skip(1) =~= fewer);
        assert(whole.skip(1) =~= fewer + seq![unit] + rest);
        if n == 1 {
            assert(whole.skip(1) =~= seq![unit] + rest);
            assert(whole[1] == unit);
            assert(unit != 0x5C ==> squeezed(whole) =~= seq![0x5Cu16, unit] + squeezed(rest));
        } else {
            assert(whole[1] == 0x5C);
        }
    }
}

} // verus!

//! Environments of child processes.
//!
//! Windows compares the names of environment variables unit by unit after
//! upper-casing each by a table of its own. An environment block lists every
//! variable once, sorted by that comparison.

use vstd::prelude::*;

use crate::io_error::{IoError, IoErrorKind};
use crate::wide::{contains_nul, contains_unit, WideString};

verus! {

/// An equals sign.
pub const EQUALS: u16 = 0x3D;

/// How many code units there are.
pub const UNITS: usize = 65536;

/// The operating system's upper-casing of code units.
#[derive(Debug)]
pub struct CaseTable {
    upper: Vec<u16>,
}

/// The upper-casing of ASCII letters.
pub open spec fn ascii_upper(unit: u16) -> u16 {
    if 0x61 <= unit <= 0x7A {
        (unit - 0x20) as u16
    } else {
        unit
    }
}

impl CaseTable {
    /// The upper case of a code unit.
    pub closed spec fn upper_of(&self, unit: u16) -> u16 {
        self.upper@[unit as int]
    }

    /// The upper case of a name.
    pub open spec fn folded(&self, name: Seq<u16>) -> Seq<u16> {
        Seq::new(name.len(), |i: int| self.upper_of(name[i]))
    }

    #[verifier::type_invariant]
    spec fn inv(self) -> bool {
        self.upper@.len() == UNITS
    }

    /// The table that folds ASCII letters and leaves every other unit alone.
    pub fn ascii() -> (table: CaseTable)
        ensures
            forall|unit: u16| #[trigger] table.upper_of(unit) == ascii_upper(unit),
    {
        let mut upper: Vec<u16> = Vec::new();
        let mut i: usize = 0;
        while i < UNITS
            invariant
                i <= UNITS,
                upper@.len() == i,
                forall|j: int| 0 <= j < i ==> upper@[j] == ascii_upper(j as u16),
            decreases UNITS - i,
        {
            let unit: u16 = i as u16;
            upper.push(
                if 0x61 <= unit && unit <= 0x7A {
                    unit - 0x20
                } else {
                    unit
                },
            );
            i += 1;
        }
        CaseTable { upper }
    }

    /// The table in which each unit has the upper case at its own place, or
    /// `None` if `upper` does not list one for every unit.
    pub fn from_units(upper: Vec<u16>) -> (table: Option<CaseTable>)
        ensures
            table is Some <==> upper@.len() == UNITS,
            table is Some <==> upper@.len() == 0x10000,
            table is Some ==> forall|unit: u16| #[trigger]
                table->0.upper_of(unit) == upper@[unit as int],
    {
        if upper.len() == UNITS {
            Some(CaseTable { upper })
        } else {
            None
        }
    }

    /// Returns the upper case of a name.
    pub fn fold(&self, name: &[u16]) -> (folded: Vec<u16>)
        ensures
            folded@ == self.folded(name@),
    {
        proof {
            use_type_invariant(self);
        }
        let mut folded: Vec<u16> = Vec::new();
        let mut i: usize = 0;
        while i < name.len()
            invariant
                i <= name@.len(),
                self.upper@.len() == UNITS,
                folded@ == self.folded(name@).take(i as int),
            decreases name@.len() - i,
        {
            folded.push(self.upper[name[i] as usize]);
            i += 1;
            assert(folded@ =~= self.folded(name@).take(i as int));
        }
        assert(self.folded(name@).take(i as int) =~= self.folded(name@));
        folded
    }
}

/// Whether `a` sorts before `b`: at the first unit at which they differ, or by
/// being a proper prefix.
pub open spec fn sorts_before(a: Seq<u16>, b: Seq<u16>) -> bool
    decreases a.len(),
{
    if b.len() == 0 {
        false
    } else if a.len() == 0 {
        true
    } else if a[0] != b[0] {
        a[0] < b[0]
    } else {
        sorts_before(a.skip(1), b.skip(1))
    }
}

/// No name sorts before itself, and of two names that differ exactly one sorts
/// before the other.
pub proof fn names_are_totally_ordered(a: Seq<u16>, b: Seq<u16>)
    ensures
        !sorts_before(a, a),
        a != b ==> (sorts_before(a, b) <==> !sorts_before(b, a)),
        sorts_before(a, b) ==> a != b,
    decreases a.len(),
{
    if a.len() > 0 {
        names_are_totally_ordered(a.skip(1), b.skip(1));
        if b.len() > 0 && a[0] == b[0] {
            assert(a != b ==> a.skip(1) != b.skip(1)) by {
                if a.skip(1) == b.skip(1) {
                    assert(a =~= b) by {
                        assert(a.len() == b.len());
                        assert forall|i: int| 0 <= i < a.len() implies a[i] == b[i] by {
                            if i > 0 {
                                assert(a[i] == a.skip(1)[i - 1]);
                                assert(b[i] == b.skip(1)[i - 1]);
                            }
                        }
                    }
                }
            }
        }
    } else if b.len() == 0 {
        assert(a =~= b);
    }
}

/// The order of names is transitive.
pub proof fn name_order_is_transitive(a: Seq<u16>, b: Seq<u16>, c: Seq<u16>)
    requires
        sorts_before(a, b),
        sorts_before(b, c),
    ensures
        sorts_before(a, c),
    decreases a.len(),
{
    if a.len() > 0 && a[0] == b[0] && b[0] == c[0] {
        name_order_is_transitive(a.skip(1), b.skip(1), c.skip(1));
    }
}

/// How two names compare.
#[derive(Debug, Clone, Copy, PartialEq, Eq, Structural)]
pub enum NameOrder {
    /// The first sorts before the second.
    Before,
    /// They are the same name.
    Same,
    /// The first sorts after the second.
    After,
}

/// Compares two upper-cased names.
fn order_names(a: &[u16], b: &[u16]) -> (order: NameOrder)
    ensures
        order == NameOrder::Before <==> sorts_before(a@, b@),
        order == NameOrder::Same <==> a@ == b@,
        order == NameOrder::After <==> sorts_before(b@, a@),
{
    let mut i: usize = 0;
    assert(a@.skip(0) =~= a@);
    assert(b@.skip(0) =~= b@);
    proof {
        names_are_totally_ordered(a@, b@);
        names_are_totally_ordered(b@, a@);
    }
    while i < a.len() && i < b.len()
        invariant
            i <= a@.len(),
            i <= b@.len(),
            forall|j: int| 0 <= j < i ==> a@[j] == b@[j],
            sorts_before(a@, b@) == sorts_before(a@.skip(i as int), b@.skip(i as int)),
            sorts_before(b@, a@) == sorts_before(b@.skip(i as int), a@.skip(i as int)),
            sorts_before(a@, b@) ==> a@ != b@,
            sorts_before(b@, a@) ==> a@ != b@,
        decreases a@.len() - i,
    {
        let (x, y): (u16, u16) = (a[i], b[i]);
        assert(a@.skip(i as int)[0] == x);
        assert(b@.skip(i as int)[0] == y);
        assert(a@.skip(i as int).skip(1) =~= a@.skip(i + 1));
        assert(b@.skip(i as int).skip(1) =~= b@.skip(i + 1));
        if x < y {
            return NameOrder::Before;
        }
        if y < x {
            return NameOrder::After;
        }
        i += 1;
    }
    if i < b.len() {
        NameOrder::Before
    } else if i < a.len() {
        NameOrder::After
    } else {
        assert(a@ =~= b@);
        NameOrder::Same
    }
}

/// The name of an environment variable: its spelling, and its upper case, by
/// which it is compared.
#[derive(Debug)]
pub struct EnvKey {
    text: WideString,
    folded: Vec<u16>,
}

/// Why a name is no name of an environment variable.
pub open spec fn name_fault(name: Seq<u16>) -> Option<&'static str> {
    if name.len() == 0 {
        Some(EMPTY_NAME)
    } else if name.contains(0u16) {
        Some(NUL_IN_NAME)
    } else if name.contains(EQUALS) {
        Some(EQUALS_IN_NAME)
    } else {
        None
    }
}

/// Why an empty name is refused.
pub const EMPTY_NAME: &'static str = "environment variable name must not be empty";

/// Why a name with a zero unit is refused.
pub const NUL_IN_NAME: &'static str = "environment variable name contains an interior NUL";

/// Why a name with an equals sign is refused.
pub const EQUALS_IN_NAME: &'static str = "environment variable name must not contain `=`";

/// Why a value with a zero unit is refused.
pub const NUL_IN_VALUE: &'static str = "environment value contains an interior NUL";

/// Whether `err` refuses an input because of `fault`.
pub open spec fn invalid_input(err: IoError, fault: Seq<char>) -> bool {
    &&& err.kind == IoErrorKind::InvalidInput
    &&& err.code == None::<i32>
    &&& err.message@ == fault
    &&& err.inner == None::<Box<IoError>>
}

impl EnvKey {
    /// The spelling of the name.
    pub closed spec fn spec_text(&self) -> Seq<u16> {
        self.text@
    }

    /// The upper case of the name.
    pub closed spec fn spec_folded(&self) -> Seq<u16> {
        self.folded@
    }

    /// Takes a name as given.
    ///
    /// # Errors
    ///
    /// [`IoErrorKind::InvalidInput`] if and only if the name is empty or holds a
    /// zero unit or an equals sign.
    pub fn new(text: &WideString, table: &CaseTable) -> (key: Result<EnvKey, IoError>)
        ensures
            key is Err <==> name_fault(text@) is Some,
            key is Err ==> invalid_input(key->Err_0, name_fault(text@)->0@),
            key is Ok ==> {
                &&& key->Ok_0.spec_text() == text@
                &&& key->Ok_0.spec_folded() == table.folded(text@)
            },
    {
        let units = text.as_units();
        if units.len() == 0 {
            return Err(IoError::new(IoErrorKind::InvalidInput, EMPTY_NAME));
        }
        if contains_nul(units) {
            return Err(IoError::new(IoErrorKind::InvalidInput, NUL_IN_NAME));
        }
        if contains_unit(units, EQUALS) {
            return Err(IoError::new(IoErrorKind::InvalidInput, EQUALS_IN_NAME));
        }
        Ok(EnvKey::inherited(text, table))
    }

    /// Takes a name that the parent process has, which may start with an equals
    /// sign.
    pub fn inherited(text: &WideString, table: &CaseTable) -> (key: EnvKey)
        ensures
            key.spec_text() == text@,
            key.spec_folded() == table.folded(text@),
    {
        EnvKey { text: text.clone(), folded: table.fold(text.as_units()) }
    }

    /// Returns whether the name sorts before `other`.
    pub fn sorts_before(&self, other: &EnvKey) -> (before: bool)
        ensures
            before == sorts_before(self.spec_folded(), other.spec_folded()),
    {
        order_names(self.folded.as_slice(), other.folded.as_slice()) == NameOrder::Before
    }
}

impl PartialEq for EnvKey {
    fn eq(&self, other: &EnvKey) -> (same: bool) {
        order_names(self.folded.as_slice(), other.folded.as_slice()) == NameOrder::Same
    }
}

impl vstd::std_specs::cmp::PartialEqSpecImpl for EnvKey {
    open spec fn obeys_eq_spec() -> bool {
        true
    }

    open spec fn eq_spec(&self, other: &EnvKey) -> bool {
        self.spec_folded() == other.spec_folded()
    }
}

impl Eq for EnvKey {

}

/// One variable of an environment.
#[derive(Debug)]
pub struct EnvEntry {
    /// The name.
    pub key: EnvKey,
    /// The value.
    pub value: WideString,
}

impl EnvEntry {
    /// The upper case of the name.
    pub open spec fn folded(self) -> Seq<u16> {
        self.key.spec_folded()
    }

    /// The spelling of the name, and the value.
    pub open spec fn content(self) -> (Seq<u16>, Seq<u16>) {
        (self.key.spec_text(), self.value@)
    }
}

/// Variables by the upper case of their names, each with its spelling and value.
pub type Variables = Map<Seq<u16>, (Seq<u16>, Seq<u16>)>;

/// Whether every variable sorts before those after it.
pub open spec fn sorted(entries: Seq<EnvEntry>) -> bool {
    forall|i: int, j: int|
        0 <= i < j < entries.len() ==> sorts_before(
            (#[trigger] entries[i]).folded(),
            (#[trigger] entries[j]).folded(),
        )
}

/// Whether the variable with upper case `name` stands at `i`.
pub open spec fn stands_at(entries: Seq<EnvEntry>, name: Seq<u16>, i: int) -> bool {
    0 <= i < entries.len() && entries[i].folded() == name
}

/// The variables that `entries` list.
pub open spec fn variables(entries: Seq<EnvEntry>) -> Variables {
    Map::new(
        |name: Seq<u16>| exists|i: int| stands_at(entries, name, i),
        |name: Seq<u16>| entries[choose|i: int| stands_at(entries, name, i)].content(),
    )
}

/// The variables after one of them was set: an existing one keeps its spelling.
pub open spec fn after_set(
    vars: Variables,
    name: Seq<u16>,
    text: Seq<u16>,
    value: Seq<u16>,
) -> Variables {
    vars.insert(
        name,
        (
            if vars.contains_key(name) {
                vars[name].0
            } else {
                text
            },
            value,
        ),
    )
}

/// A sorted list has each name once, so what stands at a place is what the name
/// there means.
proof fn lemma_stands_at(entries: Seq<EnvEntry>, i: int)
    requires
        sorted(entries),
        0 <= i < entries.len(),
    ensures
        variables(entries).contains_key(entries[i].folded()),
        variables(entries)[entries[i].folded()] == entries[i].content(),
{
    let name = entries[i].folded();
    assert(stands_at(entries, name, i));
    let j = choose|j: int| stands_at(entries, name, j);
    if j != i {
        names_are_totally_ordered(entries[i].folded(), entries[j].folded());
    }
}

/// A sorted list and the variables that it lists are the same: what stands at a
/// place is what its name means, and every name stands somewhere.
pub proof fn every_variable_stands_somewhere(entries: Seq<EnvEntry>)
    requires
        sorted(entries),
    ensures
        forall|i: int|
            0 <= i < entries.len() ==> {
                &&& variables(entries).contains_key((#[trigger] entries[i]).folded())
                &&& variables(entries)[entries[i].folded()] == entries[i].content()
            },
        forall|name: Seq<u16>| #[trigger]
            variables(entries).contains_key(name) ==> exists|i: int| #[trigger]
                stands_at(entries, name, i) && entries[i].content() == variables(entries)[name],
{
    assert forall|i: int| 0 <= i < entries.len() implies {
        &&& variables(entries).contains_key((#[trigger] entries[i]).folded())
        &&& variables(entries)[entries[i].folded()] == entries[i].content()
    } by {
        lemma_stands_at(entries, i);
    }
    assert forall|name: Seq<u16>| #[trigger]
        variables(entries).contains_key(name) implies exists|i: int| #[trigger]
            stands_at(entries, name, i) && entries[i].content() == variables(entries)[name] by {
        let i = choose|i: int| stands_at(entries, name, i);
        lemma_stands_at(entries, i);
        assert(stands_at(entries, name, i));
    }
}

/// Sorted lists of the same variables are the same list.
pub proof fn sorted_variables_are_unique(a: Seq<EnvEntry>, b: Seq<EnvEntry>)
    requires
        sorted(a),
        sorted(b),
        variables(a) == variables(b),
    ensures
        a.len() == b.len(),
        forall|i: int| 0 <= i < a.len() ==> a[i].content() == b[i].content(),
    decreases a.len(),
{
    if a.len() == 0 {
        if b.len() > 0 {
            lemma_stands_at(b, 0);
            assert(!variables(a).contains_key(b[0].folded()));
        }
    } else {
        lemma_stands_at(a, 0);
        let k = choose|k: int| stands_at(b, a[0].folded(), k);
        assert(stands_at(b, a[0].folded(), k));
        lemma_stands_at(b, 0);
        let m = choose|m: int| stands_at(a, b[0].folded(), m);
        assert(stands_at(a, b[0].folded(), m));
        if k > 0 {
            assert(sorts_before(b[0].folded(), b[k].folded()));
            names_are_totally_ordered(b[0].folded(), a[0].folded());
            if m > 0 {
                assert(sorts_before(a[0].folded(), a[m].folded()));
            }
        }
        assert(a[0].folded() == b[0].folded());
        let (a1, b1) = (a.skip(1), b.skip(1));
        assert(sorted(a1)) by {
            assert forall|i: int, j: int| 0 <= i < j < a1.len() implies sorts_before(
                (#[trigger] a1[i]).folded(),
                (#[trigger] a1[j]).folded(),
            ) by {
                assert(sorts_before(a[i + 1].folded(), a[j + 1].folded()));
            }
        }
        assert(sorted(b1)) by {
            assert forall|i: int, j: int| 0 <= i < j < b1.len() implies sorts_before(
                (#[trigger] b1[i]).folded(),
                (#[trigger] b1[j]).folded(),
            ) by {
                assert(sorts_before(b[i + 1].folded(), b[j + 1].folded()));
            }
        }
        lemma_without_first(a);
        lemma_without_first(b);
        sorted_variables_are_unique(a1, b1);
        assert forall|i: int| 0 <= i < a.len() implies a[i].content() == b[i].content() by {
            if i > 0 {
                assert(a[i] == a1[i - 1]);
                assert(b[i] == b1[i - 1]);
            }
        }
    }
}

/// Without its first entry a sorted list lacks exactly that variable.
proof fn lemma_without_first(entries: Seq<EnvEntry>)
    requires
        sorted(entries),
        entries.len() > 0,
    ensures
        variables(entries.skip(1)) == variables(entries).remove(entries[0].folded()),
{
    let rest = entries.skip(1);
    assert(sorted(rest)) by {
        assert forall|i: int, j: int| 0 <= i < j < rest.len() implies sorts_before(
            (#[trigger] rest[i]).folded(),
            (#[trigger] rest[j]).folded(),
        ) by {
            assert(sorts_before(entries[i + 1].folded(), entries[j + 1].folded()));
        }
    }
    let want = variables(entries).remove(entries[0].folded());
    assert forall|name: Seq<u16>| #[trigger] variables(rest).contains_key(name)
        == want.contains_key(name) by {
        if variables(rest).contains_key(name) {
            let i = choose|i: int| stands_at(rest, name, i);
            assert(stands_at(entries, name, i + 1));
            assert(sorts_before(entries[0].folded(), entries[i + 1].folded()));
            names_are_totally_ordered(entries[0].folded(), entries[i + 1].folded());
        }
        if want.contains_key(name) {
            let i = choose|i: int| stands_at(entries, name, i);
            assert(stands_at(rest, name, i - 1));
        }
    }
    assert forall|name: Seq<u16>| variables(rest).contains_key(name) implies #[trigger] variables(
        rest,
    )[name] == want[name] by {
        let i = choose|i: int| stands_at(rest, name, i);
        assert(stands_at(rest, name, i));
        lemma_stands_at(rest, i);
        lemma_stands_at(entries, i + 1);
        assert(entries[i + 1] == rest[i]);
        assert(want.contains_key(name));
    }
    assert(variables(rest) =~= want);
}

/// An environment: each variable once, in the order of a block.
#[derive(Debug)]
pub struct Environment {
    entries: Vec<EnvEntry>,
}

impl Environment {
    /// The variables in order.
    pub closed spec fn spec_entries(&self) -> Seq<EnvEntry> {
        self.entries@
    }

    /// The variables by name.
    pub open spec fn spec_variables(&self) -> Variables {
        variables(self.spec_entries())
    }

    /// Whether the variables are in order.
    pub open spec fn wf(&self) -> bool {
        sorted(self.spec_entries())
    }

    /// Creates an environment without variables.
    pub fn new() -> (env: Environment)
        ensures
            env.wf(),
            env.spec_entries() == Seq::<EnvEntry>::empty(),
            env.spec_variables() == Variables::empty(),
    {
        let env = Environment { entries: Vec::new() };
        assert(env.spec_variables() =~= Variables::empty());
        env
    }

    /// Returns where the variable with the upper-cased name stands, or where it
    /// belongs, and whether it stands there.
    fn place(&self, name: &[u16]) -> (place: (usize, bool))
        requires
            self.wf(),
        ensures
            place.0 <= self.spec_entries().len(),
            place.1 ==> stands_at(self.spec_entries(), name@, place.0 as int),
            forall|i: int|
                0 <= i < place.0 ==> sorts_before(
                    (#[trigger] self.spec_entries()[i]).folded(),
                    name@,
                ),
            !place.1 ==> forall|i: int|
                place.0 <= i < self.spec_entries().len() ==> sorts_before(
                    name@,
                    (#[trigger] self.spec_entries()[i]).folded(),
                ),
    {
        let mut at: usize = 0;
        while at < self.entries.len()
            invariant
                self.wf(),
                at <= self.entries@.len(),
                forall|i: int|
                    0 <= i < at ==> sorts_before((#[trigger] self.entries@[i]).folded(), name@),
            decreases self.entries@.len() - at,
        {
            match order_names(self.entries[at].key.folded.as_slice(), name) {
                NameOrder::Before => {},
                NameOrder::Same => {
                    assert(stands_at(self.entries@, name@, at as int));
                    return (at, true);
                },
                NameOrder::After => {
                    proof {
                        assert forall|i: int| at <= i < self.entries@.len() implies sorts_before(
                            name@,
                            (#[trigger] self.entries@[i]).folded(),
                        ) by {
                            if i > at {
                                assert(sorts_before(
                                    self.entries@[at as int].folded(),
                                    self.entries@[i].folded(),
                                ));
                                name_order_is_transitive(
                                    name@,
                                    self.entries@[at as int].folded(),
                                    self.entries@[i].folded(),
                                );
                            }
                        }
                    }
                    return (at, false);
                },
            }
            at += 1;
        }
        (at, false)
    }

    /// Sets a variable. One that exists keeps its spelling.
    pub fn set(&mut self, key: EnvKey, value: WideString)
        requires
            old(self).wf(),
        ensures
            final(self).wf(),
            final(self).spec_variables() == after_set(
                old(self).spec_variables(),
                key.spec_folded(),
                key.spec_text(),
                value@,
            ),
    {
        let ghost before = self.entries@;
        let ghost name = key.spec_folded();
        let ghost text = key.spec_text();
        let (at, found): (usize, bool) = self.place(key.folded.as_slice());
        if found {
            let old_entry = self.entries.remove(at);
            let entry = EnvEntry { key: old_entry.key, value };
            self.entries.insert(at, entry);
            proof {
                assert(self.entries@ =~= before.update(at as int, entry));
                lemma_replaced(before, at as int, entry);
            }
        } else {
            let entry = EnvEntry { key, value };
            self.entries.insert(at, entry);
            proof {
                lemma_inserted(before, at as int, entry);
            }
        }
    }

    /// Removes a variable, if it exists.
    pub fn remove(&mut self, key: &EnvKey)
        requires
            old(self).wf(),
        ensures
            final(self).wf(),
            final(self).spec_variables() == old(self).spec_variables().remove(key.spec_folded()),
    {
        let ghost before = self.entries@;
        let ghost name = key.spec_folded();
        let (at, found): (usize, bool) = self.place(key.folded.as_slice());
        if found {
            self.entries.remove(at);
            proof {
                lemma_removed(before, at as int);
            }
        } else {
            proof {
                assert(!variables(before).contains_key(name)) by {
                    if variables(before).contains_key(name) {
                        let i = choose|i: int| stands_at(before, name, i);
                        names_are_totally_ordered(before[i].folded(), name);
                    }
                }
                assert(variables(before).remove(name) =~= variables(before));
            }
        }
    }

    /// Returns the value of a variable, if it exists.
    pub fn get(&self, key: &EnvKey) -> (value: Option<&WideString>)
        requires
            self.wf(),
        ensures
            value is Some <==> self.spec_variables().contains_key(key.spec_folded()),
            value is Some ==> value->0@ == self.spec_variables()[key.spec_folded()].1,
    {
        let (at, found): (usize, bool) = self.place(key.folded.as_slice());
        if found {
            proof {
                lemma_stands_at(self.spec_entries(), at as int);
            }
            Some(&self.entries[at].value)
        } else {
            proof {
                if self.spec_variables().contains_key(key.spec_folded()) {
                    let i = choose|i: int|
                        stands_at(self.spec_entries(), key.spec_folded(), i);
                    names_are_totally_ordered(
                        self.spec_entries()[i].folded(),
                        key.spec_folded(),
                    );
                }
            }
            None
        }
    }

    /// Returns the environment block: each variable as its spelling, an equals
    /// sign, its value and a zero unit, and a zero unit at the end; two zero
    /// units if there are no variables.
    pub fn to_block(&self) -> (block: Vec<u16>)
        ensures
            block@ == block_of(self.spec_entries()),
    {
        let mut block: Vec<u16> = Vec::new();
        let mut i: usize = 0;
        assert(self.entries@.skip(0) =~= self.entries@);
        while i < self.entries.len()
            invariant
                i <= self.entries@.len(),
                block@ + listed(self.entries@.skip(i as int)) == listed(self.entries@),
            decreases self.entries@.len() - i,
        {
            let ghost before = block@;
            let ghost rest = self.entries@.skip(i as int);
            let entry = &self.entries[i];
            assert(rest[0] == entry);
            assert(rest.skip(1) =~= self.entries@.skip(i + 1));
            block.extend_from_slice(entry.key.text.as_units());
            block.push(EQUALS);
            block.extend_from_slice(entry.value.as_units());
            block.push(0);
            assert(block@ =~= before + entry_units(rest[0]));
            assert(before + (entry_units(rest[0]) + listed(rest.skip(1))) =~= block@ + listed(
                rest.skip(1),
            ));
            i += 1;
        }
        assert(self.entries@.skip(i as int) =~= seq![]);
        assert(block@ =~= listed(self.entries@));
        if self.entries.len() == 0 {
            block.push(0);
        }
        block.push(0);
        assert(block@ =~= block_of(self.entries@));
        block
    }
}

/// How one variable is listed in a block.
pub open spec fn entry_units(entry: EnvEntry) -> Seq<u16> {
    entry.key.spec_text() + seq![EQUALS] + entry.value@ + seq![0u16]
}

/// How variables are listed in a block.
pub open spec fn listed(entries: Seq<EnvEntry>) -> Seq<u16>
    decreases entries.len(),
{
    if entries.len() == 0 {
        seq![]
    } else {
        entry_units(entries[0]) + listed(entries.skip(1))
    }
}

/// The block of an environment.
pub open spec fn block_of(entries: Seq<EnvEntry>) -> Seq<u16> {
    if entries.len() == 0 {
        seq![0u16, 0u16]
    } else {
        listed(entries) + seq![0u16]
    }
}

/// Replacing the value of a variable.
proof fn lemma_replaced(before: Seq<EnvEntry>, at: int, entry: EnvEntry)
    requires
        sorted(before),
        0 <= at < before.len(),
        entry.key == before[at].key,
    ensures
        sorted(before.update(at, entry)),
        variables(before.update(at, entry)) == variables(before).insert(
            before[at].folded(),
            (before[at].content().0, entry.value@),
        ),
        variables(before).contains_key(before[at].folded()),
        variables(before)[before[at].folded()] == before[at].content(),
{
    let after = before.update(at, entry);
    let name = before[at].folded();
    lemma_stands_at(before, at);
    assert(sorted(after)) by {
        assert forall|i: int, j: int| 0 <= i < j < after.len() implies sorts_before(
            (#[trigger] after[i]).folded(),
            (#[trigger] after[j]).folded(),
        ) by {
            assert(sorts_before(before[i].folded(), before[j].folded()));
        }
    }
    let want = variables(before).insert(name, (before[at].content().0, entry.value@));
    assert forall|k: Seq<u16>| #[trigger] variables(after).contains_key(k) == want.contains_key(
        k,
    ) by {
        if variables(after).contains_key(k) {
            let i = choose|i: int| stands_at(after, k, i);
            assert(stands_at(before, k, i));
        }
        if want.contains_key(k) {
            if k != name {
                let i = choose|i: int| stands_at(before, k, i);
                assert(stands_at(after, k, i));
            } else {
                assert(stands_at(after, k, at));
            }
        }
    }
    assert forall|k: Seq<u16>| variables(after).contains_key(k) implies #[trigger] variables(
        after,
    )[k] == want[k] by {
        let i = choose|i: int| stands_at(after, k, i);
        assert(stands_at(after, k, i));
        lemma_stands_at(after, i);
        lemma_stands_at(before, i);
        if i != at {
            if i < at {
                assert(sorts_before(before[i].folded(), before[at].folded()));
            } else {
                assert(sorts_before(before[at].folded(), before[i].folded()));
            }
            names_are_totally_ordered(before[i].folded(), before[at].folded());
        }
    }
    assert(variables(after) =~= want);
}

/// Inserting a variable where it belongs.
proof fn lemma_inserted(before: Seq<EnvEntry>, at: int, entry: EnvEntry)
    requires
        sorted(before),
        0 <= at <= before.len(),
        forall|i: int|
            0 <= i < at ==> sorts_before((#[trigger] before[i]).folded(), entry.folded()),
        forall|i: int|
            at <= i < before.len() ==> sorts_before(
                entry.folded(),
                (#[trigger] before[i]).folded(),
            ),
    ensures
        sorted(before.insert(at, entry)),
        !variables(before).contains_key(entry.folded()),
        variables(before.insert(at, entry)) == variables(before).insert(
            entry.folded(),
            entry.content(),
        ),
{
    let after = before.insert(at, entry);
    let name = entry.folded();
    assert(sorted(after)) by {
        assert forall|i: int, j: int| 0 <= i < j < after.len() implies sorts_before(
            (#[trigger] after[i]).folded(),
            (#[trigger] after[j]).folded(),
        ) by {
            let bi = if i < at { i } else { i - 1 };
            let bj = if j < at { j } else { j - 1 };
            if i != at && j != at {
                assert(after[i] == before[bi]);
                assert(after[j] == before[bj]);
                assert(sorts_before(before[bi].folded(), before[bj].folded()));
            } else if i == at {
                assert(after[j] == before[bj]);
            } else {
                assert(after[i] == before[bi]);
            }
        }
    }
    assert(!variables(before).contains_key(name)) by {
        if variables(before).contains_key(name) {
            let i = choose|i: int| stands_at(before, name, i);
            assert(stands_at(before, name, i));
            names_are_totally_ordered(before[i].folded(), name);
            names_are_totally_ordered(name, before[i].folded());
        }
    }
    let want = variables(before).insert(name, entry.content());
    assert forall|k: Seq<u16>| #[trigger] variables(after).contains_key(k) == want.contains_key(
        k,
    ) by {
        if variables(after).contains_key(k) {
            let i = choose|i: int| stands_at(after, k, i);
            if i < at {
                assert(stands_at(before, k, i));
            } else if i > at {
                assert(stands_at(before, k, i - 1));
            }
        }
        if want.contains_key(k) {
            if k != name {
                let i = choose|i: int| stands_at(before, k, i);
                if i < at {
                    assert(stands_at(after, k, i));
                } else {
                    assert(stands_at(after, k, i + 1));
                }
            } else {
                assert(stands_at(after, k, at));
            }
        }
    }
    assert forall|k: Seq<u16>| variables(after).contains_key(k) implies #[trigger] variables(
        after,
    )[k] == want[k] by {
        let i = choose|i: int| stands_at(after, k, i);
        assert(stands_at(after, k, i));
        lemma_stands_at(after, i);
        if i < at {
            assert(after[i] == before[i]);
            lemma_stands_at(before, i);
        } else if i > at {
            assert(after[i] == before[i - 1]);
            lemma_stands_at(before, i - 1);
        }
    }
    assert(variables(after) =~= want);
}

/// Removing a variable from where it stands.
proof fn lemma_removed(before: Seq<EnvEntry>, at: int)
    requires
        sorted(before),
        0 <= at < before.len(),
    ensures
        sorted(before.remove(at)),
        variables(before.remove(at)) == variables(before).remove(before[at].folded()),
{
    let after = before.remove(at);
    let name = before[at].folded();
    assert(sorted(after)) by {
        assert forall|i: int, j: int| 0 <= i < j < after.len() implies sorts_before(
            (#[trigger] after[i]).folded(),
            (#[trigger] after[j]).folded(),
        ) by {
            let bi = if i < at { i } else { i + 1 };
            let bj = if j < at { j } else { j + 1 };
            assert(after[i] == before[bi]);
            assert(after[j] == before[bj]);
            assert(sorts_before(before[bi].folded(), before[bj].folded()));
        }
    }
    let want = variables(before).remove(name);
    assert forall|k: Seq<u16>| #[trigger] variables(after).contains_key(k) == want.contains_key(
        k,
    ) by {
        if variables(after).contains_key(k) {
            let i = choose|i: int| stands_at(after, k, i);
            let bi = if i < at { i } else { i + 1 };
            assert(after[i] == before[bi]);
            assert(stands_at(before, k, bi));
            if bi < at {
                assert(sorts_before(before[bi].folded(), before[at].folded()));
            } else {
                assert(sorts_before(before[at].folded(), before[bi].folded()));
            }
            names_are_totally_ordered(before[bi].folded(), name);
            names_are_totally_ordered(name, before[bi].folded());
        }
        if want.contains_key(k) {
            let i = choose|i: int| stands_at(before, k, i);
            if i < at {
                assert(stands_at(after, k, i));
            } else {
                assert(stands_at(after, k, i - 1));
            }
        }
    }
    assert forall|k: Seq<u16>| variables(after).contains_key(k) implies #[trigger] variables(
        after,
    )[k] == want[k] by {
        let i = choose|i: int| stands_at(after, k, i);
        assert(stands_at(after, k, i));
        let bi = if i < at { i } else { i + 1 };
        assert(after[i] == before[bi]);
        lemma_stands_at(after, i);
        lemma_stands_at(before, bi);
        assert(want.contains_key(k));
    }
    assert(variables(after) =~= want);
}

/// Where `unit` stands first in `units`, or their length.
pub open spec fn first_index(units: Seq<u16>, unit: u16) -> int
    decreases units.len(),
{
    if units.len() == 0 || units[0] == unit {
        0
    } else {
        1 + first_index(units.skip(1), unit)
    }
}

/// The variables that a process reads off a block: entries up to a zero unit,
/// each a name and a value, which the first equals sign behind the first unit
/// separates; an empty entry ends the block.
pub open spec fn read_block(block: Seq<u16>) -> Seq<(Seq<u16>, Seq<u16>)>
    decreases block.len(),
{
    let end = first_index(block, 0);
    if block.len() == 0 || end <= 0 || end >= block.len() {
        seq![]
    } else {
        let entry = block.take(end);
        let equals = 1 + first_index(entry.skip(1), EQUALS);
        seq![(entry.take(equals), entry.skip(equals + 1))] + read_block(block.skip(end + 1))
    }
}

/// Whether a variable with this spelling and value can be told apart in a block.
pub open spec fn readable_variable(content: (Seq<u16>, Seq<u16>)) -> bool {
    let (name, value) = content;
    &&& name.len() > 0
    &&& !name.contains(0u16)
    &&& !name.skip(1).contains(EQUALS)
    &&& !value.contains(0u16)
}

proof fn lemma_first_index(front: Seq<u16>, unit: u16, back: Seq<u16>)
    requires
        !front.contains(unit),
    ensures
        first_index(front + seq![unit] + back, unit) == front.len(),
    decreases front.len(),
{
    let whole = front + seq![unit] + back;
    if front.len() > 0 {
        assert(front.contains(front[0]));
        assert forall|u: u16| front.skip(1).contains(u) implies front.contains(u) by {
            let i = choose|i: int| 0 <= i < front.skip(1).len() && front.skip(1)[i] == u;
            assert(front[i + 1] == u);
        }
        lemma_first_index(front.skip(1), unit, back);
        assert(whole[0] == front[0]);
        assert(whole.skip(1) =~= front.skip(1) + seq![unit] + back);
    } else {
        assert(whole[0] == unit);
    }
}

/// A process reads the variables of its environment block back exactly: every
/// one of them, with its spelling and value, in order, and no other.
pub proof fn block_reads_back(entries: Seq<EnvEntry>)
    requires
        forall|i: int| 0 <= i < entries.len() ==> readable_variable((#[trigger] entries[i]).content()),
    ensures
        read_block(block_of(entries)) == Seq::new(
            entries.len(),
            |i: int| entries[i].content(),
        ),
{
    if entries.len() == 0 {
        assert(block_of(entries)[0] == 0);
        assert(read_block(block_of(entries)) =~= Seq::new(
            entries.len(),
            |i: int| entries[i].content(),
        ));
    } else {
        lemma_listed_reads_back(entries);
    }
}

proof fn lemma_listed_reads_back(entries: Seq<EnvEntry>)
    requires
        forall|i: int| 0 <= i < entries.len() ==> readable_variable((#[trigger] entries[i]).content()),
    ensures
        read_block(listed(entries) + seq![0u16]) == Seq::new(
            entries.len(),
            |i: int| entries[i].content(),
        ),
    decreases entries.len(),
{
    let block = listed(entries) + seq![0u16];
    let want = Seq::new(entries.len(), |i: int| entries[i].content());
    if entries.len() == 0 {
        assert(block[0] == 0);
        assert(read_block(block) =~= want);
    } else {
        let first = entries[0];
        let name = first.key.spec_text();
        let value = first.value@;
        let rest = entries.skip(1);
        let entry = name + seq![EQUALS] + value;
        let tail = listed(rest) + seq![0u16];
        assert forall|i: int| 0 <= i < rest.len() implies readable_variable((#[trigger] rest[i]).content()) by {
            assert(rest[i] == entries[i + 1]);
        }
        lemma_listed_reads_back(rest);
        assert(readable_variable(first.content()));
        assert(block =~= entry + seq![0u16] + tail);
        assert(!entry.contains(0u16)) by {
            if entry.contains(0u16) {
                let i = choose|i: int| 0 <= i < entry.len() && entry[i] == 0;
                if i < name.len() {
                    assert(name[i] == 0);
                } else if i > name.len() {
                    assert(value[i - name.len() - 1] == 0);
                }
            }
        }
        lemma_first_index(entry, 0, tail);
        assert(block.take(entry.len() as int) =~= entry);
        assert(block.skip(entry.len() as int + 1) =~= tail);
        assert(entry.skip(1) =~= name.skip(1) + seq![EQUALS] + value);
        lemma_first_index(name.skip(1), EQUALS, value);
        assert(entry.take(name.len() as int) =~= name);
        assert(entry.skip(name.len() as int + 1) =~= value);
        assert(read_block(block) =~= want) by {
            assert(read_block(block) == seq![(name, value)] + read_block(tail));
            assert forall|i: int| 0 < i < want.len() implies want[i] == read_block(tail)[i
                - 1] by {
                assert(rest[i - 1] == entries[i]);
            }
        }
    }
}

/// Names sort by the first unit at which they differ, the smaller one first, and a
/// name sorts before every longer one that begins with it.
pub proof fn names_sort_at_their_first_difference(
    front: Seq<u16>,
    x: u16,
    y: u16,
    a: Seq<u16>,
    b: Seq<u16>,
)
    ensures
        x != y ==> (sorts_before(front + seq![x] + a, front + seq![y] + b) <==> x < y),
        sorts_before(front, front + seq![x] + a),
        !sorts_before(front + seq![x] + a, front),
        !sorts_before(front, front),
    decreases front.len(),
{
    let left = front + seq![x] + a;
    let right = front + seq![y] + b;
    if front.len() == 0 {
        assert(left[0] == x);
        assert(right[0] == y);
    } else {
        let rest = front.skip(1);
        names_sort_at_their_first_difference(rest, x, y, a, b);
        assert(left[0] == front[0]);
        assert(right[0] == front[0]);
        assert(left.skip(1) =~= rest + seq![x] + a);
        assert(right.skip(1) =~= rest + seq![y] + b);
    }
}

/// A name is upper-cased unit by unit, and keeps its length.
pub proof fn names_are_folded_unit_by_unit(table: &CaseTable, a: Seq<u16>, b: Seq<u16>, unit: u16)
    ensures
        table.folded(a + b) == table.folded(a) + table.folded(b),
        table.folded(seq![unit]) == seq![table.upper_of(unit)],
        table.folded(a).len() == a.len(),
{
    assert(table.folded(a + b) =~= table.folded(a) + table.folded(b));
    assert(table.folded(seq![unit]) =~= seq![table.upper_of(unit)]);
}

/// ASCII upper-casing takes each of the letters `a` to `z` to its capital, and
/// leaves everything else alone.
pub proof fn ascii_letters_have_capitals(unit: u16, letter: nat)
    ensures
        letter < 26 ==> ascii_upper((0x61 + letter) as u16) == 0x41 + letter,
        unit < 0x61 || unit > 0x7A ==> ascii_upper(unit) == unit,
        ascii_upper(ascii_upper(unit)) == ascii_upper(unit),
{
}

/// A name is accepted exactly where it is not empty and holds neither a zero unit
/// nor an equals sign, and is refused with the first of these that it breaks.
pub proof fn names_are_refused_for_what_they_hold(name: Seq<u16>)
    ensures
        name_fault(name) is None <==> name.len() > 0 && !name.contains(0u16) && !name.contains(
            0x3Du16,
        ),
        name.len() == 0 ==> name_fault(name)->0@ == "environment variable name must not be empty"@,
        name.len() > 0 && name.contains(0u16) ==> name_fault(name)->0@
            == "environment variable name contains an interior NUL"@,
        name.len() > 0 && !name.contains(0u16) && name.contains(0x3Du16) ==> name_fault(name)->0@
            == "environment variable name must not contain `=`"@,
{
}

/// Setting a variable gives it that value, leaves every other one as it was, and
/// keeps the spelling of one that was there.
pub proof fn setting_changes_one_variable(
    vars: Variables,
    name: Seq<u16>,
    text: Seq<u16>,
    value: Seq<u16>,
    other: Seq<u16>,
)
    ensures
        ({
            let after = after_set(vars, name, text, value);
            &&& after.contains_key(name)
            &&& after[name].1 == value
            &&& vars.contains_key(name) ==> after[name].0 == vars[name].0
            &&& !vars.contains_key(name) ==> after[name].0 == text
            &&& other != name ==> after.contains_key(other) == vars.contains_key(other)
            &&& other != name && vars.contains_key(other) ==> after[other] == vars[other]
        }),
{
}

/// A block lists its variables one after the other, each as a name, an equals
/// sign, a value and a zero unit, and ends in a further zero unit. A block without
/// variables is two zero units.
pub proof fn block_lists_every_variable(a: Seq<EnvEntry>, b: Seq<EnvEntry>, entry: EnvEntry)
    ensures
        block_of(Seq::<EnvEntry>::empty()) == seq![0u16, 0u16],
        listed(Seq::<EnvEntry>::empty()) == Seq::<u16>::empty(),
        listed(seq![entry]) == entry.key.spec_text() + seq![0x3Du16] + entry.value@ + seq![0u16],
        listed(a + b) == listed(a) + listed(b),
        a.len() > 0 ==> block_of(a) == listed(a) + seq![0u16],
    decreases a.len(),
{
    let one = seq![entry];
    assert(one.skip(1) =~= Seq::<EnvEntry>::empty());
    assert(listed(one.skip(1)) =~= Seq::<u16>::empty());
    assert(listed(one) =~= entry_units(one[0]) + listed(one.skip(1)));
    if a.len() == 0 {
        assert(a + b =~= b);
        assert(listed(a) + listed(b) =~= listed(b));
    } else {
        let rest = a.skip(1);
        block_lists_every_variable(rest, b, entry);
        assert((a + b).skip(1) =~= rest + b);
        assert((a + b)[0] == a[0]);
        assert(entry_units(a[0]) + (listed(rest) + listed(b)) =~= listed(a) + listed(b));
    }
}

/// The variables of a sorted list are the ones that stand in it: each name means
/// what stands at its place, and no other name means anything.
pub proof fn variables_are_what_is_listed(entries: Seq<EnvEntry>, i: int, name: Seq<u16>)
    requires
        sorted(entries),
    ensures
        0 <= i < entries.len() ==> {
            &&& variables(entries).contains_key(entries[i].key.spec_folded())
            &&& variables(entries)[entries[i].key.spec_folded()] == (
                entries[i].key.spec_text(),
                entries[i].value@,
            )
        },
        (forall|j: int| 0 <= j < entries.len() ==> (#[trigger] entries[j]).key.spec_folded() != name)
            ==> !variables(entries).contains_key(name),
{
    if 0 <= i < entries.len() {
        lemma_stands_at(entries, i);
    }
}

/// What refuses an input names the fault, as an invalid input of no other cause.
pub proof fn refusals_name_the_fault(err: IoError, fault: Seq<char>)
    requires
        invalid_input(err, fault),
    ensures
        err.kind == IoErrorKind::InvalidInput,
        err.code is None,
        err.message@ == fault,
        err.inner is None,
{
}

/// Two names are the same variable exactly where their upper cases are the same,
/// however they are spelled.
pub proof fn names_are_the_same_by_their_upper_case(a: &EnvKey, b: &EnvKey)
    ensures
        vstd::std_specs::cmp::PartialEqSpec::eq_spec(a, b) <==> a.spec_folded() =~= b.spec_folded(),
{
}

/// A list is in order exactly where of any two variables the one in front sorts
/// before the other, so that none is listed twice.
pub proof fn sorted_lists_hold_each_name_once(entries: Seq<EnvEntry>, i: int, j: int)
    requires
        sorted(entries),
        0 <= i < j < entries.len(),
    ensures
        sorts_before(entries[i].key.spec_folded(), entries[j].key.spec_folded()),
        entries[i].key.spec_folded() != entries[j].key.spec_folded(),
{
    assert(sorts_before(entries[i].folded(), entries[j].folded()));
    names_are_totally_ordered(entries[i].folded(), entries[j].folded());
}

} // verus!

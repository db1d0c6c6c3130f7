//! What the library has to report beside its results.
//!
//! A [`LogRecord`] is one diagnostic event. The rules that find something worth
//! reporting append a record; emitting it is left to whoever runs them.

use vstd::prelude::*;
use vstd::string::*;

verus! {

/// How serious a record is.
#[derive(Debug, Clone, Copy, PartialEq, Eq, Structural)]
pub enum LogLevel {
    /// The library went on in another way.
    Warn,
    /// Something was given up.
    Error,
}

/// One circumstance of a diagnostic event.
#[derive(Debug)]
pub struct LogField {
    /// What it is.
    pub name: &'static str,
    /// Its text.
    pub value: String,
}

/// One diagnostic event.
#[derive(Debug)]
pub struct LogRecord {
    /// How serious it is.
    pub level: LogLevel,
    /// What happened.
    pub message: &'static str,
    /// The circumstances.
    pub fields: Vec<LogField>,
}

impl LogRecord {
    /// The circumstances as names and texts.
    pub open spec fn spec_fields(self) -> Seq<(Seq<char>, Seq<char>)> {
        self.fields@.map_values(|field: LogField| (field.name@, field.value@))
    }

    /// Whether the record says `message` at `level` with the circumstances
    /// `fields`.
    pub open spec fn says(
        self,
        level: LogLevel,
        message: &'static str,
        fields: Seq<(Seq<char>, Seq<char>)>,
    ) -> bool {
        self.level == level && self.message == message && self.spec_fields() == fields
    }

    /// Creates a record without circumstances.
    pub fn new(level: LogLevel, message: &'static str) -> (record: LogRecord)
        ensures
            record.says(level, message, seq![]),
    {
        let record = LogRecord { level, message, fields: Vec::new() };
        assert(record.spec_fields() =~= seq![]);
        record
    }

    /// Adds a circumstance.
    pub fn with(self, name: &'static str, value: &str) -> (record: LogRecord)
        ensures
            record.says(self.level, self.message, self.spec_fields().push((name@, value@))),
    {
        let mut fields = self.fields;
        fields.push(LogField { name, value: String::from_str(value) });
        let record = LogRecord { level: self.level, message: self.message, fields };
        assert(record.spec_fields() =~= self.spec_fields().push((name@, value@)));
        record
    }
}

/// Whether `after` is `before` with one record appended that says `message` at
/// `level` with the circumstances `fields`.
pub open spec fn appended(
    before: Seq<LogRecord>,
    after: Seq<LogRecord>,
    level: LogLevel,
    message: &'static str,
    fields: Seq<(Seq<char>, Seq<char>)>,
) -> bool {
    &&& after.len() == before.len() + 1
    &&& after.drop_last() == before
    &&& after.last().says(level, message, fields)
}

/// Appends one record to `log`.
pub fn report(log: &mut Vec<LogRecord>, record: LogRecord)
    ensures
        appended(
            old(log)@,
            final(log)@,
            record.level,
            record.message,
            record.spec_fields(),
        ),
{
    log.push(record);
    assert(log@.drop_last() =~= old(log)@);
}

/// What a record says is its level, its message and its fields, in order.
pub proof fn records_say_what_they_hold(
    record: LogRecord,
    level: LogLevel,
    message: &'static str,
    fields: Seq<(Seq<char>, Seq<char>)>,
    i: int,
)
    requires
        record.says(level, message, fields),
    ensures
        record.level == level,
        record.message == message,
        record.fields@.len() == fields.len(),
        0 <= i < fields.len() ==> record.fields@[i].name@ == fields[i].0 && record.fields@[i].value@
            == fields[i].1,
{
    if 0 <= i < fields.len() {
        assert(record.spec_fields()[i] == fields[i]);
    }
}

/// Appending a record keeps those before it, and adds one that says what was
/// reported.
pub proof fn appended_records_come_last(
    before: Seq<LogRecord>,
    after: Seq<LogRecord>,
    level: LogLevel,
    message: &'static str,
    fields: Seq<(Seq<char>, Seq<char>)>,
)
    requires
        appended(before, after, level, message, fields),
    ensures
        after == before.push(after.last()),
        after.last().says(level, message, fields),
{
    assert(after =~= before.push(after.last()));
}

} // verus!

//! The log record as this core sees it: a severity level, a target name,
//! a pre-formatted message, and the attached key/value pairs in order,
//! every value already in its display form.

use vstd::prelude::*;

use crate::level::Level;

verus! {

/// One log record, produced by the facade and consumed once.
pub struct Record {
    /// Severity of the record.
    pub level: Level,
    /// Namespaced source identifier, e.g. `module::submodule`.
    pub target: String,
    /// The formatted message text.
    pub message: String,
    /// Attached key/value pairs, in the order they were attached.
    pub key_values: Vec<(String, String)>,
}

/// Views of a sequence of key/value pairs: each string as its characters.
pub open spec fn kv_views(kvs: Seq<(String, String)>) -> Seq<(Seq<char>, Seq<char>)> {
    kvs.map_values(|p: (String, String)| (p.0@, p.1@))
}

/// Mathematical view of a [`Record`]: strings as character sequences.
pub struct RecordView {
    pub level: Level,
    pub target: Seq<char>,
    pub message: Seq<char>,
    pub key_values: Seq<(Seq<char>, Seq<char>)>,
}

impl View for Record {
    type V = RecordView;

    open spec fn view(&self) -> RecordView {
        RecordView {
            level: self.level,
            target: self.target@,
            message: self.message@,
            key_values: kv_views(self.key_values@),
        }
    }
}

} // verus!

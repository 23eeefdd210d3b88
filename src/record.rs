use vstd::prelude::*;
use crate::level::Level;

verus! {

/// One log record: its level, the rendered message, the module it came from,
/// and where in the source it was made, when known.
#[derive(Clone, Debug)]
pub struct Record {
    pub level: Level,
    pub message: String,
    pub target: String,
    pub file: Option<String>,
    pub line: Option<u32>,
}

impl Record {
    /// A record with no source location.
    pub fn new(level: Level, message: String, target: String) -> (r: Record)
        ensures
            r.level == level,
            r.message@ == message@,
            r.target@ == target@,
            r.file is None,
            r.line is None,
    {
        Record { level, message, target, file: None, line: None }
    }

    /// The same record, located at `file` and `line`.
    pub fn at(self, file: String, line: u32) -> (r: Record)
        ensures
            r.level == self.level,
            r.message@ == self.message@,
            r.target@ == self.target@,
            r.file matches Some(f) && f@ == file@,
            r.line == Some(line),
    {
        Record { file: Some(file), line: Some(line), ..self }
    }
}

} // verus!

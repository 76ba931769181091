//! Properties of the file behind a document; today just its newline
//! convention.

use vstd::prelude::*;

use crate::buffer::LineEnding;

verus! {

/// Per-file conventions that outlive a single edit.
#[derive(Debug, Clone)]
pub struct FileProps {
    line_ending: String,
}

impl FileProps {
    /// The newline characters this file uses.
    pub closed spec fn spec_line_ending(self) -> Seq<char> {
        self.line_ending@
    }

    /// Properties for a host whose newline convention is `le`.
    pub fn new(le: LineEnding) -> (p: FileProps)
        ensures
            p.spec_line_ending() == le.spec_str(),
    {
        let s = le.as_str();
        FileProps { line_ending: <String as vstd::string::StringExecFns>::from_str(s) }
    }

    /// The newline sequence as an owned string.
    pub fn line_ending(&self) -> (s: String)
        ensures
            s@ == self.spec_line_ending(),
    {
        self.line_ending.clone()
    }
}

} // verus!

use vstd::prelude::*;

verus! {

/// A code position: the file and line where something was declared.
#[derive(Copy, Clone, Debug)]
pub struct LinePosition {
    pub file: &'static str,
    pub line: u32,
}

impl LinePosition {
    /// Make a new line position.
    pub fn new(file: &'static str, line: u32) -> (res: Self)
        ensures
            res.file@ == file@,
            res.line == line,
    {
        Self { file, line }
    }
}

} // verus!

use vstd::prelude::*;

verus! {

/// A failure of the task store, kept structured inside the library and
/// flattened to text only at the command boundary.
#[derive(Debug)]
pub enum TaskError {
    /// The store could not be opened or reached.
    Connection(String),
    /// A single operation on the store failed.
    Query(String),
}

impl TaskError {
    /// The opaque text handed to a caller of a command.
    pub fn message(&self) -> (r: String)
        ensures
            r@ == self.message_spec(),
    {
        match self {
            TaskError::Connection(m) => m.clone(),
            TaskError::Query(m) => m.clone(),
        }
    }

    pub open spec fn message_spec(&self) -> Seq<char> {
        match self {
            TaskError::Connection(m) => m@,
            TaskError::Query(m) => m@,
        }
    }
}

} // verus!

//! How an assignment describes itself to the encoder.

use crate::error::Error;
use crate::ser::{agrees, WriteStarlark};
use crate::value::emit_assignment;
use crate::Assignment;
use vstd::prelude::*;

verus! {

impl Assignment {
    /// Encodes this assignment into `write`: the identifier, ` = `, the
    /// value. It spells itself as a container with positional fields under
    /// the reserved name `=`.
    pub fn serialize(&self, write: &mut WriteStarlark) -> (r: Result<(), Error>)
        requires
            self.value.valid(),
            old(write)@.room(1 + self.value.size()),
        ensures
            agrees(r, final(write)@, emit_assignment(*self, old(write)@)),
            r is Ok ==> final(write)@.depth == old(write)@.depth,
        decreases self.value, 2nat,
    {
        let mut assignment = write.serialize_tuple_struct("=", 0)?;
        assignment.serialize_text(write, self.identifier.as_str());
        assignment.serialize_field(write, &self.value)?;
        assignment.end(write)
    }
}

} // verus!

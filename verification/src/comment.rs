//! How a commented value describes itself to the encoder.

use crate::error::Error;
use crate::ser::{agrees, WriteStarlark};
use crate::value::emit_line_comment;
use crate::LineComment;
use vstd::prelude::*;

verus! {

impl LineComment {
    /// Encodes this commented value into `write`: the value, with the
    /// comment waiting for the end of the line that the value starts on. It
    /// spells itself as a container with positional fields under the
    /// reserved name `#`.
    pub fn serialize(&self, write: &mut WriteStarlark) -> (r: Result<(), Error>)
        requires
            self.value.valid(),
            old(write)@.room(1 + self.value.size()),
        ensures
            agrees(r, final(write)@, emit_line_comment(*self, old(write)@)),
            r is Ok ==> final(write)@.depth == old(write)@.depth,
        decreases self.value, 2nat,
    {
        let mut comment = write.serialize_tuple_struct("#", 2)?;
        comment.serialize_text(write, self.comment.as_str());
        comment.serialize_field(write, &self.value)?;
        comment.end(write)
    }
}

} // verus!

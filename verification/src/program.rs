//! Programs: an ordered main block plus ordered, uniquely identified
//! function blocks.
//!
//! The same shape carries both IR programs (blocks of [`crate::lir::Node`])
//! and target programs (blocks of [`crate::target::Instruction`]). Function
//! blocks are kept in insertion order, so every walk over a program is
//! stable and program-defined, never dependent on an incidental iteration
//! order.

use vstd::prelude::*;

verus! {

/// An ordered main block plus function blocks, each named by an identifier
/// that is unique within the program (see [`Program::wf`]).
#[derive(Debug, Clone, PartialEq)]
pub struct Program<T> {
    /// The entry block.
    pub main: Vec<T>,
    /// The function blocks, in insertion order, each paired with its
    /// identifier.
    pub functions: Vec<(u64, Vec<T>)>,
}

/// Find the first function block bound to `id`, if any.
fn find_function_index<T>(functions: &Vec<(u64, Vec<T>)>, id: u64) -> (r: Option<usize>)
    ensures
        (match r {
            Some(i) => {
                &&& i < functions@.len()
                &&& functions@[i as int].0 == id
                &&& forall|j: int| 0 <= j < i ==> functions@[j].0 != id
            },
            None => forall|j: int| 0 <= j < functions@.len() ==> functions@[j].0 != id,
        }),
{
    let mut k: usize = 0;
    while k < functions.len()
        invariant
            k <= functions@.len(),
            forall|j: int| 0 <= j < k ==> functions@[j].0 != id,
        decreases functions@.len() - k,
    {
        if functions[k].0 == id {
            return Some(k);
        }
        k = k + 1;
    }
    None
}

impl<T> Program<T> {
    /// Function identifiers are unique within a program.
    pub open spec fn wf(&self) -> bool {
        forall|i: int, j: int|
            0 <= i < j < self.functions@.len() ==> (#[trigger] self.functions@[i]).0 != (
            #[trigger] self.functions@[j]).0
    }

    /// Whether some function block is bound to `id`.
    pub open spec fn spec_has_function(&self, id: u64) -> bool {
        exists|i: int| 0 <= i < self.functions@.len() && (#[trigger] self.functions@[i]).0 == id
    }

    /// An empty program: no main instructions and no functions.
    pub fn new() -> (p: Program<T>)
        ensures
            p.main@ == Seq::<T>::empty(),
            p.functions@ == Seq::<(u64, Vec<T>)>::empty(),
            p.wf(),
    {
        Program { main: Vec::new(), functions: Vec::new() }
    }

    /// Replace the main block.
    pub fn set_main(&mut self, code: Vec<T>)
        ensures
            final(self).main == code,
            final(self).functions == old(self).functions,
    {
        self.main = code;
    }

    /// Bind `id` to `code`: replace the first block already bound to `id`,
    /// in place, or append a new block. Insertion order of the other blocks
    /// is untouched, and unique identifiers stay unique.
    pub fn set_function(&mut self, id: u64, code: Vec<T>)
        ensures
            final(self).main == old(self).main,
            !old(self).spec_has_function(id) ==> final(self).functions@ == old(
                self,
            ).functions@.push((id, code)),
            forall|i: int|
                (0 <= i < old(self).functions@.len() && (#[trigger] old(self).functions@[i]).0
                    == id && (forall|j: int| 0 <= j < i ==> old(self).functions@[j].0 != id))
                    ==> final(self).functions@ == old(self).functions@.update(i, (id, code)),
            final(self).spec_has_function(id),
            old(self).wf() ==> final(self).wf(),
    {
        match find_function_index(&self.functions, id) {
            Some(i) => {
                self.functions[i] = (id, code);
                assert(self.functions@[i as int].0 == id);
            },
            None => {
                self.functions.push((id, code));
                assert(self.functions@[self.functions@.len() - 1].0 == id);
            },
        }
    }
}

} // verus!

//! What every builder does at the end.

use vstd::prelude::*;

verus! {

/// A builder that can be turned into the piece it was building.
pub trait BuilderGenerate: Sized {
    type Output;

    /// Whether everything that the piece needs has been given.
    spec fn ready(&self) -> bool;

    /// The piece that this builder stands for.
    spec fn converted(self) -> Self::Output;

    fn convert(self) -> (output: Self::Output)
        requires
            self.ready(),
        ensures
            output == self.converted(),
    ;
}

} // verus!

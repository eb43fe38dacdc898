use vstd::prelude::*;

verus! {

/// The semantic role under which a fragment of a listing is painted.
/// Which color a role stands for is decided by the palette of the caller.
#[derive(Clone, Copy, Debug, PartialEq, Eq, Structural)]
pub enum Elem {
    User,
    Group,
    FileSmall,
    FileMedium,
    FileLarge,
}

/// A rendered fragment: its text, and the role whose color it is painted in.
pub struct Colored {
    pub elem: Elem,
    pub text: String,
}

} // verus!

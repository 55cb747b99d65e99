use vstd::prelude::*;

verus! {

/// What a walk over the syntax tree calls back.
pub trait ASTVisitor {
}

/// Walks the syntax tree, calling back a visitor.
pub struct ASTWalker<T: ASTVisitor> {
    pub visitor: T,
}

impl<T: ASTVisitor> ASTWalker<T> {
    /// A walker that calls back `visitor`.
    pub fn new(visitor: T) -> (r: Self)
        ensures
            r.visitor == visitor,
    {
        ASTWalker { visitor }
    }
}

} // verus!

//! Disassembling a composite into the sequence of parts it is made of.
//!
//! [`DisassembleFrom`] is implemented by a part type and says how a composite
//! is taken apart. [`DisassembleInto`] is the same operation seen from the
//! composite; it is implemented once and for all below, by forwarding.
//!
//! A disassembly takes the composite by value and hands back a new sequence,
//! so there is nothing that it could leave half changed. A composite is one
//! whole value: there is no such thing as too little of it, and a failure is
//! always an error in what it holds.

use vstd::prelude::*;

verus! {

/// What a disassembly hands back, with the parts as a sequence.
pub open spec fn parts_of<P, E>(result: Result<Vec<P>, E>) -> Result<Seq<P>, E> {
    match result {
        Ok(parts) => Ok(parts@),
        Err(error) => Err(error),
    }
}

/// Disassembles a `C` into a sequence of `Self`s.
pub trait DisassembleFrom<C> where Self: Sized {
    /// Describes an error that prevents disassembly.
    type Error;

    /// What disassembling `composite` yields: its parts, in the order in
    /// which they would be assembled again, or the error.
    ///
    /// A verified implementation overrides this with its own definition,
    /// since nothing can be proved equal to the default. The default is there
    /// for implementations written in ordinary Rust, which state no model.
    open spec fn disassembled(composite: C) -> Result<Seq<Self>, Self::Error> {
        arbitrary()
    }

    /// Disassembles `composite` into a sequence of `Self`s.
    fn disassemble_from(composite: C) -> (result: Result<Vec<Self>, Self::Error>)
        ensures
            parts_of(result) == Self::disassembled(composite),
    ;
}

/// Disassembles `Self` into a sequence of `P`s.
///
/// This is [`DisassembleFrom`] named from the side of the composite. A
/// composite type never implements it by hand: it has it for every `P` that
/// implements `DisassembleFrom` for it.
pub trait DisassembleInto<P> {
    /// Describes an error that prevents disassembly.
    type Error;

    /// What disassembling `self` yields: its parts, in the order in which
    /// they would be assembled again, or the error.
    spec fn disassembled_into(self) -> Result<Seq<P>, Self::Error>;

    /// Disassembles `self` into a sequence of parts.
    fn disassemble_into(self) -> (result: Result<Vec<P>, Self::Error>)
        ensures
            parts_of(result) == self.disassembled_into(),
    ;
}

/// For every `P` that implements `DisassembleFrom<C>`, `C` implements
/// `DisassembleInto<P>`, with the same error and the same behaviour.
impl<P, C> DisassembleInto<P> for C where P: DisassembleFrom<C> {
    type Error = <P as DisassembleFrom<Self>>::Error;

    open spec fn disassembled_into(self) -> Result<Seq<P>, Self::Error> {
        P::disassembled(self)
    }

    /// Hands `self` to `P::disassemble_from` and returns what comes back.
    ///
    /// The clause is written with `=~=` because that operator takes its two
    /// sides at one type, which settles the `P` that `result` is of.
    #[inline]
    fn disassemble_into(self) -> (result: Result<Vec<P>, Self::Error>)
        ensures
            parts_of(result) =~= P::disassembled(self),
    {
        P::disassemble_from(self)
    }
}

/// Disassembling a composite into `P`s is disassembling `P`s from it: for
/// every composite the two yield the same parts in the same order, or the
/// same error.
pub proof fn lemma_disassemble_into_is_disassemble_from<P: DisassembleFrom<C>, C>(composite: C)
    ensures
        <C as DisassembleInto<P>>::disassembled_into(composite) == P::disassembled(composite),
{
}

} // verus!

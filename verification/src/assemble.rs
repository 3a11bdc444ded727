//! Assembling a composite from the front of a sequence of parts.
//!
//! [`AssembleFrom`] is implemented by a composite type and says how it is
//! built from its parts. [`AssembleInto`] is the same operation seen from the
//! part type; it is implemented once and for all below, by forwarding.
//!
//! An assembly is modelled as a function of the parts alone. The model of an
//! implementation is a pair of spec functions: the outcome (the composite, or
//! the cause of the failure) and the number of leading parts that a successful
//! assembly uses up. The executable operation is held to that model, and to
//! the rule that parts only ever leave from the front, and only on success.
//!
//! # Example
//!
//! A pair of bytes, neither of them zero, assembled from single bytes:
//!
//! ```text
//! pub struct Pair {
//!     pub first: u8,
//!     pub second: u8,
//! }
//!
//! pub struct Zero;
//!
//! impl AssembleFrom<u8> for Pair {
//!     type Error = Zero;
//!
//!     open spec fn assembled(parts: Seq<u8>) -> Result<Self, AssembleFailure<Zero>> {
//!         if parts.len() < 2 {
//!             Err(AssembleFailure::Incomplete)
//!         } else if parts[0] == 0 || parts[1] == 0 {
//!             Err(AssembleFailure::Error(Zero))
//!         } else {
//!             Ok(Pair { first: parts[0], second: parts[1] })
//!         }
//!     }
//!
//!     open spec fn used(parts: Seq<u8>) -> nat {
//!         2
//!     }
//!
//!     fn assemble_from(parts: &mut Vec<u8>) -> (result: Result<Self, AssembleFailure<Zero>>) {
//!         if parts.len() < 2 {
//!             Err(AssembleFailure::Incomplete)
//!         } else if parts[0] == 0 || parts[1] == 0 {
//!             Err(AssembleFailure::from(Zero))
//!         } else {
//!             let first = parts.remove(0);
//!             let second = parts.remove(0);
//!             Ok(Pair { first, second })
//!         }
//!     }
//! }
//! ```
//!
//! The implementation looks before it removes anything, so a failure finds
//! the parts untouched. With it in place, `u8::assemble_into` builds a
//! `Pair` where one is asked for, and a caller that starts from the parts
//! 1, 2, 3 can rely on getting the pair of 1 and 2 and on being left with 3.

use crate::failure::AssembleFailure;
use vstd::prelude::*;

verus! {

/// Specifies the assembly of `Self` from a sequence of `P`s.
///
/// An implementation decides how many parts a `Self` needs and what makes
/// them valid. It reports too few parts as [`AssembleFailure::Incomplete`]
/// and parts that can never become a `Self` as [`AssembleFailure::Error`].
pub trait AssembleFrom<P> where Self: Sized {
    /// Describes an error with the parts.
    ///
    /// This describes every case that prevents a successful assembly, other
    /// than the case where more parts are needed.
    type Error;

    /// What assembling from `parts` yields: the composite, or the cause of
    /// the failure.
    ///
    /// A verified implementation overrides this with its own definition,
    /// since nothing can be proved equal to the default. The default is there
    /// for implementations written in ordinary Rust, which state no model.
    open spec fn assembled(parts: Seq<P>) -> Result<Self, AssembleFailure<Self::Error>> {
        arbitrary()
    }

    /// How many leading parts a successful assembly from `parts` uses up.
    ///
    /// It is read only where [`Self::assembled`] is `Ok`.
    open spec fn used(parts: Seq<P>) -> nat {
        arbitrary()
    }

    /// Assembles `parts` into a `Self`.
    ///
    /// On success the parts that went into the composite, and no others, are
    /// removed from the front of `parts`; the rest keep their order. On
    /// failure, of either kind, `parts` is left as it was.
    fn assemble_from(parts: &mut Vec<P>) -> (result: Result<Self, AssembleFailure<Self::Error>>)
        ensures
            result == Self::assembled(old(parts)@),
            result is Ok ==> Self::used(old(parts)@) <= old(parts)@.len(),
            result is Ok ==> final(parts)@ == old(parts)@.skip(Self::used(old(parts)@) as int),
            result is Err ==> final(parts)@ == old(parts)@,
    ;
}

/// The parts that are left once a `C` has been assembled from `parts`:
/// all of them after a failure, all but the used ones after a success.
pub open spec fn remaining<P, C: AssembleFrom<P>>(parts: Seq<P>) -> Seq<P> {
    if C::assembled(parts) is Ok {
        parts.skip(C::used(parts) as int)
    } else {
        parts
    }
}

/// Specifies the assembly of `C` from a sequence of `Self`s.
///
/// This is [`AssembleFrom`] named from the side of the parts. A part type
/// never implements it by hand: it has it for every `C` that implements
/// `AssembleFrom` for it.
pub trait AssembleInto<C> where Self: Sized {
    /// Describes an error with the parts.
    ///
    /// This describes every case that prevents a successful assembly, other
    /// than the case where more parts are needed.
    type Error;

    /// What assembling `parts` into a `C` yields: the composite, or the cause
    /// of the failure.
    spec fn assembled_into(parts: Seq<Self>) -> Result<C, AssembleFailure<Self::Error>>;

    /// How many leading parts a successful assembly of `parts` into a `C`
    /// uses up.
    spec fn used_into(parts: Seq<Self>) -> nat;

    /// Assembles `parts` into a `C`.
    ///
    /// On success the parts that went into the composite, and no others, are
    /// removed from the front of `parts`; the rest keep their order. On
    /// failure, of either kind, `parts` is left as it was.
    fn assemble_into(parts: &mut Vec<Self>) -> (result: Result<C, AssembleFailure<Self::Error>>)
        ensures
            result == Self::assembled_into(old(parts)@),
            result is Ok ==> Self::used_into(old(parts)@) <= old(parts)@.len(),
            result is Ok ==> final(parts)@ == old(parts)@.skip(
                Self::used_into(old(parts)@) as int,
            ),
            result is Err ==> final(parts)@ == old(parts)@,
    ;
}

/// The parts that are left once `parts` have been assembled into a `C`:
/// all of them after a failure, all but the used ones after a success.
pub open spec fn remaining_into<P: AssembleInto<C>, C>(parts: Seq<P>) -> Seq<P> {
    if <P as AssembleInto<C>>::assembled_into(parts) is Ok {
        parts.skip(<P as AssembleInto<C>>::used_into(parts) as int)
    } else {
        parts
    }
}

/// For every `C` that implements `AssembleFrom<P>`, `P` implements
/// `AssembleInto<C>`, with the same error and the same behaviour.
impl<P, C> AssembleInto<C> for P where C: AssembleFrom<P> {
    type Error = <C as AssembleFrom<Self>>::Error;

    open spec fn assembled_into(parts: Seq<Self>) -> Result<C, AssembleFailure<Self::Error>> {
        C::assembled(parts)
    }

    open spec fn used_into(parts: Seq<Self>) -> nat {
        C::used(parts)
    }

    /// Hands `parts` to `C::assemble_from` and returns what comes back.
    ///
    /// The first clause is written with `=~=` because that operator takes
    /// its two sides at one type, which settles the `C` that `result` is of.
    #[inline]
    fn assemble_into(parts: &mut Vec<Self>) -> (result: Result<C, AssembleFailure<Self::Error>>)
        ensures
            result =~= C::assembled(old(parts)@),
            final(parts)@ == remaining::<P, C>(old(parts)@),
    {
        C::assemble_from(parts)
    }
}

/// Assembling parts into a `C` is assembling a `C` from them: for every
/// sequence of parts the two have the same outcome, use up the same number of
/// parts and leave the same parts behind.
pub proof fn lemma_assemble_into_is_assemble_from<P, C: AssembleFrom<P>>(parts: Seq<P>)
    ensures
        <P as AssembleInto<C>>::assembled_into(parts) == C::assembled(parts),
        <P as AssembleInto<C>>::used_into(parts) == C::used(parts),
        remaining_into::<P, C>(parts) == remaining::<P, C>(parts),
{
}

/// A failed assembly, whether for want of parts or for an error in them,
/// leaves every part where it was.
pub proof fn lemma_failure_keeps_parts<P, C: AssembleFrom<P>>(parts: Seq<P>)
    requires
        C::assembled(parts) is Err,
    ensures
        remaining::<P, C>(parts) == parts,
        remaining::<P, C>(parts).len() == parts.len(),
        forall|i: int| 0 <= i < parts.len() ==> remaining::<P, C>(parts)[i] == parts[i],
{
}

/// A successful assembly splits the parts in two: the used ones, taken from
/// the front, and the remaining ones, which follow them in their old order.
pub proof fn lemma_success_takes_front<P, C: AssembleFrom<P>>(parts: Seq<P>)
    requires
        C::assembled(parts) is Ok,
        C::used(parts) <= parts.len(),
    ensures
        parts == parts.take(C::used(parts) as int) + remaining::<P, C>(parts),
        remaining::<P, C>(parts).len() == parts.len() - C::used(parts),
        forall|i: int|
            0 <= i < parts.len() - C::used(parts) ==> remaining::<P, C>(parts)[i]
                == parts[C::used(parts) + i],
{
}

} // verus!

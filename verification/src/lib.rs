//! A borrowed-or-owned smart pointer.
//!
//! [`Bow`] holds either an owned value or a shared reference to a value owned
//! elsewhere, and presents both behind one read-only interface. Unlike
//! `std::borrow::Cow`, it never asks the enclosed type for `Clone`: the only
//! way back to an owned value is [`Bow::extract`], which yields the value
//! exactly when the container owns one.

use vstd::prelude::*;
use vstd::std_specs::cmp::PartialEqSpec;
use vstd::std_specs::cmp::PartialOrdSpec;

verus! {

/// A container that either owns its value or borrows it from elsewhere.
///
/// The variant is fixed at construction: `Owned` holds the value itself,
/// `Borrowed` a reference bounded by the lifetime `'a`. Every read goes
/// through [`Bow::borrow`]; mutation is available only through
/// [`Bow::borrow_mut`], and only on an `Owned` container.
#[derive(Copy, Clone)]
pub enum Bow<'a, T> {
    Owned(T),
    Borrowed(&'a T),
}

impl<'a, T> Bow<'a, T> {
    /// The enclosed value, whichever variant holds it.
    pub open spec fn value(self) -> T {
        match self {
            Bow::Owned(t) => t,
            Bow::Borrowed(t) => *t,
        }
    }

    /// Read access to the enclosed value, the same for both variants.
    pub fn borrow(&self) -> (r: &T)
        ensures
            *r == self.value(),
    {
        match self {
            Bow::Owned(t) => t,
            Bow::Borrowed(t) => *t,
        }
    }

    /// Mutable access to the enclosed value, granted only when the container
    /// owns it. A borrowed container yields `None` and is left unchanged:
    /// the container has no authority to mutate data it does not own.
    pub fn borrow_mut(&mut self) -> (r: Option<&mut T>)
        ensures
            *old(self) is Owned <==> r is Some,
            (match r {
                Some(m) => *m == old(self).value() && *final(self) == Bow::<'a, T>::Owned(*final(m)),
                None => *final(self) == *old(self),
            }),
    {
        match self {
            Bow::Owned(t) => Some(t),
            Bow::Borrowed(_) => None,
        }
    }

    /// Consume the container and return the enclosed value if it is owned.
    /// A borrowed container yields `None`; the referenced value stays with
    /// its owner, untouched.
    pub fn extract(self) -> (r: Option<T>)
        ensures
            self is Owned ==> r == Some(self.value()),
            self is Borrowed ==> r is None,
    {
        match self {
            Bow::Owned(t) => Some(t),
            Bow::Borrowed(_) => None,
        }
    }

    /// A plain reference to the enclosed value, the same as [`Bow::borrow`].
    pub fn as_ref(&self) -> (r: &T)
        ensures
            *r == self.value(),
    {
        self.borrow()
    }
}

/// Containers are equal exactly when their enclosed values are: the variant
/// plays no part, so an owned value and a borrowed one can compare equal.
impl<'a, T: PartialEq> PartialEq for Bow<'a, T> {
    fn eq(&self, other: &Self) -> (r: bool) {
        *self.borrow() == *other.borrow()
    }
}

impl<'a, T: PartialEq> vstd::std_specs::cmp::PartialEqSpecImpl for Bow<'a, T> {
    open spec fn obeys_eq_spec() -> bool {
        T::obeys_eq_spec()
    }

    open spec fn eq_spec(&self, other: &Self) -> bool {
        self.value().eq_spec(&other.value())
    }
}

impl<'a, T: Eq> Eq for Bow<'a, T> {}

/// Containers order exactly as their enclosed values do; the variant is
/// irrelevant to the comparison.
impl<'a, T: PartialOrd> PartialOrd for Bow<'a, T> {
    fn partial_cmp(&self, other: &Self) -> (r: Option<core::cmp::Ordering>) {
        self.borrow().partial_cmp(other.borrow())
    }
}

impl<'a, T: PartialOrd> vstd::std_specs::cmp::PartialOrdSpecImpl for Bow<'a, T> {
    open spec fn obeys_partial_cmp_spec() -> bool {
        T::obeys_partial_cmp_spec()
    }

    open spec fn partial_cmp_spec(&self, other: &Self) -> Option<core::cmp::Ordering> {
        self.value().partial_cmp_spec(&other.value())
    }
}

/// The default container owns the enclosed type's default value: there is no
/// sentinel reference a borrowed default could point at.
impl<'a, T: Default> Default for Bow<'a, T> {
    fn default() -> (r: Self)
        ensures
            r is Owned,
            call_ensures(T::default, (), r.value()),
    {
        Bow::Owned(T::default())
    }
}

/// Constructing a container encloses exactly the given value: an owned
/// container holds the value itself, a borrowed one the value behind the
/// reference. Together with the contract of [`Bow::borrow`], dereferencing
/// either construction reads that value back.
pub proof fn lemma_construction_value<T>(v: T, r: &T)
    ensures
        Bow::Owned(v).value() == v,
        Bow::Borrowed(r).value() == *r,
{
}

/// Round trip: wrapping a value as owned and then extracting returns the
/// value unchanged.
pub proof fn lemma_extract_owned_round_trip<'a, T>(v: T, r: Option<T>)
    requires
        call_ensures(Bow::<'a, T>::extract, (Bow::Owned(v),), r),
    ensures
        r == Some(v),
{
}

/// Extracting from a borrowed container yields absence, whatever value the
/// reference points at; the container never owned the value, so the value
/// stays with its owner and remains readable through the original reference.
pub proof fn lemma_extract_borrowed_absent<'a, T>(v: &'a T, r: Option<T>)
    requires
        call_ensures(Bow::<'a, T>::extract, (Bow::Borrowed(v),), r),
    ensures
        r is None,
{
}

/// Cross-variant equality: a container compares equal to another exactly when
/// the enclosed values do, so an owned value and a borrowed reference to an
/// equal value make equal containers, in either order. The executable `==`
/// returns these spec-level comparisons whenever the enclosed type's `==`
/// obeys its own specification.
pub proof fn lemma_cross_variant_eq<'a, T: PartialEq>(a: T, b: &'a T)
    ensures
        Bow::Owned(a).eq_spec(&Bow::Borrowed(b)) == a.eq_spec(b),
        Bow::Borrowed(b).eq_spec(&Bow::Owned(a)) == b.eq_spec(&a),
{
}

} // verus!

//! A wrapper that owns one value and hands out read access only.
//!
//! `Freeze<T>` has no `DerefMut` impl and no method that takes `&mut self`,
//! so code that holds a `Freeze<T>` cannot mutate the value inside it. The
//! one way back to a mutable value is [`Freeze::defrost`], which consumes
//! the wrapper.
use std::cmp::Ordering;
use std::ops::Deref;
use vstd::prelude::*;
use vstd::std_specs::cmp::{PartialEqSpec, PartialOrdSpec};

verus! {

/// A wrapper type with no `DerefMut` impl, disallowing mutation.
#[derive(Copy, Debug, Hash, Eq, Ord)]
pub struct Freeze<T>(T);

impl<T> View for Freeze<T> {
    type V = T;

    /// The wrapped value.
    closed spec fn view(&self) -> T {
        self.0
    }
}

impl<T> Freeze<T> {
    /// The wrapper that holds `inner`.
    pub closed spec fn spec_new(inner: T) -> Self {
        Freeze(inner)
    }

    /// Construct a new "frozen" value, taking ownership of `inner`.
    pub fn new(inner: T) -> (r: Self)
        ensures
            r == Self::spec_new(inner),
            r@ == inner,
    {
        Freeze(inner)
    }

    /// Unfreeze: consume the wrapper and return the value it held.
    pub fn defrost(self) -> (r: T)
        ensures
            r == self@,
    {
        self.0
    }
}

impl<T> Deref for Freeze<T> {
    type Target = T;

    /// Read access to the wrapped value.
    fn deref(&self) -> (r: &T)
        ensures
            *r == self@,
    {
        &self.0
    }
}

/// Defines how to make a value immutable.
pub trait Frozen {
    /// Freeze this value: wrap it in a `Freeze`, exactly as `Freeze::new` does.
    fn freeze(self) -> (r: Freeze<Self>) where Self: Sized
        ensures
            r == Freeze::spec_new(self),
    {
        Freeze::new(self)
    }
}

impl<T> Frozen for T {
    fn freeze(self) -> (r: Freeze<T>) {
        Freeze::new(self)
    }
}

impl<T: Clone> Clone for Freeze<T> {
    /// A wrapper around a clone of the wrapped value.
    fn clone(&self) -> (r: Self)
        ensures
            call_ensures(T::clone, (&self@,), r@),
    {
        Freeze(self.0.clone())
    }
}

impl<T: Default> Default for Freeze<T> {
    /// A wrapper around `T`'s default value.
    fn default() -> (r: Self)
        ensures
            call_ensures(T::default, (), r@),
    {
        Freeze(T::default())
    }
}

impl<T: PartialEq> PartialEq for Freeze<T> {
    /// Two wrappers are equal exactly when their values are.
    fn eq(&self, other: &Self) -> (r: bool)
        ensures
            call_ensures(T::eq, (&self@, &other@), r),
    {
        self.0 == other.0
    }
}

impl<T: PartialEq> vstd::std_specs::cmp::PartialEqSpecImpl for Freeze<T> {
    open spec fn obeys_eq_spec() -> bool {
        <T as PartialEqSpec>::obeys_eq_spec()
    }

    open spec fn eq_spec(&self, other: &Self) -> bool {
        self@.eq_spec(&other@)
    }
}

impl<T: PartialOrd> PartialOrd for Freeze<T> {
    /// Two wrappers are ordered as their values are.
    fn partial_cmp(&self, other: &Self) -> (r: Option<Ordering>)
        ensures
            call_ensures(T::partial_cmp, (&self@, &other@), r),
    {
        self.0.partial_cmp(&other.0)
    }
}

impl<T: PartialOrd> vstd::std_specs::cmp::PartialOrdSpecImpl for Freeze<T> {
    open spec fn obeys_partial_cmp_spec() -> bool {
        <T as PartialOrdSpec>::obeys_partial_cmp_spec()
    }

    open spec fn partial_cmp_spec(&self, other: &Self) -> Option<Ordering> {
        self@.partial_cmp_spec(&other@)
    }
}

/// Freezing a value and defrosting the wrapper gives back that very value:
/// whatever `Freeze::new(v)` returns, `defrost` on it returns `v`.
pub proof fn lemma_defrost_new<T>(v: T, f: Freeze<T>, r: T)
    requires
        call_ensures(Freeze::<T>::new, (v,), f),
        call_ensures(Freeze::<T>::defrost, (f,), r),
    ensures
        r == v,
        Freeze::spec_new(v)@ == v,
{
}

/// Reading through the wrapper gives what reading the value itself gives:
/// the reference that `deref` returns on `Freeze::new(v)` refers to `v`, so
/// any read of it agrees with the same read of `v`.
pub proof fn lemma_read_through<T, U>(v: T, f: Freeze<T>, r: &T, read: spec_fn(T) -> U)
    requires
        call_ensures(Freeze::<T>::new, (v,), f),
        call_ensures(<Freeze<T> as Deref>::deref, (&f,), r),
    ensures
        *r == v,
        read(*r) == read(v),
{
}

/// `v.freeze()` and `Freeze::new(v)` give the same wrapper.
pub proof fn lemma_freeze_is_new<T>(v: T, a: Freeze<T>, b: Freeze<T>)
    requires
        call_ensures(<T as Frozen>::freeze, (v,), a),
        call_ensures(Freeze::<T>::new, (v,), b),
    ensures
        a == b,
        a@ == v,
{
}

/// Comparing two wrappers for equality is comparing their values: the result
/// of `Freeze::new(a) == Freeze::new(b)` is a result that `a == b` may give,
/// and the two agree exactly wherever `T`'s equality follows its spec.
pub proof fn lemma_eq_delegates<T: PartialEq>(a: T, b: T, r: bool)
    requires
        call_ensures(
            <Freeze<T> as PartialEq>::eq,
            (&Freeze::spec_new(a), &Freeze::spec_new(b)),
            r,
        ),
    ensures
        call_ensures(<T as PartialEq>::eq, (&a, &b), r),
        <T as PartialEqSpec>::obeys_eq_spec() ==> (r == a.eq_spec(&b)),
        Freeze::spec_new(a).eq_spec(&Freeze::spec_new(b)) == a.eq_spec(&b),
        <Freeze<T> as PartialEqSpec>::obeys_eq_spec() == <T as PartialEqSpec>::obeys_eq_spec(),
{
}

/// Two wrappers are ordered as their values are: the result of
/// `Freeze::new(a).partial_cmp(&Freeze::new(b))` is a result that
/// `a.partial_cmp(&b)` may give.
pub proof fn lemma_order_delegates<T: PartialOrd>(a: T, b: T, r: Option<Ordering>)
    requires
        call_ensures(
            <Freeze<T> as PartialOrd>::partial_cmp,
            (&Freeze::spec_new(a), &Freeze::spec_new(b)),
            r,
        ),
    ensures
        call_ensures(<T as PartialOrd>::partial_cmp, (&a, &b), r),
        <T as PartialOrdSpec>::obeys_partial_cmp_spec() ==> (r == a.partial_cmp_spec(&b)),
        Freeze::spec_new(a).partial_cmp_spec(&Freeze::spec_new(b)) == a.partial_cmp_spec(&b),
        <Freeze<T> as PartialOrdSpec>::obeys_partial_cmp_spec()
            == <T as PartialOrdSpec>::obeys_partial_cmp_spec(),
{
}

} // verus!

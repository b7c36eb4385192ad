use crate::strategy::{Msg, WithTypeInfo};
use core::cmp::Ordering;
use vstd::prelude::*;
use vstd::std_specs::cmp::{PartialEqSpec, PartialEqSpecImpl, PartialOrdSpec, PartialOrdSpecImpl};
use vstd::std_specs::convert::{FromSpec, FromSpecImpl};

verus! {

/// Wraps a value of type `T` and renders it as the placeholder that the strategy
/// `M` chooses, never as the value itself.
#[derive(Eq, Ord, Hash)]
pub struct NoDebug<T, M: Msg<T> = WithTypeInfo>(T, core::marker::PhantomData<M>);

/// The display placeholder `<no display: NAME>`, where `NAME` is the wrapped type's name.
pub open spec fn no_display_text(ty_name: Seq<char>) -> Seq<char> {
    "<no display: "@ + ty_name + ">"@
}

impl<T, M: Msg<T>> View for NoDebug<T, M> {
    type V = T;

    /// The wrapped value.
    closed spec fn view(&self) -> T {
        self.0
    }
}

impl<T, M: Msg<T>> NoDebug<T, M> {
    /// Consumes the wrapper and hands back the value it held.
    pub fn take(self) -> (r: T)
        ensures
            r == self@,
    {
        self.0
    }

    /// The text shown in place of the wrapped value, a value of the type named
    /// `ty_name`: whatever the strategy `M` chooses, never the value's own rendering.
    pub fn render(&self, ty_name: &str) -> (r: String)
        ensures
            r@ == M::placeholder(self@, ty_name@),
    {
        M::fmt(&self.0, ty_name)
    }

    /// The text shown where the wrapped value would be displayed to a user, a value
    /// of the type named `ty_name`: `<no display: NAME>`, never the value itself.
    pub fn render_display(&self, ty_name: &str) -> (r: String)
        ensures
            r@ == no_display_text(ty_name@),
    {
        let mut s = String::from_str("<no display: ");
        s.append(ty_name);
        s.append(">");
        s
    }
}

impl<T, M: Msg<T>> From<T> for NoDebug<T, M> {
    /// Wraps `value` under the strategy `M`.
    fn from(value: T) -> (r: Self)
        ensures
            r@ == value,
    {
        NoDebug(value, core::marker::PhantomData)
    }
}

impl<T, M: Msg<T>> FromSpecImpl<T> for NoDebug<T, M> {
    open spec fn obeys_from_spec() -> bool {
        true
    }

    closed spec fn from_spec(v: T) -> Self {
        NoDebug(v, core::marker::PhantomData)
    }
}

impl<T, M: Msg<T>> core::ops::Deref for NoDebug<T, M> {
    type Target = T;

    /// Reads the wrapped value.
    fn deref(&self) -> (r: &T)
        ensures
            *r == self@,
    {
        &self.0
    }
}

impl<T, M: Msg<T>> core::ops::DerefMut for NoDebug<T, M> {
    /// Gives write access to the wrapped value; the strategy stays as it was.
    fn deref_mut(&mut self) -> (r: &mut T)
        ensures
            *r == old(self)@,
            final(self)@ == *final(r),
    {
        &mut self.0
    }
}

impl<T: Clone, M: Msg<T>> Clone for NoDebug<T, M> {
    /// Clones the wrapped value under the same strategy.
    fn clone(&self) -> (r: Self)
        ensures
            cloned(self@, r@),
    {
        NoDebug(self.0.clone(), core::marker::PhantomData)
    }
}

impl<T: PartialEq, M: Msg<T>> PartialEq<T> for NoDebug<T, M> {
    /// Compares the wrapped value with a bare value.
    fn eq(&self, other: &T) -> (r: bool) {
        self.0 == *other
    }
}

impl<T: PartialEq, M: Msg<T>> PartialEqSpecImpl<T> for NoDebug<T, M> {
    open spec fn obeys_eq_spec() -> bool {
        T::obeys_eq_spec()
    }

    open spec fn eq_spec(&self, other: &T) -> bool {
        self@.eq_spec(other)
    }
}

impl<T: PartialEq, M: Msg<T>, N: Msg<T>> PartialEq<NoDebug<T, N>> for NoDebug<T, M> {
    /// Compares the wrapped values; the two strategies play no part.
    fn eq(&self, other: &NoDebug<T, N>) -> (r: bool) {
        self.0 == other.0
    }
}

impl<T: PartialEq, M: Msg<T>, N: Msg<T>> PartialEqSpecImpl<NoDebug<T, N>> for NoDebug<T, M> {
    open spec fn obeys_eq_spec() -> bool {
        T::obeys_eq_spec()
    }

    open spec fn eq_spec(&self, other: &NoDebug<T, N>) -> bool {
        self@.eq_spec(&other@)
    }
}

impl<T: PartialOrd, M: Msg<T>> PartialOrd<T> for NoDebug<T, M> {
    /// Orders the wrapped value against a bare value.
    fn partial_cmp(&self, other: &T) -> (r: Option<Ordering>) {
        self.0.partial_cmp(other)
    }
}

impl<T: PartialOrd, M: Msg<T>> PartialOrdSpecImpl<T> for NoDebug<T, M> {
    open spec fn obeys_partial_cmp_spec() -> bool {
        T::obeys_partial_cmp_spec()
    }

    open spec fn partial_cmp_spec(&self, other: &T) -> Option<Ordering> {
        self@.partial_cmp_spec(other)
    }
}

impl<T: PartialOrd, M: Msg<T>, N: Msg<T>> PartialOrd<NoDebug<T, N>> for NoDebug<T, M> {
    /// Orders the wrapped values; the two strategies play no part.
    fn partial_cmp(&self, other: &NoDebug<T, N>) -> (r: Option<Ordering>) {
        self.0.partial_cmp(&other.0)
    }
}

impl<T: PartialOrd, M: Msg<T>, N: Msg<T>> PartialOrdSpecImpl<NoDebug<T, N>> for NoDebug<T, M> {
    open spec fn obeys_partial_cmp_spec() -> bool {
        T::obeys_partial_cmp_spec()
    }

    open spec fn partial_cmp_spec(&self, other: &NoDebug<T, N>) -> Option<Ordering> {
        self@.partial_cmp_spec(&other@)
    }
}

impl<T> NoDebug<T, WithTypeInfo> {
    /// Wraps `value` under the default strategy.
    pub fn new(value: T) -> (r: Self)
        ensures
            r@ == value,
    {
        Self::from(value)
    }
}

/// Reading a wrapper made from `v` gives back `v`.
pub proof fn lemma_read_after_wrap<T, M: Msg<T>>(v: T)
    ensures
        <NoDebug<T, M> as FromSpec<T>>::from_spec(v)@ == v,
{
}

/// Two wrappers are equal exactly when the values they hold are equal, whatever
/// strategy each was given; a wrapper equals a bare value exactly when its own
/// value does.
pub proof fn lemma_eq_by_value<T: PartialEq, M: Msg<T>, N: Msg<T>>(a: NoDebug<T, M>, b: NoDebug<T, N>, v: T)
    ensures
        <NoDebug<T, M> as PartialEqSpec<NoDebug<T, N>>>::obeys_eq_spec() == T::obeys_eq_spec(),
        <NoDebug<T, M> as PartialEqSpec<NoDebug<T, N>>>::eq_spec(&a, &b) == a@.eq_spec(&b@),
        <NoDebug<T, M> as PartialEqSpec<T>>::obeys_eq_spec() == T::obeys_eq_spec(),
        <NoDebug<T, M> as PartialEqSpec<T>>::eq_spec(&a, &v) == a@.eq_spec(&v),
{
}

/// Wrappers order as the values they hold, whatever strategy each was given, and
/// a wrapper orders against a bare value as its own value does; in particular one
/// is below the other exactly when its value is.
pub proof fn lemma_order_by_value<T: PartialOrd, M: Msg<T>, N: Msg<T>>(a: NoDebug<T, M>, b: NoDebug<T, N>, v: T)
    ensures
        <NoDebug<T, M> as PartialOrdSpec<NoDebug<T, N>>>::obeys_partial_cmp_spec()
            == T::obeys_partial_cmp_spec(),
        <NoDebug<T, M> as PartialOrdSpec<NoDebug<T, N>>>::partial_cmp_spec(&a, &b)
            == a@.partial_cmp_spec(&b@),
        (<NoDebug<T, M> as PartialOrdSpec<NoDebug<T, N>>>::partial_cmp_spec(&a, &b) == Some(
            Ordering::Less,
        )) <==> (a@.partial_cmp_spec(&b@) == Some(Ordering::Less)),
        <NoDebug<T, M> as PartialOrdSpec<T>>::obeys_partial_cmp_spec()
            == T::obeys_partial_cmp_spec(),
        <NoDebug<T, M> as PartialOrdSpec<T>>::partial_cmp_spec(&a, &v) == a@.partial_cmp_spec(&v),
{
}

} // verus!

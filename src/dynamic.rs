//! Scoped ownership tokens and the handles that erase which resource a view
//! is rebuilt from.
use core::marker::PhantomData;
use vstd::prelude::*;

verus! {

/// Owns one value for the scope `'a`: the value, and anything derived from
/// it, cannot be used once the scope has ended.
pub struct Owned<'a, T> {
    inner: T,
    _lifetime: PhantomData<&'a mut ()>,
}

impl<'a, T> View for Owned<'a, T> {
    type V = T;

    closed spec fn view(&self) -> T {
        self.inner
    }
}

impl<'a, T: 'a> Owned<'a, T> {
    pub fn new(inner: T) -> (r: Owned<'a, T>)
        ensures
            r@ == inner,
    {
        Owned { inner, _lifetime: PhantomData }
    }

    /// Converts the owned value, keeping the scope.
    pub fn into<U>(self) -> (r: Owned<'a, U>)
        where
            T: Into<U>,
        ensures
            call_ensures(T::into, (self@,), r@),
    {
        Owned { inner: self.inner.into(), _lifetime: PhantomData }
    }

    /// Transforms the owned value, keeping the scope.
    pub fn map<U, F: FnOnce(T) -> U>(self, f: F) -> (r: Owned<'a, U>)
        requires
            f.requires((self@,)),
        ensures
            f.ensures((self@,), r@),
    {
        Owned { inner: f(self.inner), _lifetime: PhantomData }
    }

    /// Derives a value from an exclusive borrow of the owned one; the borrow
    /// lasts as long as the result.
    pub fn map_mut<U, F: FnOnce(&'a mut T) -> U>(&'a mut self, f: F) -> (r: Owned<'a, U>)
        requires
            forall|m: &'a mut T| *m == old(self)@ ==> f.requires((m,)),
        ensures
            exists|m: &'a mut T|
                *m == old(self)@ && *final(m) == final(self)@ && f.ensures((m,), r@),
    {
        Owned { inner: f(&mut self.inner), _lifetime: PhantomData }
    }

    /// The owned value, for reading.
    pub fn get(&self) -> (r: &T)
        ensures
            *r == self@,
    {
        &self.inner
    }

    /// The owned value, for changing in place.
    pub fn get_mut(&mut self) -> (r: &mut T)
        ensures
            *r == old(self)@,
            final(self)@ == *final(r),
    {
        &mut self.inner
    }

    /// Gives up the scope and hands out the value.
    pub fn into_inner(self) -> (r: T)
        ensures
            r == self@,
    {
        self.inner
    }
}


/// Proof that a descriptor was taken from a live resource. Only the erased
/// handles of this module make one, so a resource cannot be rebuilt from a
/// descriptor that nobody lent.
pub struct Key<Id> {
    id: Id,
}

impl<Id: Copy> Key<Id> {
    pub closed spec fn descriptor(&self) -> Id {
        self.id
    }

    fn lend(id: Id) -> (r: Key<Id>)
        ensures
            r.descriptor() == id,
    {
        Key { id }
    }

    pub fn id(&self) -> (r: Id)
        ensures
            r == self.descriptor(),
    {
        self.id
    }
}

/// A resource (or set of resources) that carries nothing but its identity,
/// so that it can be rebuilt from its descriptor on demand, for the scope
/// `'a` it is bound to.
pub trait OwnedEraseable<'a>: Sized {
    type Id: Copy;

    spec fn descriptor(&self) -> Self::Id;

    fn id(&self) -> (r: Self::Id)
        ensures
            r == self.descriptor(),
    ;

    /// Rebuilds the resource that `key` was taken from, for the scope `'a`.
    fn magick(key: Key<Self::Id>) -> (r: Owned<'a, Self>)
        ensures
            r@.descriptor() == key.descriptor(),
    ;
}

/// A resource bound to the scope `'a` from which one bound to the shorter
/// scope `'b` can be derived without giving up the original.
pub trait Reborrowable<'a, 'b>: OwnedEraseable<'a> {
    type Target: OwnedEraseable<'b, Id = Self::Id>;

    fn reborrow(value: &'b mut Owned<'a, Self>) -> (r: Owned<'b, Self::Target>)
        ensures
            r@.descriptor() == old(value)@.descriptor(),
            *final(value) == *old(value),
    ;
}

/// The descriptors a conversion can serve, whatever the scope.
pub trait Admits<Id> {
    spec fn admits(id: Id) -> bool;
}

/// A conversion from a rebuilt resource to a view of it, both bound to the
/// scope `'a`. It is a type, not a stored closure, so that erasing a resource
/// costs no allocation.
pub trait Constructor<'a, FROM: OwnedEraseable<'a>>: Admits<FROM::Id> {
    type To;

    /// How the view relates to the descriptor it was made from.
    spec fn converts(from: FROM::Id, to: Self::To) -> bool;

    fn convert(from: Owned<'a, FROM>) -> (r: Owned<'a, Self::To>)
        requires
            Self::admits(from@.descriptor()),
        ensures
            Self::converts(from@.descriptor(), r@),
    ;
}

/// An erased handle: it remembers only a descriptor, and `build` rebuilds the
/// resource and converts it with `C` into a view bound to the scope `'a` of
/// the borrow the handle was made from.
pub struct DynThief<'a, I: OwnedEraseable<'a>, C: Constructor<'a, I>> {
    key: Key<I::Id>,
    _lifetime: PhantomData<&'a mut ()>,
    _convert: PhantomData<C>,
}

impl<'a, I: OwnedEraseable<'a>, C: Constructor<'a, I>> DynThief<'a, I, C> {
    pub closed spec fn descriptor(&self) -> I::Id {
        self.key.descriptor()
    }

    /// The descriptor of the resource behind this handle.
    pub fn id(&self) -> (r: I::Id)
        ensures
            r == self.descriptor(),
    {
        self.key.id()
    }

    #[verifier::type_invariant]
    closed spec fn inv(self) -> bool {
        C::admits(self.key.descriptor())
    }

    /// Erases a resource borrowed for the whole scope `'a`: no other view of
    /// it can be made while this handle, or a view it built, is alive.
    pub fn new(source: &'a mut I) -> (r: DynThief<'a, I, C>)
        requires
            C::admits(old(source).descriptor()),
        ensures
            r.descriptor() == old(source).descriptor(),
            C::admits(r.descriptor()),
            *final(source) == *old(source),
    {
        DynThief { key: Key::lend(source.id()), _lifetime: PhantomData, _convert: PhantomData }
    }

    /// Erases a resource whose token is handed over.
    pub fn new_owned(source: Owned<'a, I>) -> (r: DynThief<'a, I, C>)
        requires
            C::admits(source@.descriptor()),
        ensures
            r.descriptor() == source@.descriptor(),
            C::admits(r.descriptor()),
    {
        DynThief {
            key: Key::lend(source.get().id()),
            _lifetime: PhantomData,
            _convert: PhantomData,
        }
    }

    /// A handle of shorter scope for the same resource: what it builds lives
    /// no longer than the reborrow, and this handle is left as it was, to be
    /// reborrowed or built again once the new one is gone.
    pub fn reborrow<'b>(&'b mut self) -> (r: DynThief<'b, <I as Reborrowable<'a, 'b>>::Target, C>)
        where
            I: Reborrowable<'a, 'b>,
            C: Constructor<'b, <I as Reborrowable<'a, 'b>>::Target>,
        ensures
            r.descriptor() == old(self).descriptor(),
            C::admits(r.descriptor()),
            *final(self) == *old(self),
    {
        proof {
            use_type_invariant(&*self);
        }
        DynThief { key: Key::lend(self.key.id()), _lifetime: PhantomData, _convert: PhantomData }
    }

    /// Rebuilds the resource and converts it into a view bound to `'a`.
    pub fn build(self) -> (r: Owned<'a, C::To>)
        ensures
            C::converts(self.descriptor(), r@),
    {
        proof {
            use_type_invariant(&self);
        }
        C::convert(I::magick(self.key))
    }
}

/// Two erased handles on the same resource, of which the caller commits to
/// exactly one: `left` converts with `C`, `right` with `D`.
pub struct DynEither<'a, I: OwnedEraseable<'a>, C: Constructor<'a, I>, D: Constructor<'a, I>> {
    key: Key<I::Id>,
    _lifetime: PhantomData<&'a mut ()>,
    _convert: PhantomData<(C, D)>,
}

impl<'a, I: OwnedEraseable<'a>, C: Constructor<'a, I>, D: Constructor<'a, I>> DynEither<'a, I, C, D> {
    pub closed spec fn descriptor(&self) -> I::Id {
        self.key.descriptor()
    }

    /// The descriptor of the resource behind this handle.
    pub fn id(&self) -> (r: I::Id)
        ensures
            r == self.descriptor(),
    {
        self.key.id()
    }

    #[verifier::type_invariant]
    closed spec fn inv(self) -> bool {
        C::admits(self.key.descriptor()) && D::admits(self.key.descriptor())
    }

    /// Erases a resource borrowed for the whole scope `'a`: no other view of
    /// it can be made while this handle, or a view it built, is alive.
    pub fn new(source: &'a mut I) -> (r: DynEither<'a, I, C, D>)
        requires
            C::admits(old(source).descriptor()),
            D::admits(old(source).descriptor()),
        ensures
            r.descriptor() == old(source).descriptor(),
            C::admits(r.descriptor()) && D::admits(r.descriptor()),
            *final(source) == *old(source),
    {
        DynEither { key: Key::lend(source.id()), _lifetime: PhantomData, _convert: PhantomData }
    }

    /// Erases a resource whose token is handed over.
    pub fn new_owned(source: Owned<'a, I>) -> (r: DynEither<'a, I, C, D>)
        requires
            C::admits(source@.descriptor()),
            D::admits(source@.descriptor()),
        ensures
            r.descriptor() == source@.descriptor(),
            C::admits(r.descriptor()) && D::admits(r.descriptor()),
    {
        DynEither {
            key: Key::lend(source.get().id()),
            _lifetime: PhantomData,
            _convert: PhantomData,
        }
    }

    /// A handle of shorter scope for the same resource: what it builds lives
    /// no longer than the reborrow, and this handle is left as it was, to be
    /// reborrowed or committed once the new one is gone.
    pub fn reborrow<'b>(&'b mut self) -> (r: DynEither<'b, <I as Reborrowable<'a, 'b>>::Target, C, D>)
        where
            I: Reborrowable<'a, 'b>,
            C: Constructor<'b, <I as Reborrowable<'a, 'b>>::Target>,
            D: Constructor<'b, <I as Reborrowable<'a, 'b>>::Target>,
        ensures
            r.descriptor() == old(self).descriptor(),
            C::admits(r.descriptor()) && D::admits(r.descriptor()),
            *final(self) == *old(self),
    {
        proof {
            use_type_invariant(&*self);
        }
        DynEither { key: Key::lend(self.key.id()), _lifetime: PhantomData, _convert: PhantomData }
    }

    /// Commits to the first interpretation.
    pub fn left(self) -> (r: DynThief<'a, I, C>)
        ensures
            r.descriptor() == self.descriptor(),
            C::admits(r.descriptor()),
    {
        proof {
            use_type_invariant(&self);
        }
        DynThief { key: self.key, _lifetime: PhantomData, _convert: PhantomData }
    }

    /// Commits to the second interpretation.
    pub fn right(self) -> (r: DynThief<'a, I, D>)
        ensures
            r.descriptor() == self.descriptor(),
            D::admits(r.descriptor()),
    {
        proof {
            use_type_invariant(&self);
        }
        DynThief { key: self.key, _lifetime: PhantomData, _convert: PhantomData }
    }
}

/// Reborrowing does not use a handle up. `r1` is what a reborrow of `h0`
/// returned and `h1` is `h0` once that reborrow has ended; `r2` is what a
/// second reborrow, of `h1`, returned. Then `h1` is `h0` unchanged, so it
/// can still be reborrowed or built, and both reborrows stand for the same
/// resource as the original.
pub proof fn lemma_thief_reborrow_repeatable<'a, 'b, I, J, C>(
    h0: DynThief<'a, I, C>,
    r1: DynThief<'b, J, C>,
    h1: DynThief<'a, I, C>,
    r2: DynThief<'b, J, C>,
)
    where
        I: Reborrowable<'a, 'b, Target = J>,
        J: OwnedEraseable<'b, Id = <I as OwnedEraseable<'a>>::Id>,
        C: Constructor<'a, I> + Constructor<'b, J>,
    requires
        r1.descriptor() == h0.descriptor(),
        h1 == h0,
        r2.descriptor() == h1.descriptor(),
    ensures
        h1 == h0,
        r2.descriptor() == r1.descriptor(),
        r1.descriptor() == h0.descriptor(),
{
}

/// Reborrowing does not use an either-handle up: as for single handles, a
/// second reborrow after the first has ended stands for the same resource,
/// and the original is unchanged, free to be reborrowed again or committed
/// with `left` or `right`.
pub proof fn lemma_either_reborrow_repeatable<'a, 'b, I, J, C, D>(
    h0: DynEither<'a, I, C, D>,
    r1: DynEither<'b, J, C, D>,
    h1: DynEither<'a, I, C, D>,
    r2: DynEither<'b, J, C, D>,
)
    where
        I: Reborrowable<'a, 'b, Target = J>,
        J: OwnedEraseable<'b, Id = <I as OwnedEraseable<'a>>::Id>,
        C: Constructor<'a, I> + Constructor<'b, J>,
        D: Constructor<'a, I> + Constructor<'b, J>,
    requires
        r1.descriptor() == h0.descriptor(),
        h1 == h0,
        r2.descriptor() == h1.descriptor(),
    ensures
        h1 == h0,
        r2.descriptor() == r1.descriptor(),
        r1.descriptor() == h0.descriptor(),
{
}

} // verus!

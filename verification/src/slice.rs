use vstd::prelude::*;

verus! {

/// A joined view of a contiguous sequence of references.
///
/// The variable-length analogue of [`Pair`](crate::Pair): a value of this
/// type stands for a whole slice of same-typed references, with the
/// per-element lifetimes erased down to the borrow of the slice itself; the
/// element count travels with the wrapped slice reference, never as a
/// separate field.
///
/// The type is only ever used at the two reference instantiations:
/// `Slice<&[&T]>`, built by [`Slice::new`], and `Slice<&mut [&mut T]>`,
/// built by [`Slice::new_mut`]. Elements and subranges are reached by first
/// recovering the plain slice through [`Slice::as_ref`], [`Slice::as_mut`]
/// or [`Slice::modify`], then indexing or reslicing it as usual; an
/// out-of-bounds index there fails exactly as ordinary slice indexing does.
pub struct Slice<S> {
    /// The wrapped slice of references.
    pub inner: S,
}

impl<'a, 'x, T> From<&'a [&'x T]> for Slice<&'a [&'x T]> {
    /// The same conversion as [`Slice::new`].
    fn from(slice: &'a [&'x T]) -> (r: Slice<&'a [&'x T]>) {
        Slice { inner: slice }
    }
}

impl<'a, 'x, T> vstd::std_specs::convert::FromSpecImpl<&'a [&'x T]> for Slice<&'a [&'x T]> {
    open spec fn obeys_from_spec() -> bool {
        true
    }

    open spec fn from_spec(slice: &'a [&'x T]) -> Slice<&'a [&'x T]> {
        Slice { inner: slice }
    }
}

impl<'a, 'x, T> Slice<&'a [&'x T]> {
    /// Joins a slice of shared references into one value, erasing the
    /// element lifetimes down to the lifetime of `slice` itself.
    pub fn new(slice: &'a [&'x T]) -> (r: Slice<&'a [&'x T]>)
        ensures
            r.inner == slice,
    {
        Slice { inner: slice }
    }

    /// The original slice: the forward distributive law.
    pub fn as_ref(&self) -> (r: &'a [&'x T])
        ensures
            r == self.inner,
    {
        self.inner
    }
}

impl<'a, 'x, T> Slice<&'a mut [&'x mut T]> {
    /// Joins a slice of exclusive references into one value, erasing the
    /// element lifetimes down to the lifetime of `slice` itself.
    pub fn new_mut(slice: &'a mut [&'x mut T]) -> (r: Slice<&'a mut [&'x mut T]>)
        ensures
            r.inner@ == old(slice)@,
            final(r.inner)@ == final(slice)@,
    {
        Slice { inner: slice }
    }

    /// The original slice, exclusively: the forward distributive law.
    pub fn as_mut<'s>(&'s mut self) -> (r: &'s mut [&'x mut T])
        ensures
            r@ == old(self).inner@,
            final(self).inner@ == final(r)@,
            final(final(self).inner)@ == final(old(self).inner)@,
    {
        &mut *self.inner
    }

    /// Hands the unified exclusive slice view to a single-shot continuation
    /// and returns whatever the continuation returns.
    ///
    /// The continuation receives the view for its own invocation only; it
    /// may rejoin the slice, or a subrange of it, and hand the fresh joined
    /// view back as its result, so staged modifications chain.
    pub fn modify<'s, R, F>(&'s mut self, f: F) -> (res: R) where
        F: FnOnce(&'s mut [&'x mut T]) -> R,
        requires
            forall|t: &'s mut [&'x mut T]| t@ == self.inner@ ==> call_requires(f, (t,)),
        ensures
            exists|t: &'s mut [&'x mut T]|
                {
                    &&& t@ == old(self).inner@
                    &&& #[trigger] call_ensures(f, (t,), res)
                    &&& final(self).inner@ == final(t)@
                    &&& final(final(self).inner)@ == final(old(self).inner)@
                },
    {
        let t = &mut *self.inner;
        proof {
            assert(t@ == old(self).inner@);
            assert(call_requires(f, (t,)));
        }
        f(t)
    }
}

} // verus!

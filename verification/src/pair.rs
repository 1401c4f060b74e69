use vstd::prelude::*;

verus! {

/// A joined view of a pair of references.
///
/// A value of this type stands for a whole aggregate of two references: the
/// two wrapped references' own lifetimes are erased down to one common bound
/// chosen at construction, and the aggregate can be recovered again, with
/// that one unified lifetime, through the accessors.
///
/// The type is only ever used at the two reference instantiations:
/// `Pair<&A, &B>`, built by [`Pair::new`] from a reference to a tuple of
/// shared references, and `Pair<&mut A, &mut B>`, built by [`Pair::new_mut`]
/// from an exclusive reference to a tuple of exclusive references.
///
/// Two disciplines keep the joined view sound, both enforced by the borrow
/// checker rather than by convention. First, while any reference into the
/// interior of a joined pair is alive, the pair itself is exclusively
/// borrowed, so it cannot be moved, swapped or overwritten wholesale;
/// interior references can only be invalidated by their own borrow ending.
/// Second, the common bound chosen at construction stays a parameter of the
/// joined type itself, so two joined pairs built over differently-lived
/// aggregates have different types, and exchanging their contents wholesale
/// is rejected at compile time.
pub struct Pair<F, S> {
    /// The first wrapped reference.
    pub first: F,
    /// The second wrapped reference.
    pub second: S,
}

impl<'a, 'x, A, B> From<&'a (&'x A, &'x B)> for Pair<&'a A, &'a B> {
    /// The same conversion as [`Pair::new`].
    fn from(pair_ref: &'a (&'x A, &'x B)) -> (r: Pair<&'a A, &'a B>) {
        Pair { first: pair_ref.0, second: pair_ref.1 }
    }
}

impl<'a, 'x, A, B> vstd::std_specs::convert::FromSpecImpl<&'a (&'x A, &'x B)> for Pair<&'a A, &'a B> {
    open spec fn obeys_from_spec() -> bool {
        true
    }

    open spec fn from_spec(pair_ref: &'a (&'x A, &'x B)) -> Pair<&'a A, &'a B> {
        Pair { first: pair_ref.0, second: pair_ref.1 }
    }
}

impl<'x, A, B> Pair<&'x A, &'x B> {
    /// Joins a pair of shared references into one value, erasing the two
    /// element lifetimes down to the lifetime of `pair_ref` itself.
    pub fn new<'a>(pair_ref: &'a (&'x A, &'x B)) -> (r: Pair<&'a A, &'a B>)
        ensures
            r.first == pair_ref.0,
            r.second == pair_ref.1,
    {
        Pair { first: pair_ref.0, second: pair_ref.1 }
    }

    /// The first component.
    pub fn fst(&self) -> (r: &'x A)
        ensures
            r == self.first,
    {
        self.first
    }

    /// The second component.
    pub fn snd(&self) -> (r: &'x B)
        ensures
            r == self.second,
    {
        self.second
    }

    /// Both components, as a tuple of references sharing one lifetime: the
    /// forward distributive law.
    pub fn as_ref(&self) -> (r: (&'x A, &'x B))
        ensures
            r.0 == self.first,
            r.1 == self.second,
    {
        (self.first, self.second)
    }
}

impl<'x, A, B> Pair<&'x mut A, &'x mut B> {
    /// Joins a pair of exclusive references into one value, erasing the two
    /// element lifetimes down to the lifetime of `pair_ref` itself.
    ///
    /// The joined value holds the same two places as the original aggregate:
    /// whatever is finally written through it is what the aggregate's own
    /// references hand back once the borrow of `pair_ref` ends.
    pub fn new_mut<'a>(pair_ref: &'a mut (&'x mut A, &'x mut B)) -> (r: Pair<&'a mut A, &'a mut B>)
        ensures
            *r.first == *old(pair_ref).0,
            *r.second == *old(pair_ref).1,
            *(*final(pair_ref)).0 == *final(r.first),
            *(*final(pair_ref)).1 == *final(r.second),
            *final((*final(pair_ref)).0) == *final(old(pair_ref).0),
            *final((*final(pair_ref)).1) == *final(old(pair_ref).1),
    {
        Pair { first: &mut *pair_ref.0, second: &mut *pair_ref.1 }
    }

    /// The first component, exclusively.
    pub fn fst_mut(&mut self) -> (r: &mut A)
        ensures
            *r == *old(self).first,
            *final(self).first == *final(r),
            *final(final(self).first) == *final(old(self).first),
            final(self).second == old(self).second,
    {
        &mut *self.first
    }

    /// The second component, exclusively.
    pub fn snd_mut(&mut self) -> (r: &mut B)
        ensures
            *r == *old(self).second,
            *final(self).second == *final(r),
            *final(final(self).second) == *final(old(self).second),
            final(self).first == old(self).first,
    {
        &mut *self.second
    }

    /// Both components, as a tuple of exclusive references sharing one
    /// lifetime: the forward distributive law, exclusively.
    pub fn as_mut(&mut self) -> (r: (&mut A, &mut B))
        ensures
            *r.0 == *old(self).first,
            *r.1 == *old(self).second,
            *final(self).first == *final(r.0),
            *final(self).second == *final(r.1),
            *final(final(self).first) == *final(old(self).first),
            *final(final(self).second) == *final(old(self).second),
    {
        (&mut *self.first, &mut *self.second)
    }

    /// Hands the unified exclusive tuple view to a single-shot continuation
    /// and returns whatever the continuation returns.
    ///
    /// The continuation receives the view for its own invocation only: the
    /// two references it is handed live no longer than the borrow of the
    /// joined pair, so they cannot be stored past the call. Nesting a
    /// joined pair behind another lets chained continuations reach inner
    /// elements.
    pub fn modify<'s, R, F>(&'s mut self, f: F) -> (res: R) where
        F: FnOnce((&'s mut A, &'s mut B)) -> R,
        requires
            forall|t: (&'s mut A, &'s mut B)|
                (*t.0 == *self.first && *t.1 == *self.second) ==> call_requires(f, (t,)),
        ensures
            exists|t: (&'s mut A, &'s mut B)|
                {
                    &&& *t.0 == *old(self).first
                    &&& *t.1 == *old(self).second
                    &&& #[trigger] call_ensures(f, (t,), res)
                    &&& *final(self).first == *final(t.0)
                    &&& *final(self).second == *final(t.1)
                    &&& *final(final(self).first) == *final(old(self).first)
                    &&& *final(final(self).second) == *final(old(self).second)
                },
    {
        let t = (&mut *self.first, &mut *self.second);
        proof {
            assert(*t.0 == *old(self).first);
            assert(*t.1 == *old(self).second);
            assert(call_requires(f, (t,)));
        }
        f(t)
    }
}

} // verus!

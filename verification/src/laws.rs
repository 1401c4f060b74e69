use vstd::prelude::*;

use crate::pair::Pair;
use crate::slice::Slice;

verus! {

/// Round trip for shared pairs: joining a pair of references and unifying
/// it again yields exactly the two original references.
pub fn pair_round_trip<'a, 'x, A, B>(pair_ref: &'a (&'x A, &'x B)) -> (r: (&'a A, &'a B))
    ensures
        r.0 == pair_ref.0,
        r.1 == pair_ref.1,
{
    let joined = Pair::new(pair_ref);
    joined.as_ref()
}

/// Round trip for exclusive pairs: joining a pair of references, unifying
/// it again and writing nothing leaves the value behind each reference as
/// it was, and leaves each reference's place untouched.
pub fn pair_round_trip_mut<'a, 'x, A, B>(pair_ref: &'a mut (&'x mut A, &'x mut B))
    ensures
        *(*final(pair_ref)).0 == *old(pair_ref).0,
        *(*final(pair_ref)).1 == *old(pair_ref).1,
        *final((*final(pair_ref)).0) == *final(old(pair_ref).0),
        *final((*final(pair_ref)).1) == *final(old(pair_ref).1),
{
    let mut joined = Pair::new_mut(pair_ref);
    let _unified = joined.as_mut();
}

/// One of two mutation paths that must agree: writing `a` and `b` through
/// the two component accessors [`Pair::fst_mut`] and [`Pair::snd_mut`].
///
/// Its contract is word for word the contract of
/// [`write_pair_via_unified`]: for the same writes, both paths leave the
/// joined pair in the same final state.
pub fn write_pair_via_accessors<'x, A, B>(joined: &mut Pair<&'x mut A, &'x mut B>, a: A, b: B)
    ensures
        *final(joined).first == a,
        *final(joined).second == b,
        *final(final(joined).first) == *final(old(joined).first),
        *final(final(joined).second) == *final(old(joined).second),
{
    *joined.fst_mut() = a;
    *joined.snd_mut() = b;
}

/// The other of the two mutation paths that must agree: writing `a` and
/// `b` through the unified tuple view of [`Pair::as_mut`].
///
/// Its contract is word for word the contract of
/// [`write_pair_via_accessors`].
pub fn write_pair_via_unified<'x, A, B>(joined: &mut Pair<&'x mut A, &'x mut B>, a: A, b: B)
    ensures
        *final(joined).first == a,
        *final(joined).second == b,
        *final(final(joined).first) == *final(old(joined).first),
        *final(final(joined).second) == *final(old(joined).second),
{
    let (x, y) = joined.as_mut();
    *x = a;
    *y = b;
}

/// Chaining: a joined pair may hold a reference to another joined pair as
/// its second element, and writes made through the outer entity reach the
/// innermost places, by each of the three access styles the pair offers:
/// the component accessors, the unified tuple view, and the continuation.
pub fn write_nested_triple<'f, A, B, C>(
    a: &'f mut A,
    b: &'f mut B,
    c: &'f mut C,
    av: A,
    bv: B,
    cv: C,
)
    ensures
        *final(a) == av,
        *final(b) == bv,
        *final(c) == cv,
{
    let mut bc = (b, c);
    let mut inner = Pair::new_mut(&mut bc);
    let mut outer_tuple = (a, &mut inner);
    let mut outer = Pair::new_mut(&mut outer_tuple);

    *outer.snd_mut().snd_mut() = cv;
    *outer.as_mut().1.as_mut().0 = bv;
    let put_first = |p: (&mut A, &mut Pair<&mut B, &mut C>)|
        ensures
            (*final(p.0) == av),
            (*final(p.1) == *old(p.1)),
        {
            *p.0 = av;
        };
    outer.modify(put_first);
}

/// Arity: nesting pairs in pairs emulates a four-element aggregate, and
/// writes through the component accessor chains and through the
/// continuation each reach the right leaf.
pub fn write_nested_quad<'f, A, B, C, D>(
    a: &'f mut A,
    b: &'f mut B,
    c: &'f mut C,
    d: &'f mut D,
    av: A,
    bv: B,
    cv: C,
    dv: D,
)
    ensures
        *final(a) == av,
        *final(b) == bv,
        *final(c) == cv,
        *final(d) == dv,
{
    let mut cd = (c, d);
    let mut tail = Pair::new_mut(&mut cd);
    let mut bcd = (b, &mut tail);
    let mut mid = Pair::new_mut(&mut bcd);
    let mut abcd = (a, &mut mid);
    let mut outer = Pair::new_mut(&mut abcd);

    *outer.snd_mut().fst_mut() = bv;
    *outer.snd_mut().snd_mut().fst_mut() = cv;
    *outer.snd_mut().snd_mut().snd_mut() = dv;
    let put_first = |p: (&mut A, &mut Pair<&mut B, &mut Pair<&mut C, &mut D>>)|
        ensures
            (*final(p.0) == av),
            (*final(p.1) == *old(p.1)),
        {
            *p.0 = av;
        };
    outer.modify(put_first);
}

/// Round trip for shared slices: joining a slice of references and
/// unifying it again yields the original slice.
pub fn slice_round_trip<'a, 'x, T>(slice: &'a [&'x T]) -> (r: &'a [&'x T])
    ensures
        r == slice,
{
    let joined = Slice::new(slice);
    joined.as_ref()
}

/// Round trip for exclusive slices: joining a slice of references,
/// unifying it again and writing nothing leaves every element as it was.
pub fn slice_round_trip_mut<'a, 'x, T>(slice: &'a mut [&'x mut T])
    ensures
        final(slice)@ == old(slice)@,
{
    let mut joined = Slice::new_mut(slice);
    let _unified = joined.as_mut();
}

/// Writing one element through the unified exclusive slice view updates
/// exactly the place behind that element and leaves every other element,
/// and the element references themselves, untouched.
pub fn write_slice_element<'a, 'x, T>(joined: &mut Slice<&'a mut [&'x mut T]>, i: usize, v: T)
    requires
        i < old(joined).inner@.len(),
    ensures
        final(joined).inner@.len() == old(joined).inner@.len(),
        *final(joined).inner@[i as int] == v,
        *final(final(joined).inner@[i as int]) == *final(old(joined).inner@[i as int]),
        forall|j: int|
            0 <= j < old(joined).inner@.len() && j != i ==> final(joined).inner@[j]
                == old(joined).inner@[j],
        final(final(joined).inner)@ == final(old(joined).inner)@,
{
    let s = joined.as_mut();
    *s[i] = v;
}

/// Chaining for slices: a continuation may rejoin the very slice it is
/// handed and modify the fresh joined view through a further continuation,
/// and the write still reaches the place behind the chosen element of the
/// original aggregate.
pub fn write_element_through_chained_views<'a, 'x, T>(slice: &'a mut [&'x mut T], i: usize, v: T)
    requires
        i < old(slice)@.len(),
    ensures
        final(slice)@.len() == old(slice)@.len(),
        *final(slice)@[i as int] == v,
        *final(final(slice)@[i as int]) == *final(old(slice)@[i as int]),
        forall|j: int|
            0 <= j < old(slice)@.len() && j != i ==> final(slice)@[j] == old(slice)@[j],
{
    let mut joined = Slice::new_mut(slice);
    let rejoin_and_write = |s: &mut [&'x mut T]|
        requires
            (i < s@.len()),
        ensures
            (final(s)@.len() == old(s)@.len()),
            (*final(s)@[i as int] == v),
            (*final(final(s)@[i as int]) == *final(old(s)@[i as int])),
            (forall|j: int|
                0 <= j < old(s)@.len() && j != i ==> final(s)@[j] == old(s)@[j]),
        {
            let mut rejoined = Slice::new_mut(s);
            let put = |s2: &mut [&'x mut T]|
                requires
                    (i < s2@.len()),
                ensures
                    (final(s2)@.len() == old(s2)@.len()),
                    (*final(s2)@[i as int] == v),
                    (*final(final(s2)@[i as int]) == *final(old(s2)@[i as int])),
                    (forall|j: int|
                        0 <= j < old(s2)@.len() && j != i ==> final(s2)@[j] == old(s2)@[j]),
                {
                    *s2[i] = v;
                };
            rejoined.modify(put);
        };
    joined.modify(rejoin_and_write);
}

} // verus!

use multiref::Pair;
use multiref::write_nested_quad;
use multiref::write_nested_triple;

#[test]
fn chained_nested_writes_reach_innermost() {
    let (mut a, mut b, mut c) = (1i32, 2i32, 3i32);
    {
        let mut bc = (&mut b, &mut c);
        let mut inner = Pair::new_mut(&mut bc);
        let mut a_pbc = (&mut a, &mut inner);
        let mut pabc = Pair::new_mut(&mut a_pbc);

        *pabc.snd_mut().snd_mut() = 4;
        *pabc.as_mut().1.as_mut().0 = 5;
        pabc.modify(|p| {
            *p.0 = 6;
        });
    }
    assert_eq!(a, 6);
    assert_eq!(b, 5);
    assert_eq!(c, 4);
}

#[test]
fn triple_law_on_concrete_values() {
    let (mut a, mut b, mut c) = (1u64, 2u64, 3u64);
    write_nested_triple(&mut a, &mut b, &mut c, 6, 5, 4);
    assert_eq!((a, b, c), (6, 5, 4));
}

#[test]
fn quad_law_on_concrete_values() {
    let (mut a, mut b, mut c, mut d) = (1u64, 2u64, 3u64, 4u64);
    write_nested_quad(&mut a, &mut b, &mut c, &mut d, 10, 20, 30, 40);
    assert_eq!((a, b, c, d), (10, 20, 30, 40));
}

#[test]
fn four_way_nesting_direct_and_continuation_access() {
    let (mut a, mut b, mut c, mut d) = (1u8, 2u8, 3u8, 4u8);
    {
        let mut cd = (&mut c, &mut d);
        let mut tail = Pair::new_mut(&mut cd);
        let mut bcd = (&mut b, &mut tail);
        let mut mid = Pair::new_mut(&mut bcd);
        let mut abcd = (&mut a, &mut mid);
        let mut outer = Pair::new_mut(&mut abcd);

        *outer.fst_mut() = 10;
        *outer.snd_mut().fst_mut() = 20;
        *outer.snd_mut().snd_mut().fst_mut() = 30;
        outer.modify(|p| {
            *p.1.snd_mut().snd_mut() = 40;
        });
    }
    assert_eq!((a, b, c, d), (10, 20, 30, 40));
}

#[test]
fn three_way_shared_access_through_nesting() {
    let (a, b, c) = (1u16, 2u16, 3u16);
    let bc = (&b, &c);
    let inner = Pair::new(&bc);
    let a_pbc = (&a, &inner);
    let pabc = Pair::new(&a_pbc);

    assert_eq!(*pabc.fst(), 1);
    assert_eq!(*pabc.snd().fst(), 2);
    assert_eq!(*pabc.snd().snd(), 3);
    assert!(std::ptr::eq(pabc.snd().snd(), &c));
}

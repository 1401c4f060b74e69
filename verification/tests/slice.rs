use multiref::Slice;
use multiref::slice_round_trip;
use multiref::slice_round_trip_mut;
use multiref::write_element_through_chained_views;
use multiref::write_slice_element;

#[test]
fn slice_writes_through_every_route() {
    let (mut a, mut b, mut c, mut d) = (1i32, 2i32, 3i32, 4i32);
    {
        let mut array = [&mut a, &mut b, &mut c, &mut d];
        let mut slice = Slice::new_mut(&mut array[..]);

        *slice.as_mut()[0] = 4;
        *((&mut slice.as_mut()[1..3])[0]) = 5;

        let forty_two = slice.modify(|real_slice| {
            *real_slice[2] = 6;
            42
        });
        assert_eq!(forty_two, 42);

        slice
            .modify(|real_slice| {
                *real_slice[3] += 1;
                Slice::new_mut(real_slice)
            })
            .modify(|real_slice| {
                *real_slice[3] += 2;
            });
    }
    assert_eq!((a, b, c, d), (4, 5, 6, 7));
}

#[test]
fn shared_slice_round_trip_returns_original() {
    let a = 1u16;
    let b = 2u16;
    let refs = [&a, &b];
    let joined = Slice::new(&refs[..]);
    let back = joined.as_ref();
    assert_eq!(back.len(), 2);
    assert!(std::ptr::eq(back[0], &a));
    assert_eq!(*back[1], 2);

    let again = slice_round_trip(&refs[..]);
    assert!(std::ptr::eq(again.as_ptr(), refs.as_ptr()));
    assert_eq!(*again[0], 1);
}

#[test]
fn mut_slice_round_trip_leaves_values_unchanged() {
    let mut a = 5u8;
    let mut b = 6u8;
    {
        let mut array = [&mut a, &mut b];
        slice_round_trip_mut(&mut array[..]);
    }
    assert_eq!((a, b), (5, 6));
}

#[test]
fn empty_slice_views() {
    let refs: [&u32; 0] = [];
    let joined = Slice::new(&refs[..]);
    assert_eq!(joined.as_ref().len(), 0);

    let mut mut_refs: [&mut u32; 0] = [];
    let mut joined_mut = Slice::new_mut(&mut mut_refs[..]);
    assert_eq!(joined_mut.as_mut().len(), 0);
    let n = joined_mut.modify(|s| s.len());
    assert_eq!(n, 0);
}

#[test]
fn write_one_element_updates_exactly_one_place() {
    let (mut a, mut b, mut c) = (7u64, 8u64, 9u64);
    {
        let mut array = [&mut a, &mut b, &mut c];
        let mut joined = Slice::new_mut(&mut array[..]);
        write_slice_element(&mut joined, 1, 80);
    }
    assert_eq!((a, b, c), (7, 80, 9));
}

#[test]
fn chained_views_reach_the_chosen_element() {
    let (mut a, mut b, mut c) = (1u32, 2u32, 3u32);
    {
        let mut array = [&mut a, &mut b, &mut c];
        write_element_through_chained_views(&mut array[..], 2, 30);
    }
    assert_eq!((a, b, c), (1, 2, 30));
}

#[test]
fn slice_conversion_agrees_with_new() {
    let a = 4u8;
    let b = 5u8;
    let refs = [&a, &b];
    let converted: Slice<&[&u8]> = (&refs[..]).into();
    let built = Slice::new(&refs[..]);
    assert!(std::ptr::eq(
        converted.as_ref().as_ptr(),
        built.as_ref().as_ptr()
    ));
}

#[test]
fn modify_result_can_rewrap_a_subrange() {
    let (mut a, mut b, mut c) = (1u32, 2u32, 3u32);
    {
        let mut array = [&mut a, &mut b, &mut c];
        let mut slice = Slice::new_mut(&mut array[..]);
        slice
            .modify(|real_slice| Slice::new_mut(&mut real_slice[1..]))
            .modify(|tail| {
                *tail[0] += 10;
                *tail[1] += 10;
            });
    }
    assert_eq!((a, b, c), (1, 12, 13));
}

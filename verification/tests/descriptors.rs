use in_place_init::shape::{Array, Slice, Slot};
use in_place_init::text::Text;
use in_place_init::{
    AssertPinned, Fail, FromIter, PinInit, PinInitExt, Uninit, Zeroed, array_for_each,
    array_repeat, chain, fail, for_slice, ignore_extra, initialize, map_err, map_extra, new_boxed,
    new_vec, slice_for_each, slice_repeat, succeed, then, try_flatten, try_initialize,
    try_new_boxed, try_new_vec, unsize, uninit, with_extra, zeroed,
};

#[test]
fn write_value_boxed() {
    let b = new_boxed::<u32, (), u32>(5u32);
    assert_eq!(*b, 5);
}

#[test]
fn move_out_of_box() {
    let src: Box<u64> = Box::new(23);
    let b = new_boxed::<u64, (), Box<u64>>(src);
    assert_eq!(*b, 23);
}

#[test]
fn copy_from_reference() {
    let x: u64 = 17;
    let b = new_boxed::<u64, (), &u64>(&x);
    assert_eq!(*b, 17);
}

#[test]
fn result_descriptor_ok_and_err() {
    let ok: Result<u32, &str> = Ok(3);
    let b = try_new_boxed::<u32, &str, _>(ok).unwrap();
    assert_eq!(*b, 3);
    let bad: Result<u32, &str> = Err("nope");
    assert_eq!(try_new_boxed::<u32, &str, _>(bad).unwrap_err(), "nope");
}

#[test]
fn vec_source_moves_elements() {
    let v = new_vec::<u32, (), _>(vec![1u32, 2, 3]);
    assert_eq!(v, vec![1, 2, 3]);
}

#[test]
fn vec_reference_copies_elements() {
    let src = vec![4u32, 5];
    let v = new_vec::<u32, (), _>(&src);
    assert_eq!(v, vec![4, 5]);
    assert_eq!(src, vec![4, 5]);
}

#[test]
fn metadata_matches_length() {
    let src = vec![9u8, 9, 9];
    let d = &src;
    let m = PinInit::<Slice<u8>, (), ()>::metadata(&d);
    assert_eq!(m, 3);
}

#[test]
fn metadata_is_idempotent() {
    let fe = slice_for_each(5, |i: usize| i);
    let m1 = PinInit::<Slice<usize>, (), ()>::metadata(&fe);
    let m2 = PinInit::<Slice<usize>, (), ()>::metadata(&fe);
    assert_eq!(m1, m2);
    assert_eq!(m1, 5);
}

#[test]
fn for_each_builds_from_indices() {
    let v = new_vec::<usize, (), _>(slice_for_each(3, |idx: usize| idx * 2 + 1));
    assert_eq!(v, vec![1, 3, 5]);
}

#[test]
fn for_each_array_destination() {
    let b = new_boxed::<Array<usize, 3>, (), _>(array_for_each::<3, _>(|idx: usize| idx * 2 + 1));
    assert_eq!(b.elems, vec![1, 3, 5]);
}

#[test]
fn for_each_fails_at_first() {
    let r = try_new_vec::<u32, &str, _>(slice_for_each(3, |i: usize| {
        if i == 0 { Err("first") } else { Ok(7u32) }
    }));
    assert_eq!(r.unwrap_err(), "first");
}

#[test]
fn for_each_fails_in_middle() {
    let r = try_new_vec::<u32, &str, _>(slice_for_each(3, |i: usize| {
        if i == 1 { Err("middle") } else { Ok(7u32) }
    }));
    assert_eq!(r.unwrap_err(), "middle");
}

#[test]
fn for_each_fails_at_last() {
    let r = try_new_vec::<u32, &str, _>(slice_for_each(3, |i: usize| {
        if i == 2 { Err("last") } else { Ok(7u32) }
    }));
    assert_eq!(r.unwrap_err(), "last");
}

#[test]
fn nested_for_each_composes() {
    let b = new_boxed::<Array<Array<usize, 2>, 2>, (), _>(array_for_each::<2, _>(|x: usize| {
        array_for_each::<2, _>(move |y: usize| x * 10 + y)
    }));
    assert_eq!(b.elems[0].elems, vec![0, 1]);
    assert_eq!(b.elems[1].elems, vec![10, 11]);
}

#[test]
fn repeat_fills_every_slot() {
    let v = new_vec::<u32, (), _>(slice_repeat(4, 9u32));
    assert_eq!(v, vec![9, 9, 9, 9]);
    let b = new_boxed::<Array<u32, 3>, (), _>(array_repeat::<3, _>(1u32));
    assert_eq!(b.elems, vec![1, 1, 1]);
}

#[test]
fn chain_concatenates_sequences() {
    let v = new_vec::<u32, (), _>(chain(vec![1u32, 2], vec![3u32, 4, 5]));
    assert_eq!(v, vec![1, 2, 3, 4, 5]);
}

#[test]
fn chain_metadata_is_sum() {
    let c = chain(vec![1u32, 2], vec![3u32, 4, 5]);
    let m = PinInit::<Slice<u32>, (), ()>::metadata(&c);
    assert_eq!(m, 5);
}

#[test]
fn chain_first_failure_propagates() {
    let c = chain(fail::<Slice<u32>, &str>("one"), vec![3u32]);
    assert_eq!(try_new_vec::<u32, &str, _>(c).unwrap_err(), "one");
}

#[test]
fn chain_second_failure_propagates() {
    let ok: Vec<u32> = vec![1];
    let c = chain(succeed::<Slice<u32>, (), _>(ok), fail::<Slice<u32>, &str>("two"));
    assert_eq!(try_new_vec::<u32, &str, _>(c).unwrap_err(), "two");
}

#[test]
fn fail_reports_its_error() {
    let r = try_new_boxed::<u32, &str, _>(fail::<u32, &str>("always"));
    assert_eq!(r.unwrap_err(), "always");
}

#[test]
fn fail_with_meta_reports_claimed_size() {
    let f = Fail::<Slice<u32>, &str>::new_with_meta(7, "e");
    let m = PinInit::<Slice<u32>, &str, ()>::metadata(&f);
    assert_eq!(m, 7);
}

#[test]
fn succeed_adapts_error_type() {
    let b = try_new_boxed::<u32, String, _>(succeed::<u32, (), u32>(5u32)).unwrap();
    assert_eq!(*b, 5);
}

#[test]
fn map_err_retypes_the_error() {
    let d = map_err(|e: &str| format!("got {e}"), fail::<u32, &str>("bad"));
    let r = try_new_boxed::<u32, String, _>(d);
    assert_eq!(r.unwrap_err(), "got bad");
}

#[test]
fn with_supplies_descriptor_from_context() {
    let d = in_place_init::with(|x: u32| x + 1);
    let b = new_boxed::<u32, (), _>(with_extra(d, 6u32));
    assert_eq!(*b, 7);
}

#[test]
fn try_with_failure_builds_nothing() {
    let d = in_place_init::try_with(|x: u32| {
        if x == 0 { Err("zero") } else { Ok(x) }
    });
    let r = try_new_boxed::<u32, &str, _>(with_extra(d, 0u32));
    assert_eq!(r.unwrap_err(), "zero");
    let d2 = in_place_init::try_with(|x: u32| {
        if x == 0 { Err("zero") } else { Ok(x) }
    });
    let b = try_new_boxed::<u32, &str, _>(with_extra(d2, 3u32)).unwrap();
    assert_eq!(*b, 3);
}

#[test]
fn ignore_extra_drops_the_context() {
    let d = with_extra(ignore_extra::<u32, _>(7u32), 99u32);
    let b = new_boxed::<u32, (), _>(d);
    assert_eq!(*b, 7);
}

#[test]
fn map_extra_transforms_the_context() {
    let inner = in_place_init::with(|x: u32| x * 10);
    let d = map_extra(
        |s: &str| s.parse::<u32>().map_err(|_| "not a number"),
        inner,
    );
    let b = try_new_boxed::<u32, &str, _>(with_extra(d, "4")).unwrap();
    assert_eq!(*b, 40);
    let inner2 = in_place_init::with(|x: u32| x * 10);
    let d2 = map_extra(
        |s: &str| s.parse::<u32>().map_err(|_| "not a number"),
        inner2,
    );
    let r = try_new_boxed::<u32, &str, _>(with_extra(d2, "x"));
    assert_eq!(r.unwrap_err(), "not a number");
}

#[test]
fn then_runs_the_hook() {
    let d = then(5u32, |v: u32| -> Result<u32, ()> { Ok(v + 1) });
    let b = try_new_boxed::<u32, (), _>(d).unwrap();
    assert_eq!(*b, 6);
}

#[test]
fn then_hook_failure_discards_the_value() {
    let d = then(5u32, |_v: u32| -> Result<u32, &'static str> { Err("rejected") });
    let r = try_new_boxed::<u32, &str, _>(d);
    assert_eq!(r.unwrap_err(), "rejected");
}

#[test]
fn then_pinned_runs_the_hook() {
    let d = in_place_init::then_pinned(5u32, |v: u32| -> Result<u32, ()> { Ok(v * 2) });
    let b = in_place_init::try_new_pinned::<u32, (), _>(d).unwrap();
    assert_eq!(*b, 10);
}

#[test]
fn assert_pinned_upgrades_a_descriptor() {
    let d = AssertPinned::<u32, (), (), u32>::new(8u32);
    assert_eq!(*new_boxed::<u32, (), _>(d), 8);
    let d2 = AssertPinned::<u32, (), (), u32>::new_unpin(9u32);
    assert_eq!(*new_boxed::<u32, (), _>(d2), 9);
}

#[test]
fn ext_methods_build_the_same_combinators() {
    let c = in_place_init::PinInitExt::<u32, (), ()>::init_chain(1u32, 2u32);
    let _ = c;
    let m = fail::<u32, &str>("e").init_map_err(|e: &str| e.len());
    let r = try_new_boxed::<u32, usize, _>(m);
    assert_eq!(r.unwrap_err(), 1);
    let d = <u32 as PinInitExt<u32, (), ()>>::init_ignore_extra(5u32);
    let b = new_boxed::<u32, (), _>(with_extra(d, 1u8));
    assert_eq!(*b, 5);
}

#[test]
fn uninit_builds_vacant_slots() {
    let b = new_boxed::<Slot<u32>, (), _>(uninit::<u32>());
    assert!(!b.is_filled());
    let v = new_vec::<Slot<u32>, (), _>(Uninit::<Slot<u32>>::new_slice(2));
    assert_eq!(v.len(), 2);
    assert!(!v[0].is_filled());
    assert!(!v[1].is_filled());
}

#[test]
fn zeroed_builds_zero_values() {
    let b = new_boxed::<u32, (), _>(zeroed::<u32>());
    assert_eq!(*b, 0);
    let v = new_vec::<u64, (), _>(Zeroed::<u64>::new_slice(4));
    assert_eq!(v, vec![0, 0, 0, 0]);
    let t = in_place_init::new_string::<(), _>(Zeroed::<Text>::new_str(3));
    assert_eq!(t.as_bytes(), &vec![0u8, 0, 0]);
}

#[test]
fn from_iter_builds_in_order() {
    let v = new_vec::<i32, in_place_init::InitFromIterError, _>(FromIter::new(vec![3, 1, 2]));
    assert_eq!(v, vec![3, 1, 2]);
}

#[test]
fn array_source_fills_a_sequence() {
    let a = Array::<u8, 3>::from_vec(vec![7, 8, 9]);
    let v = new_vec::<u8, (), _>(a);
    assert_eq!(v, vec![7, 8, 9]);
}

#[test]
fn for_slice_adapts_an_array_descriptor() {
    let a = Array::<u8, 2>::from_vec(vec![1, 2]);
    let v = new_vec::<u8, (), _>(for_slice::<2, _>(a));
    assert_eq!(v, vec![1, 2]);
}

#[test]
fn unsize_presents_an_array_as_a_sequence() {
    let a = Array::<u16, 2>::from_vec(vec![10, 20]);
    let d = unsize::<Array<u16, 2>, Slice<u16>, _>(a);
    let v = new_vec::<u16, (), _>(d);
    assert_eq!(v, vec![10, 20]);
}

#[test]
fn flatten_preserves_row_major_order() {
    let rows = vec![
        Array::<u32, 2>::from_vec(vec![1, 2]),
        Array::<u32, 2>::from_vec(vec![3, 4]),
        Array::<u32, 2>::from_vec(vec![5, 6]),
    ];
    let grid = Array::<Array<u32, 2>, 3>::from_vec(rows);
    let d = in_place_init::flatten::<u32, 2, 3, 6, _>(grid);
    let v = new_vec::<u32, (), _>(d);
    assert_eq!(v, vec![1, 2, 3, 4, 5, 6]);
}

#[test]
fn flatten_slice_of_rows() {
    let rows = vec![
        Array::<u8, 3>::from_vec(vec![1, 2, 3]),
        Array::<u8, 3>::from_vec(vec![4, 5, 6]),
    ];
    let d = in_place_init::flatten_slice::<u8, 3, _>(rows);
    let v = new_vec::<u8, (), _>(d);
    assert_eq!(v, vec![1, 2, 3, 4, 5, 6]);
    let m = PinInit::<Slice<u8>, (), ()>::metadata(&in_place_init::flatten_slice::<u8, 3, _>(
        vec![Array::<u8, 3>::from_vec(vec![1, 2, 3])],
    ));
    assert_eq!(m, 3);
}

#[test]
fn flatten_rejects_a_wrong_total() {
    let rows = vec![
        Array::<u32, 2>::from_vec(vec![1, 2]),
        Array::<u32, 2>::from_vec(vec![3, 4]),
        Array::<u32, 2>::from_vec(vec![5, 6]),
    ];
    let grid = Array::<Array<u32, 2>, 3>::from_vec(rows);
    let r = try_flatten::<u32, 2, 3, 7, _>(grid);
    assert!(r.is_err());
}

#[test]
fn initialize_fills_a_slot() {
    let mut slot: Slot<u32> = Slot::new();
    initialize::<u32, (), _>(&mut slot, 11u32);
    assert!(slot.is_filled());
    assert_eq!(slot.take(), 11);
}

#[test]
fn try_initialize_leaves_the_slot_vacant_on_failure() {
    let mut slot: Slot<u32> = Slot::new();
    let r = try_initialize::<u32, &str, _>(&mut slot, fail::<u32, &str>("no"));
    assert_eq!(r.unwrap_err(), "no");
    assert!(!slot.is_filled());
}

#[test]
fn initialize_pinned_fills_a_slot() {
    let mut slot: Slot<u32> = Slot::new();
    in_place_init::initialize_pinned::<u32, (), _>(&mut slot, 21u32);
    assert!(slot.is_filled());
}

use in_place_init::shape::Slice;
use in_place_init::text::Text;
use in_place_init::{
    Builder, RcHeap, StringExt, VecExt, Weak, fail, new_boxed_in, new_pinned, new_pinned_in,
    new_vec, rc_new, rc_new_cyclic, rc_new_cyclic_pinned, rc_new_pinned, slice_for_each_with,
    try_new_boxed_in, try_new_pinned_in, try_new_vec, try_rc_new, try_rc_new_cyclic,
    try_rc_new_cyclic_pinned, try_rc_new_pinned, with,
};

struct Node {
    weak: Weak<Node>,
}

#[test]
fn boxed_variants_build_the_value() {
    assert_eq!(*try_new_boxed_in::<u32, (), _, _>(4u32, ()).unwrap(), 4);
    assert_eq!(*try_new_pinned_in::<u32, (), _, _>(5u32, ()).unwrap(), 5);
    assert_eq!(*new_boxed_in::<u32, (), _, _>(6u32, ()), 6);
    assert_eq!(*new_pinned_in::<u32, (), _, _>(7u32, ()), 7);
    assert_eq!(*new_pinned::<u32, (), _>(8u32), 8);
}

#[test]
fn vec_engine_round_trips() {
    assert_eq!(new_vec::<u8, (), _>(vec![1u8, 2]), vec![1, 2]);
    let r = try_new_vec::<u8, &str, _>(fail::<Slice<u8>, &str>("v"));
    assert_eq!(r.unwrap_err(), "v");
}

#[test]
fn rc_build_then_drop_releases_once() {
    let mut heap: RcHeap<u32> = RcHeap::new();
    let rc = rc_new::<u32, (), _>(&mut heap, 40u32);
    assert_eq!(heap.allocation_count(), 1);
    assert_eq!(heap.live_count(), 1);
    assert_eq!(*heap.get(&rc), 40);
    assert_eq!(heap.strong_count(rc.idx), 1);
    assert_eq!(heap.weak_count(rc.idx), 1);
    let idx = rc.idx;
    let dropped = heap.drop_strong(rc);
    assert_eq!(dropped, Some(40));
    assert_eq!(heap.live_count(), 0);
    assert_eq!(heap.strong_count(idx), 0);
    assert_eq!(heap.weak_count(idx), 0);
}

#[test]
fn rc_failed_build_frees_the_cell() {
    let mut heap: RcHeap<u32> = RcHeap::new();
    let r = try_rc_new::<u32, &str, _>(&mut heap, fail::<u32, &str>("boom"));
    match r {
        Err(e) => assert_eq!(e, "boom"),
        Ok(_) => panic!("construction must fail"),
    }
    assert_eq!(heap.allocation_count(), 1);
    assert_eq!(heap.live_count(), 0);
    assert_eq!(heap.strong_count(0), 0);
    assert_eq!(heap.weak_count(0), 0);
}

#[test]
fn rc_pinned_variants_build() {
    let mut heap: RcHeap<u32> = RcHeap::new();
    let a = try_rc_new_pinned::<u32, (), _>(&mut heap, 1u32).unwrap();
    let b = rc_new_pinned::<u32, (), _>(&mut heap, 2u32);
    assert_eq!(*heap.get(&a), 1);
    assert_eq!(*heap.get(&b), 2);
}

#[test]
fn cyclic_weak_upgrades_to_the_same_allocation() {
    let mut heap: RcHeap<Node> = RcHeap::new();
    let rc = rc_new_cyclic::<Node, (), _>(&mut heap, with(|weak: Weak<Node>| Node { weak }));
    assert_eq!(heap.strong_count(rc.idx), 1);
    assert_eq!(heap.weak_count(rc.idx), 2);
    let stored = heap.get(&rc).weak;
    let rc2 = heap.upgrade(&stored).expect("value exists, upgrade succeeds");
    assert_eq!(rc2.idx, rc.idx);
    assert_eq!(heap.strong_count(rc.idx), 2);
    heap.drop_strong(rc2);
    assert_eq!(heap.strong_count(rc.idx), 1);
}

#[test]
fn cyclic_failed_build_frees_the_cell() {
    let mut heap: RcHeap<Node> = RcHeap::new();
    let r = try_rc_new_cyclic::<Node, &str, _>(
        &mut heap,
        in_place_init::try_with(|_weak: Weak<Node>| Err::<Node, &str>("cycle broken")),
    );
    match r {
        Err(e) => assert_eq!(e, "cycle broken"),
        Ok(_) => panic!("construction must fail"),
    }
    assert_eq!(heap.live_count(), 0);
    assert_eq!(heap.weak_count(0), 0);
}

#[test]
fn cyclic_pinned_variants_build() {
    let mut heap: RcHeap<Node> = RcHeap::new();
    let a = try_rc_new_cyclic_pinned::<Node, (), _>(
        &mut heap,
        with(|weak: Weak<Node>| Node { weak }),
    )
    .unwrap();
    let b = rc_new_cyclic_pinned::<Node, (), _>(&mut heap, with(|weak: Weak<Node>| Node { weak }));
    assert_eq!(heap.get(&a).weak.idx, a.idx);
    assert_eq!(heap.get(&b).weak.idx, b.idx);
}

struct Indexed {
    idx: usize,
    weak: Weak<Slice<Indexed>>,
}

#[test]
fn cyclic_sequence_hands_every_element_the_handle() {
    let mut heap: RcHeap<Slice<Indexed>> = RcHeap::new();
    let rc = rc_new_cyclic::<Slice<Indexed>, (), _>(
        &mut heap,
        slice_for_each_with(3, |idx: usize, weak: Weak<Slice<Indexed>>| Indexed { idx, weak }),
    );
    let items = &heap.get(&rc).elems;
    assert_eq!(items.len(), 3);
    for (k, item) in items.iter().enumerate() {
        assert_eq!(item.idx, k);
        assert_eq!(item.weak.idx, rc.idx);
    }
    let stored = items[1].weak;
    let rc2 = heap.upgrade(&stored).unwrap();
    assert_eq!(rc2.idx, rc.idx);
}

#[test]
fn weak_upgrade_fails_after_release() {
    let mut heap: RcHeap<Node> = RcHeap::new();
    let rc = rc_new_cyclic::<Node, (), _>(&mut heap, with(|weak: Weak<Node>| Node { weak }));
    let stored = heap.get(&rc).weak;
    heap.drop_strong(rc);
    assert!(heap.upgrade(&stored).is_none());
}

#[test]
fn clone_strong_counts_owners() {
    let mut heap: RcHeap<u32> = RcHeap::new();
    let a = rc_new::<u32, (), _>(&mut heap, 3u32);
    let b = heap.clone_strong(&a);
    assert_eq!(heap.strong_count(a.idx), 2);
    assert_eq!(heap.drop_strong(a), None);
    assert_eq!(heap.live_count(), 1);
    assert_eq!(heap.drop_strong(b), Some(3));
    assert_eq!(heap.live_count(), 0);
}

#[test]
fn clone_and_drop_weak_count_handles() {
    let mut heap: RcHeap<Node> = RcHeap::new();
    let rc = rc_new_cyclic::<Node, (), _>(&mut heap, with(|weak: Weak<Node>| Node { weak }));
    let stored = heap.get(&rc).weak;
    let w2 = heap.clone_weak(&stored);
    assert_eq!(heap.weak_count(rc.idx), 3);
    heap.drop_weak(w2);
    assert_eq!(heap.weak_count(rc.idx), 2);
}

#[test]
fn rc_sequence_failure_frees_everything() {
    for failing in 0..3usize {
        let mut heap: RcHeap<Slice<u32>> = RcHeap::new();
        let r = try_rc_new::<Slice<u32>, &str, _>(
            &mut heap,
            in_place_init::slice_for_each(3, move |i: usize| {
                if i == failing { Err("step") } else { Ok(4u32) }
            }),
        );
        assert!(r.is_err());
        assert_eq!(heap.allocation_count(), 1);
        assert_eq!(heap.live_count(), 0);
        assert_eq!(heap.weak_count(0), 0);
    }
}

#[test]
fn builder_builds_every_shape() {
    let b = Builder::new(5u32).build_box::<u32, ()>();
    assert_eq!(*b, 5);
    let p = Builder::new(6u32).build_pinned_box::<u32, ()>();
    assert_eq!(*p, 6);
    let v = Builder::new(vec![1u8, 2]).build_vec::<u8, ()>();
    assert_eq!(v, vec![1, 2]);
    let r = Builder::new(fail::<u32, &str>("b")).try_build_box::<u32, &str>();
    assert_eq!(r.unwrap_err(), "b");
}

#[test]
fn builder_carries_alloc_and_extra() {
    let d = in_place_init::with(|x: u32| x + 1);
    let b = Builder::new(d).with_alloc(()).with_extra(9u32).build_box::<u32, ()>();
    assert_eq!(*b, 10);
}

#[test]
fn builder_builds_shared_values() {
    let mut heap: RcHeap<u32> = RcHeap::new();
    let rc = Builder::new(4u32).build_rc::<u32, ()>(&mut heap);
    assert_eq!(*heap.get(&rc), 4);
    let rc2 = Builder::new(5u32).build_pinned_rc::<u32, ()>(&mut heap);
    assert_eq!(*heap.get(&rc2), 5);
}

#[test]
fn builder_builds_cyclic_shared_values() {
    let mut heap: RcHeap<Node> = RcHeap::new();
    let rc = Builder::new(with(|weak: Weak<Node>| Node { weak }))
        .build_cyclic_rc::<Node, ()>(&mut heap);
    let stored = heap.get(&rc).weak;
    let rc2 = heap.upgrade(&stored).unwrap();
    assert_eq!(rc2.idx, rc.idx);
}

struct Tagged {
    weak: Weak<Tagged>,
    tag: u32,
}

#[test]
fn builder_cyclic_with_extra_context() {
    let mut heap: RcHeap<Tagged> = RcHeap::new();
    let rc = Builder::new(with(|ctx: (Weak<Tagged>, u32)| Tagged { weak: ctx.0, tag: ctx.1 }))
        .with_extra(77u32)
        .build_cyclic_rc_with::<Tagged, ()>(&mut heap);
    assert_eq!(heap.get(&rc).tag, 77);
    assert_eq!(heap.get(&rc).weak.idx, rc.idx);
}

#[test]
fn push_emplace_appends_one_element() {
    let mut v: Vec<u32> = vec![1];
    v.push_emplace::<(), _>(2u32);
    assert_eq!(v, vec![1, 2]);
}

#[test]
fn try_push_emplace_failure_leaves_the_vector() {
    let mut v: Vec<u32> = vec![1];
    let r = v.try_push_emplace::<&str, _>(Result::<u32, &str>::Err("no"));
    assert_eq!(r.unwrap_err(), "no");
    assert_eq!(v, vec![1]);
}

#[test]
fn append_emplace_appends_a_sequence() {
    let mut v: Vec<u32> = vec![1];
    v.append_emplace::<(), _>(vec![2u32, 3]);
    assert_eq!(v, vec![1, 2, 3]);
}

#[test]
fn try_append_emplace_failure_leaves_the_vector() {
    let mut v: Vec<u32> = vec![1];
    let r = v.try_append_emplace::<&str, _>(fail::<Slice<u32>, &str>("seq"));
    assert_eq!(r.unwrap_err(), "seq");
    assert_eq!(v, vec![1]);
}

#[test]
fn extend_emplace_appends_each_built_element() {
    let mut v: Vec<u32> = vec![0];
    v.extend_emplace::<(), _>(vec![1u32, 2, 3]);
    assert_eq!(v, vec![0, 1, 2, 3]);
}

#[test]
fn try_extend_emplace_stops_at_the_first_failure() {
    let mut v: Vec<u32> = vec![0];
    let inits: Vec<Result<u32, &str>> = vec![Ok(5), Err("mid"), Ok(7)];
    let r = v.try_extend_emplace::<&str, _>(inits);
    assert_eq!(r.unwrap_err(), "mid");
    assert_eq!(v, vec![0, 5]);
}

#[test]
fn string_append_emplace_extends_in_place() {
    let mut t = Text::from_vec(b"ab".to_vec()).unwrap();
    let tail = Text::from_vec(b"cd".to_vec()).unwrap();
    t.append_emplace::<(), _>(&tail);
    assert_eq!(t.as_bytes(), &b"abcd".to_vec());
}

#[test]
fn string_try_append_failure_leaves_the_text() {
    let mut t = Text::from_vec(b"ab".to_vec()).unwrap();
    let r = t.try_append_emplace::<&str, _>(fail::<Text, &str>("t"));
    assert_eq!(r.unwrap_err(), "t");
    assert_eq!(t.as_bytes(), &b"ab".to_vec());
}

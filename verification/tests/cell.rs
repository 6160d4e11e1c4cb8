use keystone::cell::RefCell;

#[test]
fn basic() {
    let mut r = RefCell::new((1, 2));

    let s = r.try_borrow();
    assert!(s.is_some());
    r.release(s.unwrap());

    let m = r.try_borrow_mut();
    assert!(m.is_some());
    r.release_mut(m.unwrap());

    let s = r.borrow();
    assert_eq!(*r.get(&s), (1, 2));
    r.release(s);

    let m = r.borrow_mut();
    assert_eq!(*r.get_mut(&m), (1, 2));
    r.release_mut(m);

    let s1 = r.borrow();
    let first = r.get(&s1).1;
    let s2 = r.borrow();
    let second = r.get(&s2).0 + r.get(&s2).1;
    let v = (first, second);
    r.release(s1);
    r.release(s2);

    let m = r.borrow_mut();
    *r.get_mut(&m) = v;
    r.release_mut(m);

    let s = r.borrow();
    assert_eq!(*r.get(&s), (2, 3));
    r.release(s);
}

#[test]
fn shared_nand_mut() {
    let mut r = RefCell::new((1, 2));

    let s1 = r.borrow();
    let s2 = r.borrow();
    let s3 = r.duplicate(&s2);
    let t = r.try_borrow();
    assert!(t.is_some());
    r.release(t.unwrap());
    assert!(r.try_borrow_mut().is_none());

    r.release(s1);
    r.release(s2);
    r.release(s3);
    let t = r.try_borrow();
    assert!(t.is_some());
    r.release(t.unwrap());
    let t = r.try_borrow_mut();
    assert!(t.is_some());
    r.release_mut(t.unwrap());

    let m1 = r.borrow_mut();
    assert!(r.try_borrow().is_none());
    assert!(r.try_borrow_mut().is_none());

    r.release_mut(m1);
    let t = r.try_borrow();
    assert!(t.is_some());
    r.release(t.unwrap());
    let t = r.try_borrow_mut();
    assert!(t.is_some());
    r.release_mut(t.unwrap());
}

#[test]
fn three_shared_leases_then_reopen() {
    let mut r = RefCell::new((1, 2));

    let s1 = r.borrow();
    let s2 = r.borrow();
    let s3 = r.duplicate(&s2);
    assert_eq!(*r.get(&s3), (1, 2));

    let extra = r.try_borrow();
    assert!(extra.is_some());
    r.release(extra.unwrap());
    assert!(r.try_borrow_mut().is_none());

    r.release(s1);
    r.release(s2);
    r.release(s3);

    let s = r.try_borrow();
    assert!(s.is_some());
    r.release(s.unwrap());
    let m = r.try_borrow_mut();
    assert!(m.is_some());
    r.release_mut(m.unwrap());
}

#[test]
fn exclusive_lease_blocks_everything() {
    let mut r = RefCell::new(7u32);

    let m1 = r.borrow_mut();
    assert!(r.try_borrow().is_none());
    assert!(r.try_borrow_mut().is_none());

    *r.get_mut(&m1) = 8;
    r.release_mut(m1);

    let s = r.try_borrow();
    assert!(s.is_some());
    let lease = s.unwrap();
    assert_eq!(*r.get(&lease), 8);
    r.release(lease);
    let m = r.try_borrow_mut();
    assert!(m.is_some());
    r.release_mut(m.unwrap());
}

#[test]
fn release_last_shared_reopens_exclusive() {
    let mut r = RefCell::new(String::from("payload"));

    let s = r.borrow();
    assert!(r.try_borrow_mut().is_none());
    r.release(s);

    let m = r.try_borrow_mut();
    assert!(m.is_some());
    r.release_mut(m.unwrap());
}

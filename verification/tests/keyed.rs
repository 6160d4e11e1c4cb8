use keystone::keyed::Key;
use keystone::keyed::Key16;
use keystone::keyed::Key8;
use keystone::keyed::KRange;
use keystone::keyed::vec::KVec;

#[test]
fn key_round_trip() {
    assert_eq!(Key8::limit(), 256);
    assert_eq!(Key16::limit(), 65536);
    for i in [0usize, 1, 17, 255] {
        assert_eq!(Key8::from_usize(i).to_usize(), i);
    }
    for i in [0usize, 256, 65535] {
        assert_eq!(Key16::from_usize(i).to_usize(), i);
    }
}

#[test]
fn capacity_limit() {
    // Pushing LIMIT - 1 elements succeeds with ascending identities; the
    // next push reports the capacity error and changes nothing.
    let mut v: KVec<Key8, usize> = KVec::new();
    for i in 0..255usize {
        let k = v.try_push(i * 10).expect("push below the limit must succeed");
        assert_eq!(k.to_usize(), i);
    }
    assert_eq!(v.len(), 255);
    assert_eq!(v.try_push(999), Err(()));
    assert_eq!(v.len(), 255);
    assert_eq!(v.try_push(999), Err(()));
    assert_eq!(v.len(), 255);
    // The elements are untouched by the failed pushes.
    for i in 0..255usize {
        assert_eq!(v.get(Key8::from_usize(i)), Some(&(i * 10)));
    }
}

#[test]
fn push_returns_prior_len_and_next_key() {
    let mut v: KVec<Key16, &str> = KVec::new();
    for (i, word) in ["a", "b", "c", "d"].into_iter().enumerate() {
        let predicted = v.next_key();
        let len_before = v.len();
        let k = v.try_push(word).unwrap();
        assert_eq!(k.to_usize(), len_before);
        assert_eq!(predicted, k);
        assert_eq!(k.to_usize(), i);
    }
}

#[test]
fn push_f_spans_exactly_the_batch() {
    let mut v: KVec<Key8, u32> = KVec::new();
    let first = v.push(1);
    assert_eq!(first.to_usize(), 0);

    let span = v.push_f(|v: &mut KVec<Key8, u32>| {
        v.push(10);
        v.push(20);
        v.push(30);
    });
    assert_eq!(span.len(), 3);
    assert_eq!(span.begin().to_usize(), 1);
    assert_eq!(span.end().to_usize(), 4);
    assert!(!span.is_empty());
    assert!(span.contains(Key8::from_usize(2)));
    assert!(!span.contains(first));
    assert!(!span.contains(v.next_key()));

    let empty = v.push_f(|_: &mut KVec<Key8, u32>| {});
    assert_eq!(empty.len(), 0);
    assert!(empty.is_empty());
    assert_eq!(empty.begin(), empty.end());
}

#[test]
fn push_round_trip() {
    let mut v: KVec<Key8, String> = KVec::new();
    let mut handed_out = Vec::new();
    for word in ["zero", "one", "two", "three"] {
        let k = v.try_push(String::from(word)).unwrap();
        handed_out.push((k, word));
    }
    for (k, word) in handed_out {
        assert_eq!(v.get(k).map(String::as_str), Some(word));
    }
}

#[test]
fn get_out_of_range_is_none() {
    let mut v: KVec<Key8, u8> = KVec::with_cap(4);
    assert_eq!(v.get(Key8::from_usize(0)), None);
    v.push(42);
    assert_eq!(v.get(Key8::from_usize(0)), Some(&42));
    assert_eq!(v.get(Key8::from_usize(1)), None);
    assert_eq!(v.get(Key8::from_usize(200)), None);
}

#[test]
fn set_overwrites_in_place() {
    let mut v: KVec<Key8, i64> = KVec::new();
    let a = v.push(-1);
    let b = v.push(-2);
    v.set(a, 5);
    assert_eq!(v.get(a), Some(&5));
    assert_eq!(v.get(b), Some(&-2));
    assert_eq!(v.len(), 2);
}

#[test]
fn range_covers_everything() {
    let mut v: KVec<Key16, u8> = KVec::new();
    let r = v.range();
    assert!(r.is_empty());
    v.push(1);
    v.push(2);
    v.push(3);
    let r = v.range();
    assert_eq!(r.begin().to_usize(), 0);
    assert_eq!(r.end().to_usize(), 3);
    assert_eq!(r.len(), 3);
    assert!(r.contains(Key16::from_usize(0)));
    assert!(r.contains(Key16::from_usize(2)));
    assert!(!r.contains(Key16::from_usize(3)));
}

#[test]
fn krange_new_and_contains() {
    let r: KRange<Key8> = KRange::new(Key8::from_usize(2), Key8::from_usize(5));
    assert_eq!(r.len(), 3);
    assert!(!r.contains(Key8::from_usize(1)));
    assert!(r.contains(Key8::from_usize(2)));
    assert!(r.contains(Key8::from_usize(4)));
    assert!(!r.contains(Key8::from_usize(5)));
}

#[test]
fn storage_views() {
    let mut v: KVec<Key8, u16> = KVec::with_cap(3);
    v.push(7);
    v.push(8);
    assert_eq!(v.as_slice(), &[7, 8]);
    assert_eq!(v.inner().as_slice(), &[7, 8]);

    let s = v.as_slice_mut();
    s[0] = 70;
    assert_eq!(v.get(Key8::from_usize(0)), Some(&70));

    let raw = v.into_inner();
    assert_eq!(raw, vec![70, 8]);
}

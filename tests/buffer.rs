use std::cell::RefCell;
use std::rc::Rc;

use raw_vec::RawVec;

fn filled(n: u32) -> RawVec<u32> {
    let mut v = RawVec::new();
    for k in 0..n {
        v.push(k * 10);
    }
    v
}

#[test]
fn empty_buffer_has_nothing_reserved() {
    let v: RawVec<u32> = RawVec::new();
    assert_eq!(v.len(), 0);
    assert_eq!(v.cap(), 0);
}

#[test]
fn capacity_follows_growth_steps() {
    let mut v = RawVec::new();
    let expected = [1, 2, 3, 4, 6, 6, 9, 9, 9, 13];
    for (k, want) in expected.iter().enumerate() {
        v.push(k as u8);
        assert_eq!(v.len(), k + 1);
        assert_eq!(v.cap(), *want);
    }
}

#[test]
fn capacity_never_shrinks_and_covers_length() {
    let mut v = RawVec::new();
    let mut last = v.cap();
    for k in 0..1000u64 {
        v.push(k);
        assert!(v.cap() >= last);
        assert!(v.cap() >= v.len());
        last = v.cap();
    }
    assert_eq!(v.len(), 1000);
}

#[test]
fn pushes_are_read_back_in_order() {
    let v = filled(100);
    assert_eq!(v.len(), 100);
    for i in 0..100usize {
        assert_eq!(v.get(i), Some(&(i as u32 * 10)));
    }
}

#[test]
fn get_and_index_agree_within_bounds() {
    let v = filled(7);
    for i in 0..7usize {
        assert_eq!(v.get(i), Some(v.index(i)));
    }
    for i in 7..20usize {
        assert_eq!(v.get(i), None);
    }
}

#[test]
fn get_on_empty_buffer_is_none() {
    let v: RawVec<String> = RawVec::new();
    assert!(v.get(0).is_none());
}

#[test]
fn get_mut_writes_into_the_slot() {
    let mut v = filled(3);
    if let Some(x) = v.get_mut(1) {
        *x = 99;
    }
    assert_eq!(v.get(0), Some(&0));
    assert_eq!(v.get(1), Some(&99));
    assert_eq!(v.get(2), Some(&20));
    assert!(v.get_mut(3).is_none());
    assert_eq!(v.len(), 3);
}

#[test]
fn index_mut_writes_into_the_slot() {
    let mut v = filled(4);
    *v.index_mut(3) += 5;
    assert_eq!(*v.index(3), 35);
    assert_eq!(*v.index(0), 0);
}

#[test]
fn iter_yields_every_element_in_order() {
    let v = filled(5);
    let mut it = v.iter();
    let mut seen = Vec::new();
    while let Some(x) = it.next() {
        seen.push(*x);
    }
    assert_eq!(seen, vec![0, 10, 20, 30, 40]);
    assert!(it.next().is_none());
    assert_eq!(v.iter().next(), Some(&0));
}

#[test]
fn iter_on_empty_buffer_yields_nothing() {
    let v: RawVec<u32> = RawVec::new();
    assert!(v.iter().next().is_none());
}

#[test]
fn iter_mut_overwrites_each_with_successor() {
    let mut v = RawVec::new();
    v.push('A');
    v.push('B');
    v.push('C');
    let mut it = v.iter_mut();
    let mut count = 0;
    while let Some(c) = it.next() {
        *c = ((*c as u8) + 1) as char;
        count += 1;
    }
    assert!(it.next().is_none());
    assert_eq!(count, 3);
    assert_eq!(v.get(0), Some(&'B'));
    assert_eq!(v.get(1), Some(&'C'));
    assert_eq!(v.get(2), Some(&'D'));
    assert_eq!(*v.index(2), 'D');
}

#[test]
fn iter_mut_stops_at_length_then_buffer_grows_on() {
    let mut v = filled(2);
    {
        let mut it = v.iter_mut();
        let first = it.next().unwrap();
        *first = 7;
    }
    v.push(1);
    assert_eq!(v.len(), 3);
    assert_eq!(v.cap(), 3);
    assert_eq!(v.get(0), Some(&7));
    assert_eq!(v.get(1), Some(&10));
}

struct Noisy {
    id: usize,
    log: Rc<RefCell<Vec<usize>>>,
}

impl Drop for Noisy {
    fn drop(&mut self) {
        self.log.borrow_mut().push(self.id);
    }
}

#[test]
fn dropping_destroys_each_element_once_in_order() {
    let log = Rc::new(RefCell::new(Vec::new()));
    {
        let mut v = RawVec::new();
        for id in 0..5 {
            v.push(Noisy { id, log: Rc::clone(&log) });
        }
        assert!(log.borrow().is_empty());
    }
    assert_eq!(*log.borrow(), vec![0, 1, 2, 3, 4]);
}

#[test]
fn dropping_an_empty_buffer_is_harmless() {
    let log: Rc<RefCell<Vec<usize>>> = Rc::new(RefCell::new(Vec::new()));
    {
        let v: RawVec<Noisy> = RawVec::new();
        assert_eq!(v.cap(), 0);
    }
    assert!(log.borrow().is_empty());
}

#[test]
fn owned_heap_values_survive_growth() {
    let mut v = RawVec::new();
    for k in 0..50 {
        v.push(format!("item{}", k));
    }
    assert_eq!(v.get(0).map(|s| s.as_str()), Some("item0"));
    assert_eq!(v.get(49).map(|s| s.as_str()), Some("item49"));
    assert_eq!(v.cap(), 63);
}

#[test]
fn zero_sized_elements_are_counted() {
    let mut v = RawVec::new();
    for _ in 0..10 {
        v.push(());
    }
    assert_eq!(v.len(), 10);
    assert_eq!(v.cap(), 13);
    assert_eq!(v.get(9), Some(&()));
    assert_eq!(v.get(10), None);
}

use seqvec::RawVec;
use seqvec::Vec;

#[test]
fn grow() {
    let mut a = RawVec::<usize>::new();
    a.grow();
    assert!(a.capacity() == 1);
    a.grow();
    assert!(a.capacity() == 2);
    println!("OK!");
}

#[test]
fn lib_push_pop() {
    let mut a = Vec::new();
    let n: usize = 1000000;
    for i in 0..n {
        a.push(Box::new(i));
        assert_eq!(**a.get(i), i);
    }
    for i in (0..n).rev() {
        let e = a.pop().unwrap();
        assert_eq!(i, *e);
    }
    assert_eq!(a.pop(), None);
}

#[test]
fn lib_deref() {
    let mut a = Vec::<usize>::new();
    let n: usize = 1000000;
    for i in 0..n {
        a.push(i);
        assert_eq!(*a.get(i), i);
    }
    for i in 0..n {
        assert_eq!(*a.get(i), i);
    }
    for i in 0..n {
        let v = *a.get(i);
        a.set(i, v * 2);
    }
    for i in 0..n {
        assert_eq!(*a.get(i), i * 2);
    }
}

#[test]
fn insert_remove() {
    let mut a = Vec::new();
    let n: usize = 10000;
    for i in 0..n {
        a.insert(0, Box::new(i));
    }
    for i in 0..n {
        assert_eq!(**a.get(i), n - 1 - i);
    }
    assert_eq!(*a.remove(n / 2), n / 2 - 1);
    for _ in 0..(n - 1) {
        a.remove(0);
    }
    assert_eq!(a.len(), 0);
}

#[test]
fn main() {
    let mut a = Vec::<usize>::new();
    a.grow();
    assert!(a.capacity() == 1);
    a.grow();
    assert!(a.capacity() == 2);
    println!("OK!");
}

#[test]
fn main_push_pop() {
    let mut a = Vec::<usize>::new();
    let n: usize = 1000000;
    for i in 0..n {
        a.push(i);
        assert_eq!(*a.get(i), i);
    }
    for i in (0..n).rev() {
        let e = a.pop().unwrap();
        assert_eq!(i, e);
    }
    assert_eq!(a.pop(), None);
}

#[test]
fn main_deref() {
    let mut a = Vec::<usize>::new();
    let n: usize = 1000000;
    for i in 0..n {
        a.push(i);
        assert_eq!(*a.get(i), i);
    }
    for i in 0..n {
        assert_eq!(*a.get(i), i);
    }
    for i in 0..n {
        let v = *a.get(i);
        a.set(i, v * 2);
    }
    for i in 0..n {
        assert_eq!(*a.get(i), i * 2);
    }
}

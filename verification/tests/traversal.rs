use seqvec::Vec;

fn new_seq(n: usize) -> Vec<Box<usize>> {
    let mut a = Vec::new();
    for i in 0..n {
        a.push(Box::new(i));
    }
    a
}

#[test]
fn into_iter() {
    let n: usize = 10000;
    let a = new_seq(n);
    let mut it = a.into_iter();
    let mut j: usize = 0;
    while let Some(i) = it.next() {
        assert_eq!(*i, j);
        j += 1;
    }
    assert_eq!(j, n);
}

#[test]
fn double_ended_iterator() {
    let n: usize = 10000;
    let a = new_seq(n);
    let mut it = a.into_iter();
    let mut j: usize = n;
    while let Some(i) = it.next_back() {
        j -= 1;
        assert_eq!(*i, j);
    }
    assert_eq!(j, 0);
}

#[test]
fn drain() {
    let n: usize = 10000;
    let mut a = new_seq(n);
    let mut b = a.drain();
    let mut j: usize = 0;
    while let Some(i) = b.next() {
        assert_eq!(*i, j);
        j += 1;
    }
    assert_eq!(j, n);
    assert_eq!(a.len(), 0);
}

#[test]
fn size_hint_counts_down() {
    let n: usize = 5;
    let a = new_seq(n);
    let mut it = a.into_iter();
    assert_eq!(it.size_hint(), (5, Some(5)));
    it.next();
    assert_eq!(it.size_hint(), (4, Some(4)));
    it.next_back();
    assert_eq!(it.size_hint(), (3, Some(3)));
}

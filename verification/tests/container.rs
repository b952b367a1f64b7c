use myvec::MyVec;
use std::cell::Cell;
use std::rc::Rc;

#[derive(PartialEq, Debug)]
struct Dropping(usize);

impl Drop for Dropping {
    fn drop(&mut self) {
        println!("Droppin'")
    }
}

/// An element whose finalizer records each run in a shared counter.
struct Counted {
    hits: Rc<Cell<usize>>,
}

impl Drop for Counted {
    fn drop(&mut self) {
        self.hits.set(self.hits.get() + 1);
    }
}

#[test]
fn it_works() {
    let mut vec: MyVec<usize> = MyVec::new();
    vec.push(1usize);
    vec.push(2);
    vec.push(3);
    vec.push(4);
    vec.push(5);

    assert_eq!(vec.capacity(), 8);
    assert_eq!(vec.len(), 5);

    assert_eq!(vec.get(6), None);
    assert_eq!(vec.get(2), Some(&3))
}

#[test]
fn test_dropping() {
    let mut vec: MyVec<Dropping> = MyVec::new();

    vec.push(Dropping(1));
    vec.push(Dropping(2));

    println!("going to get");
    let expected = Some(&Dropping(1));
    assert_eq!(vec.get(0), expected);
    println!("just got");

    assert_eq!(vec.capacity(), 4);
    assert_eq!(vec.len(), 2);
}

#[test]
fn empty_container() {
    let vec: MyVec<u64> = MyVec::new();
    assert_eq!(vec.len(), 0);
    assert_eq!(vec.capacity(), 0);
    assert_eq!(vec.get(0), None);
}

#[test]
fn growth_sequence() {
    let mut vec: MyVec<u32> = MyVec::new();
    let expected: [usize; 17] = [4, 4, 4, 4, 8, 8, 8, 8, 16, 16, 16, 16, 16, 16, 16, 16, 32];
    for i in 0..17u32 {
        vec.push(i);
        assert_eq!(vec.len(), (i + 1) as usize);
        assert_eq!(vec.capacity(), expected[i as usize]);
    }
}

#[test]
fn read_correctness() {
    let mut vec: MyVec<u64> = MyVec::new();
    for i in 0..9u64 {
        vec.push(i * 10);
    }
    for i in 0..9usize {
        assert_eq!(vec.get(i), Some(&((i as u64) * 10)));
    }
    assert_eq!(vec.get(9), None);
    assert_eq!(vec.get(1000), None);
}

#[test]
fn relocation_preserves_contents() {
    let mut vec: MyVec<i32> = MyVec::new();
    vec.push(-1);
    vec.push(-2);
    vec.push(-3);
    vec.push(-4);
    assert_eq!(vec.capacity(), 4);
    assert_eq!(vec.len(), vec.capacity());

    // The fifth insertion lands on a full container and relocates the store.
    vec.push(-5);
    assert_eq!(vec.capacity(), 8);
    assert_eq!(vec.len(), 5);
    assert_eq!(vec.get(0), Some(&-1));
    assert_eq!(vec.get(1), Some(&-2));
    assert_eq!(vec.get(2), Some(&-3));
    assert_eq!(vec.get(3), Some(&-4));
    assert_eq!(vec.get(4), Some(&-5));
}

#[test]
fn finalizers_run_exactly_once() {
    let hits: Rc<Cell<usize>> = Rc::new(Cell::new(0));

    let empty: MyVec<Counted> = MyVec::new();
    drop(empty);
    assert_eq!(hits.get(), 0);

    let mut vec: MyVec<Counted> = MyVec::new();
    for _ in 0..5 {
        vec.push(Counted { hits: Rc::clone(&hits) });
    }
    // Growth from four to eight slots has happened; relocation must not run
    // any finalizer, and the three uninitialized trailing slots never may.
    assert_eq!(hits.get(), 0);
    drop(vec);
    assert_eq!(hits.get(), 5);
}

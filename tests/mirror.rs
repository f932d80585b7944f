use chat_core::mirror::{CorruptionError, Diff, OrderedMirror};

fn contents(m: &OrderedMirror<char>) -> Vec<char> {
    m.items().clone()
}

#[test]
fn example_trace() {
    let mut m: OrderedMirror<char> = OrderedMirror::new();
    assert_eq!(contents(&m), Vec::<char>::new());
    assert_eq!(m.apply(Diff::Append(vec!['A', 'B'])), Ok(()));
    assert_eq!(contents(&m), vec!['A', 'B']);
    assert_eq!(m.apply(Diff::PushFront('C')), Ok(()));
    assert_eq!(contents(&m), vec!['C', 'A', 'B']);
    assert_eq!(m.apply(Diff::Remove(1)), Ok(()));
    assert_eq!(contents(&m), vec!['C', 'B']);
}

#[test]
fn every_operation_matches_a_plain_vec() {
    let mut m: OrderedMirror<char> = OrderedMirror::new();
    let mut model: Vec<char> = Vec::new();

    m.apply(Diff::Append(vec!['a', 'b', 'c'])).unwrap();
    model.extend(vec!['a', 'b', 'c']);
    m.apply(Diff::PushBack('d')).unwrap();
    model.push('d');
    m.apply(Diff::PushFront('z')).unwrap();
    model.insert(0, 'z');
    m.apply(Diff::Insert(2, 'x')).unwrap();
    model.insert(2, 'x');
    m.apply(Diff::Update(0, 'y')).unwrap();
    model[0] = 'y';
    m.apply(Diff::PopFront).unwrap();
    model.remove(0);
    m.apply(Diff::PopBack).unwrap();
    model.pop();
    assert_eq!(contents(&m), model);
    assert_eq!(contents(&m), vec!['a', 'x', 'b', 'c']);

    m.apply(Diff::Truncate(2)).unwrap();
    model.truncate(2);
    assert_eq!(contents(&m), model);
    m.apply(Diff::Truncate(9)).unwrap();
    assert_eq!(contents(&m), vec!['a', 'x']);

    m.apply(Diff::Clear).unwrap();
    assert_eq!(contents(&m), Vec::<char>::new());
    assert_eq!(m.len(), 0);
}

#[test]
fn pops_on_empty_change_nothing() {
    let mut m: OrderedMirror<char> = OrderedMirror::new();
    assert_eq!(m.apply(Diff::PopFront), Ok(()));
    assert_eq!(m.apply(Diff::PopBack), Ok(()));
    assert_eq!(m.len(), 0);
}

#[test]
fn insert_at_end_is_allowed() {
    let mut m: OrderedMirror<char> = OrderedMirror::new();
    assert_eq!(m.apply(Diff::Insert(0, 'a')), Ok(()));
    assert_eq!(m.apply(Diff::Insert(1, 'b')), Ok(()));
    assert_eq!(contents(&m), vec!['a', 'b']);
    assert_eq!(*m.get(1), 'b');
}

#[test]
fn reset_twice_equals_reset_once() {
    let mut once: OrderedMirror<char> = OrderedMirror::new();
    once.apply(Diff::Append(vec!['q', 'r'])).unwrap();
    once.apply(Diff::Reset(vec!['a', 'b', 'c'])).unwrap();

    let mut twice: OrderedMirror<char> = OrderedMirror::new();
    twice.apply(Diff::Append(vec!['q', 'r'])).unwrap();
    twice.apply(Diff::Reset(vec!['a', 'b', 'c'])).unwrap();
    twice.apply(Diff::Reset(vec!['a', 'b', 'c'])).unwrap();

    assert_eq!(contents(&once), vec!['a', 'b', 'c']);
    assert_eq!(contents(&twice), contents(&once));
}

#[test]
fn out_of_bounds_insert_is_corruption() {
    let mut m: OrderedMirror<char> = OrderedMirror::new();
    m.apply(Diff::Append(vec!['a', 'b'])).unwrap();
    assert_eq!(m.apply(Diff::Insert(3, 'x')), Err(CorruptionError { index: 3, len: 2 }));
    assert_eq!(contents(&m), vec!['a', 'b']);
}

#[test]
fn out_of_bounds_update_is_corruption() {
    let mut m: OrderedMirror<char> = OrderedMirror::new();
    m.apply(Diff::Append(vec!['a', 'b'])).unwrap();
    assert_eq!(m.apply(Diff::Update(2, 'x')), Err(CorruptionError { index: 2, len: 2 }));
    assert_eq!(contents(&m), vec!['a', 'b']);
}

#[test]
fn out_of_bounds_remove_is_corruption() {
    let mut m: OrderedMirror<char> = OrderedMirror::new();
    assert_eq!(m.apply(Diff::Remove(0)), Err(CorruptionError { index: 0, len: 0 }));
    assert_eq!(m.len(), 0);
}

#[test]
fn batch_applies_in_order() {
    let mut m: OrderedMirror<char> = OrderedMirror::new();
    let r = m.apply_batch(vec![
        Diff::Append(vec!['A', 'B']),
        Diff::PushFront('C'),
        Diff::Remove(1),
    ]);
    assert_eq!(r, Ok(()));
    assert_eq!(contents(&m), vec!['C', 'B']);
}

#[test]
fn batch_stops_at_corruption_keeping_the_prefix() {
    let mut m: OrderedMirror<char> = OrderedMirror::new();
    let r = m.apply_batch(vec![
        Diff::PushBack('a'),
        Diff::Remove(5),
        Diff::PushBack('b'),
    ]);
    assert_eq!(r, Err(CorruptionError { index: 5, len: 1 }));
    assert_eq!(contents(&m), vec!['a']);
}

use fixed_sequence::sequence::FixedSequence;

#[test]
fn pop_back_undoes_append() {
    let s: FixedSequence<i32, 3> = FixedSequence::from_vec(vec![5, 6, 7]);
    let grown: FixedSequence<i32, 4> = s.append(8);
    let (back, last): (FixedSequence<i32, 3>, i32) = grown.pop_back();
    assert_eq!(last, 8);
    assert_eq!(back.into_vec(), vec![5, 6, 7]);
}

#[test]
fn pop_front_undoes_prepend() {
    let s: FixedSequence<i32, 3> = FixedSequence::from_vec(vec![5, 6, 7]);
    let grown: FixedSequence<i32, 4> = s.prepend(4);
    let (first, back): (i32, FixedSequence<i32, 3>) = grown.pop_front();
    assert_eq!(first, 4);
    assert_eq!(back.into_vec(), vec![5, 6, 7]);
}

#[test]
fn concat_undoes_split() {
    let s: FixedSequence<i32, 5> = FixedSequence::from_vec(vec![1, 2, 3, 4, 5]);
    let (first, second) = s.split::<3, 2>();
    let joined: FixedSequence<i32, 5> = first.concat(second);
    assert_eq!(joined.into_vec(), vec![1, 2, 3, 4, 5]);
}

#[test]
fn split_undoes_concat() {
    let a: FixedSequence<i32, 3> = FixedSequence::from_vec(vec![1, 2, 3]);
    let b: FixedSequence<i32, 2> = FixedSequence::from_vec(vec![9, 8]);
    let joined: FixedSequence<i32, 5> = a.concat(b);
    let (first, second) = joined.split::<3, 2>();
    assert_eq!(first.into_vec(), vec![1, 2, 3]);
    assert_eq!(second.into_vec(), vec![9, 8]);
}

#[test]
fn grow_and_shrink_change_count_by_one() {
    let s: FixedSequence<i32, 2> = FixedSequence::from_vec(vec![1, 2]);
    assert_eq!(s.len(), 2);
    let grown: FixedSequence<i32, 3> = s.append(3);
    assert_eq!(grown.len(), 3);
    let grown_again: FixedSequence<i32, 4> = grown.prepend(0);
    assert_eq!(grown_again.len(), 4);
    let (init, _last): (FixedSequence<i32, 3>, i32) = grown_again.pop_back();
    assert_eq!(init.len(), 3);
    let (_head, tail): (i32, FixedSequence<i32, 2>) = init.pop_front();
    assert_eq!(tail.len(), 2);
}

#[test]
fn split_and_concat_conserve_count() {
    let s: FixedSequence<i32, 4> = FixedSequence::from_vec(vec![1, 2, 3, 4]);
    let (first, second) = s.split::<1, 3>();
    assert_eq!(first.len() + second.len(), 4);
    let joined: FixedSequence<i32, 4> = first.concat(second);
    assert_eq!(joined.len(), 4);
}

#[test]
fn split_at_zero() {
    let s: FixedSequence<i32, 3> = FixedSequence::from_vec(vec![1, 2, 3]);
    let (first, second) = s.split::<0, 3>();
    assert_eq!(first.into_vec(), Vec::<i32>::new());
    assert_eq!(second.into_vec(), vec![1, 2, 3]);
}

#[test]
fn split_at_full_length() {
    let s: FixedSequence<i32, 3> = FixedSequence::from_vec(vec![1, 2, 3]);
    let (first, second) = s.split::<3, 0>();
    assert_eq!(first.into_vec(), vec![1, 2, 3]);
    assert_eq!(second.into_vec(), Vec::<i32>::new());
}

#[test]
fn concat_with_empty_on_the_left() {
    let empty: FixedSequence<i32, 0> = FixedSequence::from_vec(vec![]);
    let s: FixedSequence<i32, 3> = FixedSequence::from_vec(vec![1, 2, 3]);
    let joined: FixedSequence<i32, 3> = empty.concat(s);
    assert_eq!(joined.into_vec(), vec![1, 2, 3]);
}

#[test]
fn concat_with_empty_on_the_right() {
    let s: FixedSequence<i32, 3> = FixedSequence::from_vec(vec![1, 2, 3]);
    let empty: FixedSequence<i32, 0> = FixedSequence::from_vec(vec![]);
    let joined: FixedSequence<i32, 3> = s.concat(empty);
    assert_eq!(joined.into_vec(), vec![1, 2, 3]);
}

use ucp::{Poll, Queue};

fn ready<T, W: Clone>(queue: &mut Queue<T, W>, waker: &W) -> Option<T> {
    match queue.poll(waker) {
        Poll::Ready(item) => Some(item),
        Poll::Pending => None,
    }
}

#[test]
fn items_come_out_in_order() {
    let mut queue: Queue<u32, char> = Queue::default();
    assert!(queue.arrive(1).is_empty());
    assert!(queue.arrive(2).is_empty());
    assert_eq!(ready(&mut queue, &'a'), Some(1));
    assert!(queue.arrive(3).is_empty());
    assert_eq!(ready(&mut queue, &'a'), Some(2));
    assert_eq!(ready(&mut queue, &'a'), Some(3));
    assert_eq!(ready(&mut queue, &'a'), None);
}

#[test]
fn arrival_hands_out_all_wakers_once() {
    let mut queue: Queue<u32, String> = Queue::default();
    assert_eq!(ready(&mut queue, &"a".to_string()), None);
    assert_eq!(ready(&mut queue, &"b".to_string()), None);
    assert_eq!(queue.arrive(1), vec!["a".to_string(), "b".to_string()]);
    assert!(queue.arrive(2).is_empty());
    assert_eq!(ready(&mut queue, &"a".to_string()), Some(1));
    assert_eq!(ready(&mut queue, &"b".to_string()), Some(2));
}

#[test]
fn task_that_comes_too_late_waits_again() {
    let mut queue: Queue<u32, char> = Queue::default();
    assert_eq!(ready(&mut queue, &'a'), None);
    assert_eq!(ready(&mut queue, &'b'), None);
    assert_eq!(queue.arrive(1), vec!['a', 'b']);
    assert_eq!(ready(&mut queue, &'b'), Some(1));
    assert_eq!(ready(&mut queue, &'a'), None);
    assert_eq!(queue.arrive(2), vec!['a']);
}

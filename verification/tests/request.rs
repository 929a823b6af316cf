use std::sync::atomic::{AtomicUsize, Ordering};
use std::sync::Arc;
use std::task::{Wake, Waker};
use ucp::status::{UCS_ERR_BUSY, UCS_INPROGRESS, UCS_OK};
use ucp::{PollStage, PollStep, Request, Status};

struct Task {
    wakeups: AtomicUsize,
}

impl Wake for Task {
    fn wake(self: Arc<Self>) {
        self.wakeups.fetch_add(1, Ordering::SeqCst);
    }
}

fn task() -> (Arc<Task>, Waker) {
    let task = Arc::new(Task { wakeups: AtomicUsize::new(0) });
    (task.clone(), Waker::from(task))
}

fn wakeups(task: &Arc<Task>) -> usize {
    task.wakeups.load(Ordering::SeqCst)
}

const DONE: Status = Status { code: UCS_OK };
const BUSY: Status = Status { code: UCS_INPROGRESS };

/// The receive callback. Returns whether there was somebody to wake.
fn received(request: &mut Request, length: u64) -> bool {
    wake(request.received(length))
}

/// The send callback. Returns whether there was somebody to wake.
fn sent(request: &mut Request) -> bool {
    wake(request.sent())
}

fn wake(waker: Option<Waker>) -> bool {
    match waker {
        Some(waker) => {
            waker.wake();
            true
        }
        None => false,
    }
}

/// A whole poll, with the status that the first and the second look see.
fn poll(request: &mut Request, waker: &Waker, statuses: [Status; 2]) -> PollStep {
    let mut stage = PollStage::First;
    for status in statuses {
        match request.poll(stage, status) {
            PollStep::Register(next) => {
                request.register_waker(waker);
                stage = next;
            }
            step => return step,
        }
    }
    unreachable!()
}

#[test]
fn new_request_is_empty() {
    let request = Request::init();
    assert_eq!(request.len(), 0);
    assert_eq!(Request::default().len(), 0);
    assert_eq!(request.poll(PollStage::First, DONE), PollStep::Ready(0));
}

#[test]
fn steps_of_a_poll() {
    let mut request = Request::init();
    received(&mut request, 5);
    assert_eq!(request.poll(PollStage::First, DONE), PollStep::Ready(5));
    assert_eq!(request.poll(PollStage::Again, DONE), PollStep::Ready(5));
    assert_eq!(request.poll(PollStage::First, BUSY), PollStep::Register(PollStage::Again));
    assert_eq!(request.poll(PollStage::Again, BUSY), PollStep::Pending);
    assert_eq!(request.poll(PollStage::First, Status { code: UCS_ERR_BUSY }), PollStep::Ready(5));
}

#[test]
fn completed_request_is_ready_without_waiting() {
    let (task, waker) = task();
    let mut request = Request::init();
    received(&mut request, 100);
    assert_eq!(poll(&mut request, &waker, [DONE, DONE]), PollStep::Ready(100));
    sent(&mut request);
    assert_eq!(wakeups(&task), 0);
}

#[test]
fn completion_between_the_looks_is_seen() {
    let (_task, waker) = task();
    let mut request = Request::init();
    assert_eq!(poll(&mut request, &waker, [BUSY, DONE]), PollStep::Ready(0));
}

#[test]
fn pending_task_is_woken_by_receive() {
    let (task, waker) = task();
    let mut request = Request::init();
    assert_eq!(poll(&mut request, &waker, [BUSY, BUSY]), PollStep::Pending);
    assert_eq!(wakeups(&task), 0);
    received(&mut request, 42);
    assert_eq!(wakeups(&task), 1);
    assert_eq!(poll(&mut request, &waker, [DONE, DONE]), PollStep::Ready(42));
    received(&mut request, 42);
    assert_eq!(wakeups(&task), 1);
}

#[test]
fn pending_task_is_woken_by_send() {
    let (task, waker) = task();
    let mut request = Request::init();
    received(&mut request, 7);
    assert_eq!(poll(&mut request, &waker, [BUSY, BUSY]), PollStep::Pending);
    sent(&mut request);
    assert_eq!(wakeups(&task), 1);
    assert_eq!(request.len(), 7);
}

#[test]
fn last_task_to_wait_is_the_one_woken() {
    let (first, first_waker) = task();
    let (second, second_waker) = task();
    let mut request = Request::init();
    request.register_waker(&first_waker);
    request.register_waker(&second_waker);
    sent(&mut request);
    assert_eq!(wakeups(&first), 0);
    assert_eq!(wakeups(&second), 1);
}

#[test]
fn reused_request_reports_the_new_length() {
    let (_task, waker) = task();
    let mut request = Request::init();
    received(&mut request, 1000);
    assert_eq!(poll(&mut request, &waker, [BUSY, BUSY]), PollStep::Pending);
    received(&mut request, 3);
    assert_eq!(poll(&mut request, &waker, [DONE, DONE]), PollStep::Ready(3));
}

#[test]
fn callback_hands_out_a_waker_only_once() {
    let (task, waker) = task();
    let mut request = Request::init();
    assert!(!sent(&mut request));
    request.register_waker(&waker);
    let handed_out = request.received(9).unwrap();
    assert_eq!(request.len(), 9);
    assert_eq!(wakeups(&task), 0);
    handed_out.wake();
    assert_eq!(wakeups(&task), 1);
    assert!(!received(&mut request, 9));
}

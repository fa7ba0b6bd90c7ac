use rust_book::limit_tracker::{check_quota, Alert, LimitTracker, Messenger};
use std::cell::RefCell;

struct MockMessenger {
    sent_messages: RefCell<Vec<String>>,
}

impl MockMessenger {
    fn new() -> MockMessenger {
        MockMessenger {
            sent_messages: RefCell::new(vec![]),
        }
    }
}

impl Messenger for MockMessenger {
    fn send(&self, message: &str) {
        self.sent_messages.borrow_mut().push(String::from(message));
    }
}

#[test]
fn it_sends_an_over_75_percent_warning_message() {
    let mock_messenger = MockMessenger::new();
    let mut limit_tracker = LimitTracker::new(&mock_messenger, 100);

    limit_tracker.set_value(80);

    assert_eq!(mock_messenger.sent_messages.borrow().len(), 1);
}

#[test]
fn tracker_sends_the_message_that_fits() {
    let mock_messenger = MockMessenger::new();
    let mut limit_tracker = LimitTracker::new(&mock_messenger, 100);
    assert_eq!(limit_tracker.value(), 0);
    assert_eq!(limit_tracker.max(), 100);
    limit_tracker.set_value(74);
    assert_eq!(limit_tracker.value(), 74);
    limit_tracker.set_value(75);
    limit_tracker.set_value(90);
    limit_tracker.set_value(100);
    limit_tracker.set_value(10);
    assert_eq!(limit_tracker.max(), 100);
    assert_eq!(
        *mock_messenger.sent_messages.borrow(),
        vec![
            String::from("Warning: You've used up over 75% of your quota!"),
            String::from("Urgent warning: You've used up over 90% of your quota!"),
            String::from("Error: You are over your quota!"),
        ]
    );
}

#[test]
fn quota_thresholds_are_exact() {
    assert_eq!(check_quota(0, 100), None);
    assert_eq!(check_quota(74, 100), None);
    assert_eq!(check_quota(75, 100), Some(Alert::Warning));
    assert_eq!(check_quota(89, 100), Some(Alert::Warning));
    assert_eq!(check_quota(90, 100), Some(Alert::Urgent));
    assert_eq!(check_quota(99, 100), Some(Alert::Urgent));
    assert_eq!(check_quota(100, 100), Some(Alert::OverQuota));
    assert_eq!(check_quota(usize::MAX, 100), Some(Alert::OverQuota));
    assert_eq!(check_quota(2, 3), None);
    assert_eq!(check_quota(3, 4), Some(Alert::Warning));
    assert_eq!(check_quota(9, 10), Some(Alert::Urgent));
    assert_eq!(check_quota(usize::MAX - 1, usize::MAX), Some(Alert::Urgent));
    assert_eq!(check_quota(usize::MAX / 2, usize::MAX), None);
}

#[test]
fn quota_of_zero_is_used_up_by_anything() {
    assert_eq!(check_quota(0, 0), None);
    assert_eq!(check_quota(1, 0), Some(Alert::OverQuota));
}

#[test]
fn alerts_have_their_messages() {
    assert_eq!(Alert::Warning.message(), "Warning: You've used up over 75% of your quota!");
    assert_eq!(Alert::Urgent.message(), "Urgent warning: You've used up over 90% of your quota!");
    assert_eq!(Alert::OverQuota.message(), "Error: You are over your quota!");
}

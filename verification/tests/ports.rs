use puppycoder::ports::find_first_free_port;
use std::cell::RefCell;

#[test]
fn first_port_is_returned_when_it_is_free() {
    assert_eq!(find_first_free_port(7760, 7780, |_| true), Some(7760));
}

#[test]
fn ports_in_use_are_passed_over() {
    assert_eq!(find_first_free_port(7760, 7780, |port| port >= 7763), Some(7763));
    assert_eq!(find_first_free_port(7760, 7780, |port| port == 7780), Some(7780));
}

#[test]
fn no_port_is_returned_when_none_is_free() {
    assert_eq!(find_first_free_port(7760, 7780, |_| false), None);
    assert_eq!(find_first_free_port(7760, 7780, |port| port == 7781), None);
}

#[test]
fn empty_range_has_no_port() {
    let tried = RefCell::new(Vec::new());
    let found = find_first_free_port(10, 9, |port| {
        tried.borrow_mut().push(port);
        true
    });
    assert_eq!(found, None);
    assert!(tried.borrow().is_empty());
}

#[test]
fn ports_are_tried_in_rising_order_and_not_past_the_first_free_one() {
    let tried = RefCell::new(Vec::new());
    let found = find_first_free_port(100, 110, |port| {
        tried.borrow_mut().push(port);
        port == 103
    });
    assert_eq!(found, Some(103));
    assert_eq!(*tried.borrow(), vec![100, 101, 102, 103]);
}

#[test]
fn range_may_end_at_the_last_port() {
    assert_eq!(find_first_free_port(65534, 65535, |_| false), None);
    assert_eq!(find_first_free_port(65535, 65535, |_| true), Some(65535));
    assert_eq!(find_first_free_port(0, 65535, |port| port == 65535), Some(65535));
}

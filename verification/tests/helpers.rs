use std::cell::Cell;
use treadmill::addr::for_each_addr;
use treadmill::blocking::{BlockingState, PollAction};
use treadmill::connector::connect_port;
use treadmill::naming::prefixed_name;
use treadmill::say_n_times::SayNTimes;

#[test]
fn blocking_handle_spawns_then_joins_then_fails() {
    let mut s = BlockingState::new();
    assert_eq!(s.poll(), PollAction::SpawnThread);
    assert_eq!(s, BlockingState { has_join_handle: true, has_task: false });
    assert_eq!(s.poll(), PollAction::JoinThread);
    assert_eq!(s.poll(), PollAction::Fail);
    assert_eq!(s.poll(), PollAction::Fail);
}

#[test]
fn blocking_handle_with_thread_joins_first() {
    let mut s = BlockingState { has_join_handle: true, has_task: true };
    assert_eq!(s.poll(), PollAction::JoinThread);
    assert_eq!(s, BlockingState { has_join_handle: false, has_task: true });
    assert_eq!(s.poll(), PollAction::SpawnThread);
}

#[test]
fn first_successful_address_wins_and_later_ones_are_not_tried() {
    let calls = Cell::new(0);
    let addrs = vec![1u16, 2, 3, 4];
    let found = for_each_addr(&addrs, |a: u16| {
        calls.set(calls.get() + 1);
        if a >= 2 { Ok(a * 10) } else { Err("refused") }
    });
    assert_eq!(found, Some(20));
    assert_eq!(calls.get(), 2);
}

#[test]
fn no_address_succeeding_gives_none() {
    let addrs = vec![1u16, 2];
    let found: Option<u16> = for_each_addr(&addrs, |_a: u16| Err::<u16, &str>("refused"));
    assert_eq!(found, None);
    let none: Vec<u16> = Vec::new();
    assert_eq!(for_each_addr(&none, |a: u16| Ok::<u16, &str>(a)), None);
}

#[test]
fn async_body_is_kept_under_prefixed_name() {
    assert_eq!(prefixed_name("main"), "treadmill_main");
    assert_eq!(prefixed_name("simple_test"), "treadmill_simple_test");
    assert_eq!(prefixed_name(""), "treadmill_");
}

#[test]
fn connector_defaults_to_the_scheme_port() {
    assert_eq!(connect_port(Some("http"), None), 80);
    assert_eq!(connect_port(Some("https"), None), 443);
    assert_eq!(connect_port(None, None), 80);
    assert_eq!(connect_port(Some("ws"), None), 80);
    assert_eq!(connect_port(Some("https"), Some(8080)), 8080);
    assert_eq!(connect_port(Some("http"), Some(8443)), 8443);
}

#[test]
fn say_n_times_finishes_on_nth_poll() {
    let mut s = SayNTimes::new("Hello world".to_string(), 3);
    assert_eq!(s.to_say(), "Hello world");
    assert!(!s.said_once_more());
    assert!(!s.said_once_more());
    assert!(s.said_once_more());
    assert_eq!(s.done(), 3);
}

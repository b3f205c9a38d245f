use generic_device_plugin::gather::Gatherer;
use generic_device_plugin::status::Status;

#[test]
fn gatherer_without_containers_succeeds_with_nothing() {
    let gatherer: Gatherer<u32> = Gatherer::new(0);
    assert!(gatherer.is_open());
    assert_eq!(gatherer.finish(), Ok(vec![]));
}

#[test]
fn gatherer_keeps_answers_in_order() {
    let mut gatherer: Gatherer<&str> = Gatherer::new(3);
    gatherer.record(Ok("first"));
    gatherer.record(Ok("second"));
    gatherer.record(Ok("third"));
    assert!(gatherer.is_open());
    assert_eq!(gatherer.finish(), Ok(vec!["first", "second", "third"]));
}

#[test]
fn gatherer_fails_with_the_first_failure() {
    let mut gatherer: Gatherer<u32> = Gatherer::new(3);
    gatherer.record(Ok(1));
    assert!(gatherer.is_open());
    gatherer.record(Err(Status::unavailable("second container")));
    assert!(!gatherer.is_open());
    assert_eq!(gatherer.finish(), Err(Status::unavailable("second container")));
}

#[test]
fn gatherer_drops_what_comes_after_a_failure() {
    let mut gatherer: Gatherer<u32> = Gatherer::new(4);
    gatherer.record(Err(Status::unknown("first")));
    gatherer.record(Ok(2));
    gatherer.record(Err(Status::unavailable("third")));
    gatherer.record(Ok(4));
    assert!(!gatherer.is_open());
    assert_eq!(gatherer.finish(), Err(Status::unknown("first")));
}

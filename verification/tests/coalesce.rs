use carboxyl::shared::Shared;
use carboxyl::stream::coalesce::{combine, update_value};
use carboxyl::Sink;

#[test]
fn update_value_puts_value_in_empty_mutex() {
    let mutex = Shared::new(None);
    update_value(&mutex, 3, &|a, b| a + b);
    assert_eq!(mutex.get(), Some(3));
}

#[test]
fn update_value_combines_new_value_using_reducer() {
    let mutex = Shared::new(Some(5));
    update_value(&mutex, 4, &|a, b| a * b);
    assert_eq!(mutex.get(), Some(20));
}

#[test]
fn combine_takes_new_value_or_reduces() {
    assert_eq!(combine(None, 7, &|a: i32, b: i32| a - b), 7);
    assert_eq!(combine(Some(2), 7, &|a: i32, b: i32| a - b), 5);
}

#[test]
fn coalesce_merges_simultaneous_events() {
    let sink = Sink::new();
    let stream = sink.stream();
    let mut events = stream.merge(&stream).coalesce(|a, b| a + b).events();
    sink.send(3);
    assert_eq!(events.next(), Some(6));
    assert_eq!(events.next(), None);
}

use janus_plugin::refcount::{
    decrease, decrease_message, increase, increase_message, reached_zero, ReferenceCount,
};

#[test]
fn the_count_goes_up_by_one_and_down_by_one() {
    let mut count = ReferenceCount { count: 1 };
    increase(&mut count);
    assert_eq!(count.count, 2);
    assert!(!decrease(&mut count));
    assert_eq!(count.count, 1);
    assert!(decrease(&mut count));
    assert_eq!(count.count, 0);
}

#[test]
fn only_a_count_of_zero_asks_for_the_object_to_be_freed() {
    let mut count = ReferenceCount { count: 0 };
    assert!(!decrease(&mut count));
    assert_eq!(count.count, -1);
    increase(&mut count);
    assert_eq!(count.count, 0);
}

#[test]
fn the_native_answer_one_means_zero_was_reached() {
    assert!(reached_zero(1));
    assert!(!reached_zero(0));
    assert!(!reached_zero(2));
    assert!(!reached_zero(-1));
}

#[test]
fn the_messages_show_the_count_that_is_left() {
    assert_eq!(increase_message(0x7f00dead, 1), "[rust:increase] 0x7f00dead (2)\n");
    assert_eq!(decrease_message(0x7f00dead, 1), "[rust:decrease] 0x7f00dead (0)\n");
    assert_eq!(decrease_message(0x10, 0), "[rust:decrease] 0x10 (-1)\n");
    assert_eq!(increase_message(0, -1), "[rust:increase] 0x0 (0)\n");
}

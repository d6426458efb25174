use book_counter::counter::{Model, Msg};
use book_counter::markup::Child;

fn counter_after(msgs: &[Msg]) -> Model {
    let mut model = Model::create();
    for msg in msgs {
        assert!(model.update(*msg));
    }
    model
}

#[test]
fn counter_starts_at_zero() {
    let model = Model::create();
    assert_eq!(model.value, 0);
    assert_eq!(model.view().value, "0");
}

#[test]
fn counter_holds_signed_sum_of_commands() {
    let msgs = [
        Msg::AddOne,
        Msg::AddOne,
        Msg::SubtractOne,
        Msg::AddOne,
        Msg::SubtractOne,
        Msg::SubtractOne,
        Msg::SubtractOne,
        Msg::SubtractOne,
    ];
    let model = counter_after(&msgs);
    assert_eq!(model.value, -2);
    assert_eq!(model.view().value, "-2");
}

#[test]
fn counter_counts_many_increments() {
    let model = counter_after(&[Msg::AddOne; 1234]);
    assert_eq!(model.value, 1234);
    assert_eq!(model.view().value, "1234");
}

#[test]
fn empty_command_sequence_leaves_zero() {
    let model = counter_after(&[]);
    assert_eq!(model, Model { value: 0 });
}

#[test]
fn increment_then_decrement_restores_value() {
    for start in [0, 1, -1, 41, i64::MAX, i64::MIN, i64::MAX - 1, i64::MIN + 1] {
        let mut model = Model { value: start };
        model.update(Msg::AddOne);
        model.update(Msg::SubtractOne);
        assert_eq!(model.value, start);
    }
}

#[test]
fn decrement_then_increment_restores_value() {
    for start in [0, 1, -1, 41, i64::MAX, i64::MIN, i64::MAX - 1, i64::MIN + 1] {
        let mut model = Model { value: start };
        model.update(Msg::SubtractOne);
        model.update(Msg::AddOne);
        assert_eq!(model.value, start);
    }
}

#[test]
fn every_command_asks_for_a_render() {
    let mut model = Model::create();
    assert!(model.update(Msg::AddOne));
    assert!(model.update(Msg::SubtractOne));
    assert!(model.update(Msg::SubtractOne));
}

#[test]
fn increment_wraps_at_the_largest_value() {
    let mut model = Model { value: i64::MAX };
    model.update(Msg::AddOne);
    assert_eq!(model.value, i64::MIN);
    assert_eq!(model.view().value, "-9223372036854775808");
}

#[test]
fn decrement_wraps_at_the_smallest_value() {
    let mut model = Model { value: i64::MIN };
    model.update(Msg::SubtractOne);
    assert_eq!(model.value, i64::MAX);
    assert_eq!(model.view().value, "9223372036854775807");
}

#[test]
fn counter_view_has_fixed_texts_and_button_commands() {
    let mut model = Model::create();
    model.update(Msg::AddOne);
    model.update(Msg::AddOne);
    model.update(Msg::AddOne);
    let view = model.view();
    assert_eq!(view.heading, "Hello World!");
    assert_eq!(view.subtitle, "from Yew with ");
    assert_eq!(view.increment.label, "+1");
    assert_eq!(view.increment.on_click, Msg::AddOne);
    assert_eq!(view.decrement.label, "-1");
    assert_eq!(view.decrement.on_click, Msg::SubtractOne);
    assert_eq!(view.value, "3");
    assert_eq!(view.child, Child::Books);
}

#[test]
fn clicking_the_buttons_of_the_view_moves_the_counter() {
    let mut model = Model::create();
    let view = model.view();
    model.update(view.increment.on_click);
    model.update(view.increment.on_click);
    assert_eq!(model.view().value, "2");
    model.update(view.decrement.on_click);
    assert_eq!(model.view().value, "1");
}

#[test]
fn view_does_not_change_the_counter() {
    let model = Model { value: -17 };
    let first = model.view();
    let second = model.view();
    assert_eq!(first, second);
    assert_eq!(model.value, -17);
}

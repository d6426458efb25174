//! The counter component: a signed integer, two buttons that change it by
//! one, and the text that shows it. Below the counter stands the books
//! component.

use vstd::prelude::*;
use crate::markup::{Button, Child};
use crate::text::{decimal, int_text};

verus! {

/// A command for the counter.
#[derive(Clone, Copy, PartialEq, Eq, Structural, Debug)]
pub enum Msg {
    AddOne,
    SubtractOne,
}

/// The counter's state.
#[derive(Clone, Copy, PartialEq, Eq, Structural, Debug)]
pub struct Model {
    pub value: i64,
}

/// What the counter shows.
#[derive(Clone, Debug, PartialEq, Eq)]
pub struct CounterView {
    pub heading: String,
    pub subtitle: String,
    pub increment: Button<Msg>,
    pub decrement: Button<Msg>,
    pub value: String,
    pub child: Child,
}

/// What a command adds to the counter.
pub open spec fn delta(msg: Msg) -> int {
    match msg {
        Msg::AddOne => 1,
        Msg::SubtractOne => -1,
    }
}

/// The sum of what the commands `msgs` add.
pub open spec fn signed_sum(msgs: Seq<Msg>) -> int
    decreases msgs.len(),
{
    if msgs.len() == 0 {
        0
    } else {
        signed_sum(msgs.drop_last()) + delta(msgs.last())
    }
}

/// The 64-bit signed integer that differs from `x` by a multiple of 2^64.
pub open spec fn wrapped(x: int) -> int {
    (x + 0x8000_0000_0000_0000) % 0x1_0000_0000_0000_0000 - 0x8000_0000_0000_0000
}

impl Model {
    /// The state of a freshly mounted counter.
    pub open spec fn initial() -> Model {
        Model { value: 0 }
    }

    /// The state after `msg`: the value moves by one, and wraps around at
    /// the ends of the 64-bit range.
    pub open spec fn step(self, msg: Msg) -> Model {
        match msg {
            Msg::AddOne => Model {
                value: if self.value == i64::MAX {
                    i64::MIN
                } else {
                    (self.value + 1) as i64
                },
            },
            Msg::SubtractOne => Model {
                value: if self.value == i64::MIN {
                    i64::MAX
                } else {
                    (self.value - 1) as i64
                },
            },
        }
    }

    /// The state after the commands `msgs`, handled in order.
    pub open spec fn run(self, msgs: Seq<Msg>) -> Model
        decreases msgs.len(),
    {
        if msgs.len() == 0 {
            self
        } else {
            self.run(msgs.drop_last()).step(msgs.last())
        }
    }

    /// The text that shows the counter's value.
    pub open spec fn displayed(self) -> Seq<char> {
        int_text(self.value as int)
    }

    /// A freshly mounted counter holds zero.
    pub fn create() -> (model: Model)
        ensures
            model == Model::initial(),
    {
        Model { value: 0 }
    }

    /// Handles one command. The view changes with every command.
    pub fn update(&mut self, msg: Msg) -> (should_render: bool)
        ensures
            *final(self) == old(self).step(msg),
            should_render,
    {
        match msg {
            Msg::AddOne => {
                self.value = self.value.wrapping_add(1);
                true
            },
            Msg::SubtractOne => {
                self.value = self.value.wrapping_sub(1);
                true
            },
        }
    }

    /// The view: a heading, a subtitle, the two buttons with the commands
    /// they send, the value in decimal, and the books component below them.
    pub fn view(&self) -> (view: CounterView)
        ensures
            view.heading@ == "Hello World!"@,
            view.subtitle@ == "from Yew with "@,
            view.increment.label@ == "+1"@,
            view.increment.on_click == Msg::AddOne,
            view.decrement.label@ == "-1"@,
            view.decrement.on_click == Msg::SubtractOne,
            view.value@ == self.displayed(),
            view.child == Child::Books,
    {
        CounterView {
            heading: "Hello World!".to_owned(),
            subtitle: "from Yew with ".to_owned(),
            increment: Button { label: "+1".to_owned(), on_click: Msg::AddOne },
            decrement: Button { label: "-1".to_owned(), on_click: Msg::SubtractOne },
            value: decimal(self.value),
            child: Child::Books,
        }
    }
}

/// One command moves the value by what the command adds, modulo 2^64.
pub proof fn lemma_step_wraps(model: Model, msg: Msg)
    ensures
        model.step(msg).value == wrapped(model.value + delta(msg)),
{
}

/// Wrapping an intermediate sum does not change the wrapped total.
proof fn lemma_wrapped_absorbs(a: int, b: int)
    ensures
        wrapped(wrapped(a) + b) == wrapped(a + b),
{
}

/// After any sequence of commands, a counter that started at zero holds the
/// sum of +1 for each increment and -1 for each decrement, modulo 2^64.
pub proof fn lemma_counter_is_wrapped_sum(msgs: Seq<Msg>)
    ensures
        Model::initial().run(msgs).value == wrapped(signed_sum(msgs)),
    decreases msgs.len(),
{
    if msgs.len() > 0 {
        lemma_counter_is_wrapped_sum(msgs.drop_last());
        lemma_step_wraps(Model::initial().run(msgs.drop_last()), msgs.last());
        lemma_wrapped_absorbs(signed_sum(msgs.drop_last()), delta(msgs.last()));
    }
}

/// After any sequence of commands whose signed sum a 64-bit integer can
/// hold, a counter that started at zero holds that sum and shows it in
/// decimal, whatever the sums on the way were.
pub proof fn lemma_counter_shows_signed_sum(msgs: Seq<Msg>)
    requires
        i64::MIN <= signed_sum(msgs) <= i64::MAX,
    ensures
        Model::initial().run(msgs).value == signed_sum(msgs),
        Model::initial().run(msgs).displayed() == int_text(signed_sum(msgs)),
{
    lemma_counter_is_wrapped_sum(msgs);
}

/// An increment and a decrement, in either order, leave the counter as it
/// was.
pub proof fn lemma_increment_decrement_cancel(model: Model)
    ensures
        model.step(Msg::AddOne).step(Msg::SubtractOne) == model,
        model.step(Msg::SubtractOne).step(Msg::AddOne) == model,
        model.run(seq![Msg::AddOne, Msg::SubtractOne]) == model,
        model.run(seq![Msg::SubtractOne, Msg::AddOne]) == model,
{
    reveal_with_fuel(Model::run, 3);
}

} // verus!

//! The event loop: the two sources that it listens to, what it does with what arrives from
//! either, and when it ends.
//!
//! Waiting is the caller's part. Whenever one of the open sources has something, or has
//! closed, the caller hands that to `step`, carries out the effect, renders if it is told to,
//! and waits again while the loop is running. One input is handled to its end before the
//! next is taken.

use crate::effect::{Effect, EffectView};
use crate::event::{UiEvent, UiEventView};
use crate::request::{GenResult, GenResultView};
use crate::state::{App, AppView};
use vstd::prelude::*;

verus! {

/// One of the two sources of the event loop.
#[derive(Clone, Copy, PartialEq, Eq, Structural, Debug, Hash)]
pub enum Source {
    /// The events of the user interface.
    Ui,
    /// The results of generations.
    Generation,
}

/// Which sources are still open. A source that has closed stays closed: nothing opens one.
#[derive(Clone, Copy, PartialEq, Eq, Debug)]
pub struct Sources {
    ui_open: bool,
    generation_open: bool,
}

impl View for Sources {
    type V = Set<Source>;

    /// The sources that are open.
    closed spec fn view(&self) -> Set<Source> {
        Set::new(
            |source: Source|
                match source {
                    Source::Ui => self.ui_open,
                    Source::Generation => self.generation_open,
                },
        )
    }
}

/// Both sources.
pub open spec fn all_sources() -> Set<Source> {
    Set::new(|source: Source| true)
}

impl Sources {
    /// Both sources open, as they are when the loop starts.
    pub fn new() -> (sources: Sources)
        ensures
            sources@ == all_sources(),
    {
        let sources = Sources { ui_open: true, generation_open: true };
        sources
    }

    /// Whether `source` is open, so that the loop still waits for it.
    pub fn is_open(&self, source: Source) -> (open: bool)
        ensures
            open == self@.contains(source),
    {
        match source {
            Source::Ui => self.ui_open,
            Source::Generation => self.generation_open,
        }
    }

    /// Records that `source` has closed for good.
    pub fn close(&mut self, source: Source)
        ensures
            final(self)@ == old(self)@.remove(source),
    {
        match source {
            Source::Ui => {
                self.ui_open = false;
            },
            Source::Generation => {
                self.generation_open = false;
            },
        }
    }

    /// Whether the loop goes on: it does until both sources have closed.
    pub fn running(&self) -> (running: bool)
        ensures
            running == (self@.contains(Source::Ui) || self@.contains(Source::Generation)),
            running == (self@ != Set::<Source>::empty()),
    {
        proof {
            if !self.ui_open && !self.generation_open {
                assert(self@ =~= Set::<Source>::empty());
            }
        }
        self.ui_open || self.generation_open
    }
}

/// What a source has delivered: an item, or nothing because the source has closed for good.
#[derive(PartialEq, Eq, Debug)]
pub enum Input {
    Ui(Option<UiEvent>),
    Generation(Option<GenResult>),
}

/// The mathematical value of an [`Input`].
pub enum InputView {
    Ui(Option<UiEventView>),
    Generation(Option<GenResultView>),
}

impl View for Input {
    type V = InputView;

    open spec fn view(&self) -> InputView {
        match self {
            Input::Ui(event) => InputView::Ui(event.deep_view()),
            Input::Generation(result) => InputView::Generation(result.deep_view()),
        }
    }
}

/// What the caller does after one input: carry out the effect, and render to every
/// connected client if `render` is set.
#[derive(PartialEq, Eq, Debug)]
pub struct Step {
    pub effect: Effect,
    pub render: bool,
}

/// The mathematical value of a [`Step`].
pub struct StepView {
    pub effect: EffectView,
    pub render: bool,
}

impl View for Step {
    type V = StepView;

    open spec fn view(&self) -> StepView {
        StepView { effect: self.effect@, render: self.render }
    }
}

impl AppView {
    /// Whether the loop goes on: it does until both sources have closed.
    pub open spec fn running(self) -> bool {
        self.sources.contains(Source::Ui) || self.sources.contains(Source::Generation)
    }

    /// Whether the input can be handled: an event is one that [`AppView::accepts`], and an
    /// answer is one that the active project's totals have room for.
    pub open spec fn admits(self, input: InputView) -> bool {
        match input {
            InputView::Ui(Some(event)) => self.accepts(event),
            InputView::Generation(Some(GenResultView::Response(response))) => self.has_room_for(
                response,
            ),
            _ => true,
        }
    }

    /// What one step of the event loop does. An event goes to [`AppView::handle_event`] and
    /// a result to [`AppView::handle_result`], and after either the caller renders. A source
    /// that has closed is no longer listened to, and nothing is rendered for it.
    pub open spec fn step(self, input: InputView) -> (AppView, StepView) {
        match input {
            InputView::Ui(Some(event)) => {
                let (app, effect) = self.handle_event(event);
                (app, StepView { effect, render: true })
            },
            InputView::Generation(Some(result)) => {
                let (app, effect) = self.handle_result(result);
                (app, StepView { effect, render: true })
            },
            InputView::Ui(None) => (
                AppView { sources: self.sources.remove(Source::Ui), ..self },
                StepView { effect: EffectView::Idle, render: false },
            ),
            InputView::Generation(None) => (
                AppView { sources: self.sources.remove(Source::Generation), ..self },
                StepView { effect: EffectView::Idle, render: false },
            ),
        }
    }
}

impl App {
    /// Whether the event loop goes on.
    pub fn running(&self) -> (running: bool)
        ensures
            running == self@.running(),
    {
        self.sources.running()
    }

    /// Whether the input can be handled, as [`AppView::admits`] says.
    pub fn admits(&self, input: &Input) -> (admitted: bool)
        ensures
            admitted == self@.admits(input@),
    {
        match input {
            Input::Ui(Some(event)) => self.accepts(event),
            Input::Generation(Some(GenResult::Response(response))) => self.has_room_for(response),
            _ => true,
        }
    }

    /// Does one step of the event loop, as [`AppView::step`] says.
    pub fn step(&mut self, input: Input) -> (step: Step)
        requires
            old(self)@.admits(input@),
        ensures
            (final(self)@, step@) == old(self)@.step(input@),
    {
        match input {
            Input::Ui(Some(event)) => {
                let effect = self.handle_event(event);
                Step { effect, render: true }
            },
            Input::Generation(Some(result)) => {
                let effect = self.handle_result(result);
                Step { effect, render: true }
            },
            Input::Ui(None) => {
                self.sources.close(Source::Ui);
                Step { effect: Effect::Idle, render: false }
            },
            Input::Generation(None) => {
                self.sources.close(Source::Generation);
                Step { effect: Effect::Idle, render: false }
            },
        }
    }
}

} // verus!

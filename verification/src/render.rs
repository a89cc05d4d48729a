//! The render task as a state machine.
//!
//! One frame is a fixed run of operations on the display: clear it, draw
//! the counter as text, draw the outline of the bar, draw its fill, flush.
//! The machine hands out one [`Action`] at a time and is told how it ended.
//! The first operation that fails ends the task: the machine asks for the
//! watchdog to be tripped and from then on asks for nothing.

use vstd::prelude::*;
use crate::decimal::{decimal, is_decimal_text};
use crate::frame::{FrameCounter, ratio_of, tens_of};
use crate::progressbar::{ProgressBar, Shape};
use crate::text::{lemma_fits_empty_buffer, CapacityError, TextBuffer, TEXT_CAPACITY};

verus! {

/// The horizontal position on which the counter text is centred.
pub const TEXT_X: i32 = 64;

/// The vertical position of the baseline of the counter text.
pub const TEXT_Y: i32 = 15;

/// The operation on the display that a frame is waiting for.
#[derive(Clone, Copy, Debug, PartialEq, Eq, Structural)]
pub enum Step {
    Clear,
    Text,
    Outline,
    Fill,
    Flush,
}

/// Where the task stands.
#[derive(Clone, Copy, Debug, PartialEq, Eq, Structural)]
pub enum State {
    /// Between two frames, waiting for the go-ahead for the next one.
    Idle,
    /// In a frame, waiting for the given operation to end.
    Rendering(Step),
    /// Ended by a failed operation. Nothing leaves this state.
    Faulted,
}

/// How the action that the machine asked for ended.
#[derive(Clone, Copy, Debug, PartialEq, Eq, Structural)]
pub enum Outcome {
    Completed,
    Failed,
}

/// What the driver is to do next.
#[derive(Clone, Copy, Debug, PartialEq, Eq, Structural)]
pub enum Action {
    /// Wait until the next frame may start. Where nothing gates the frames
    /// this completes at once.
    AwaitReady,
    /// Clear the frame.
    Clear,
    /// Draw the text of the task, centred on `(x, y)`.
    DrawText { x: i32, y: i32 },
    /// Draw the rectangle.
    DrawShape(Shape),
    /// Send the frame to the display.
    Flush,
    /// Trip the watchdog, which resets the device. This never completes.
    TriggerAndHalt,
    /// Do nothing: the task has ended.
    Halt,
}

/// The render task as a plain value.
pub struct TaskView {
    /// The number of frames that were rendered in full.
    pub index: nat,
    /// Where the task stands.
    pub state: State,
    /// What the text buffer holds.
    pub text: Seq<char>,
    /// The bar that the task draws.
    pub bar: ProgressBar,
}

impl TaskView {
    /// The text buffer holds the counter while the text is being drawn and
    /// is empty between frames and in the rest of a frame, and a frame got
    /// past its text only with a counter that fits the buffer.
    pub open spec fn wf(self) -> bool {
        &&& self.bar.wf()
        &&& is_decimal_text(self.text)
        &&& self.text.len() <= TEXT_CAPACITY
        &&& match self.state {
            State::Idle => self.text.len() == 0,
            State::Rendering(Step::Clear) => self.text.len() == 0,
            State::Rendering(Step::Text) => self.text == decimal(tens_of(self.index)),
            State::Rendering(_) => self.text.len() == 0,
            State::Faulted => true,
        }
        &&& match self.state {
            State::Rendering(Step::Text) | State::Rendering(Step::Outline) | State::Rendering(
                Step::Fill,
            ) | State::Rendering(Step::Flush) => decimal(tens_of(self.index)).len()
                <= TEXT_CAPACITY,
            _ => true,
        }
    }

    /// The task has ended.
    pub open spec fn faulted(self) -> bool {
        self.state == State::Faulted
    }
}

/// The state that follows `v` once the pending action ended with `outcome`,
/// and the answer to the driver: the next action, or the error where the
/// counter has more digits than the text buffer holds. On that error the
/// task stays where it is.
pub open spec fn spec_step(v: TaskView, outcome: Outcome) -> (TaskView, Result<Action, CapacityError>) {
    if v.state == State::Faulted {
        (v, Ok(Action::Halt))
    } else if outcome == Outcome::Failed {
        (TaskView { state: State::Faulted, ..v }, Ok(Action::TriggerAndHalt))
    } else {
        match v.state {
            State::Idle => (TaskView { state: State::Rendering(Step::Clear), ..v }, Ok(Action::Clear)),
            State::Rendering(Step::Clear) => {
                let digits = decimal(tens_of(v.index));
                if v.text.len() + digits.len() <= TEXT_CAPACITY {
                    (
                        TaskView { state: State::Rendering(Step::Text), text: v.text + digits, ..v },
                        Ok(Action::DrawText { x: TEXT_X, y: TEXT_Y }),
                    )
                } else {
                    (
                        v,
                        Err(
                            CapacityError {
                                needed: digits.len() as usize,
                                available: (TEXT_CAPACITY - v.text.len()) as usize,
                            },
                        ),
                    )
                }
            },
            State::Rendering(Step::Text) => (
                TaskView { state: State::Rendering(Step::Outline), text: Seq::empty(), ..v },
                Ok(Action::DrawShape(v.bar.outline())),
            ),
            State::Rendering(Step::Outline) => (
                TaskView { state: State::Rendering(Step::Fill), ..v },
                Ok(Action::DrawShape(v.bar.fill(ratio_of(v.index)))),
            ),
            State::Rendering(Step::Fill) => (
                TaskView { state: State::Rendering(Step::Flush), ..v },
                Ok(Action::Flush),
            ),
            State::Rendering(Step::Flush) => (
                TaskView { state: State::Idle, index: v.index + 1, ..v },
                Ok(Action::AwaitReady),
            ),
            State::Faulted => (v, Ok(Action::Halt)),
        }
    }
}

/// The render task: the frame counter, the bar, the text buffer, and the
/// place in the frame.
pub struct RenderTask {
    counter: FrameCounter,
    state: State,
    bar: ProgressBar,
    text: TextBuffer,
}

impl View for RenderTask {
    type V = TaskView;

    closed spec fn view(&self) -> TaskView {
        TaskView { index: self.counter@, state: self.state, text: self.text@, bar: self.bar }
    }
}

impl RenderTask {
    /// The parts of the task fit together (see [`TaskView::wf`]).
    pub open spec fn wf(&self) -> bool {
        self@.wf()
    }

    /// A task for `bar` that stands before its first frame: the driver
    /// reports [`Outcome::Completed`] to start it.
    pub fn new(bar: ProgressBar) -> (task: Self)
        requires
            bar.wf(),
        ensures
            task.wf(),
            task@ == (TaskView { index: 0, state: State::Idle, text: Seq::empty(), bar }),
    {
        RenderTask { counter: FrameCounter::new(), state: State::Idle, bar, text: TextBuffer::new() }
    }

    /// A task for `bar` that stands before frame `index`.
    pub fn starting_at(bar: ProgressBar, index: u64) -> (task: Self)
        requires
            bar.wf(),
        ensures
            task.wf(),
            task@ == (TaskView { index: index as nat, state: State::Idle, text: Seq::empty(), bar }),
    {
        RenderTask {
            counter: FrameCounter::starting_at(index),
            state: State::Idle,
            bar,
            text: TextBuffer::new(),
        }
    }

    /// Where the task stands.
    pub fn state(&self) -> (state: State)
        ensures
            state == self@.state,
    {
        self.state
    }

    /// The number of frames that were rendered in full.
    pub fn index(&self) -> (index: u64)
        ensures
            index == self@.index,
    {
        self.counter.index()
    }

    /// The bar that the task draws.
    pub fn bar(&self) -> (bar: ProgressBar)
        ensures
            bar == self@.bar,
    {
        self.bar
    }

    /// The text to draw for [`Action::DrawText`].
    pub fn text(&self) -> (text: &str)
        ensures
            text@ == self@.text,
    {
        self.text.as_str()
    }

    /// Takes the outcome of the pending action and answers with the next one.
    ///
    /// The answer is an error only where the counter of the frame has more
    /// digits than the text buffer holds; the task then stays as it was.
    pub fn step(&mut self, outcome: Outcome) -> (r: Result<Action, CapacityError>)
        requires
            old(self).wf(),
        ensures
            final(self).wf(),
            (final(self)@, r) == spec_step(old(self)@, outcome),
    {
        match self.state {
            State::Faulted => Ok(Action::Halt),
            State::Idle => match outcome {
                Outcome::Failed => self.fail(),
                Outcome::Completed => {
                    self.state = State::Rendering(Step::Clear);
                    Ok(Action::Clear)
                },
            },
            State::Rendering(step) => match outcome {
                Outcome::Failed => self.fail(),
                Outcome::Completed => self.proceed(step),
            },
        }
    }

    /// Ends the task on a failed action.
    fn fail(&mut self) -> (r: Result<Action, CapacityError>)
        requires
            old(self).wf(),
            !old(self)@.faulted(),
        ensures
            final(self).wf(),
            (final(self)@, r) == spec_step(old(self)@, Outcome::Failed),
    {
        self.state = State::Faulted;
        Ok(Action::TriggerAndHalt)
    }

    /// Moves on within a frame after `step` completed.
    fn proceed(&mut self, step: Step) -> (r: Result<Action, CapacityError>)
        requires
            old(self).wf(),
            old(self)@.state == State::Rendering(step),
        ensures
            final(self).wf(),
            (final(self)@, r) == spec_step(old(self)@, Outcome::Completed),
    {
        match step {
            Step::Clear => {
                match self.text.append(self.counter.tens()) {
                    Ok(()) => {
                        self.state = State::Rendering(Step::Text);
                        Ok(Action::DrawText { x: TEXT_X, y: TEXT_Y })
                    },
                    Err(e) => Err(e),
                }
            },
            Step::Text => {
                self.text.clear();
                self.state = State::Rendering(Step::Outline);
                let shapes = self.bar.draw(self.counter.ratio());
                Ok(Action::DrawShape(shapes.outline))
            },
            Step::Outline => {
                self.state = State::Rendering(Step::Fill);
                let shapes = self.bar.draw(self.counter.ratio());
                Ok(Action::DrawShape(shapes.fill))
            },
            Step::Fill => {
                self.state = State::Rendering(Step::Flush);
                Ok(Action::Flush)
            },
            Step::Flush => {
                proof {
                    lemma_frame_index_bound(self.counter@);
                }
                self.counter.advance();
                self.state = State::Idle;
                Ok(Action::AwaitReady)
            },
        }
    }
}

/// The counter of a frame fits the text buffer exactly when the frame is
/// one of the first hundred million.
pub proof fn lemma_frame_index_bound(index: nat)
    ensures
        decimal(tens_of(index)).len() <= TEXT_CAPACITY <==> index < 100_000_000,
{
    lemma_fits_empty_buffer(tens_of(index));
}

} // verus!

//! The handling of one message, step by step.

use crate::error::{AppError, AppErrorView};
use crate::media::plan::Plan;
use crate::media::step::{Step, StepView};
use crate::message::{optional_message, WsMessage, WsMessageView};
use vstd::prelude::*;

verus! {

/// What comes after the steps under way.
#[derive(Debug, Clone, Copy, PartialEq, Eq, Structural)]
pub enum Then {
    /// The message is handled.
    Finish,
    /// An answer is to be created.
    CreateAnswer,
}

/// Where the handling of a message stands.
#[derive(Debug)]
pub enum Flow {
    /// The message is handled: the message to be sent in return, if any, or why it failed.
    Done(Result<Option<WsMessage>, AppError>),
    /// The text is to be parsed as JSON, and the result handed to `App::on_json`.
    ParseJson(String),
    /// The current step of the plan is to be performed, and its result handed to
    /// `App::resume`.
    Perform(Plan, Then),
    /// The step is to be performed, and what became of its promise handed to
    /// `App::on_answer_promise`.
    CreateAnswer(Step),
    /// A call failed without which the program cannot go on.
    Abort(String),
}

/// The contents of a [`Flow`].
pub enum FlowView {
    Done(Result<Option<WsMessageView>, AppErrorView>),
    ParseJson(Seq<char>),
    Perform(Seq<StepView>, Then),
    CreateAnswer(StepView),
    Abort(Seq<char>),
}

/// The contents of what the handling of a message ends with.
pub open spec fn handling_result(result: Result<Option<WsMessage>, AppError>) -> Result<
    Option<WsMessageView>,
    AppErrorView,
> {
    match result {
        Ok(message) => Ok(optional_message(message)),
        Err(error) => Err(error@),
    }
}

impl View for Flow {
    type V = FlowView;

    open spec fn view(&self) -> FlowView {
        match self {
            Flow::Done(result) => FlowView::Done(handling_result(*result)),
            Flow::ParseJson(text) => FlowView::ParseJson(text@),
            Flow::Perform(plan, then) => FlowView::Perform(plan@, *then),
            Flow::CreateAnswer(step) => FlowView::CreateAnswer(step@),
            Flow::Abort(text) => FlowView::Abort(text@),
        }
    }
}

} // verus!

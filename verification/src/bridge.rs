//! The bridge between a script and the host: the callback `proxy.setHtml`
//! and the global state it writes to.

use vstd::prelude::*;
use crate::error::RenderError;

verus! {

/// One argument of a call that a script made into the host.
#[derive(Clone, Debug, PartialEq, Eq)]
pub enum Argument {
    /// A string, with its text.
    Text(String),
    /// Any value that is not a string.
    Other,
}

impl DeepView for Argument {
    type V = Option<Seq<char>>;

    /// The text of a string, and `None` for every other value.
    open spec fn deep_view(&self) -> Option<Seq<char>> {
        match self {
            Argument::Text(text) => Some(text@),
            Argument::Other => None,
        }
    }
}

/// The markup that a call of `setHtml` with these arguments hands over: the
/// first argument where it is a string. Arguments after the first are not
/// read. `None` where the call hands over no markup.
pub open spec fn html_argument(args: Seq<Option<Seq<char>>>) -> Option<Seq<char>> {
    if args.len() > 0 {
        args[0]
    } else {
        None
    }
}

/// What the host keeps of one environment's global object.
pub struct GlobalState {
    /// The value under the global key `html`; `None` until it is written.
    pub html: Option<Seq<char>>,
    /// Whether a call of `setHtml` was refused in this environment.
    pub rejected: bool,
}

/// The global state after one call of `setHtml`. A call that hands over
/// markup writes it under `html`, over whatever was there. Any other call
/// writes nothing and marks the environment.
pub open spec fn after_call(state: GlobalState, args: Seq<Option<Seq<char>>>) -> GlobalState {
    match html_argument(args) {
        Some(html) => GlobalState { html: Some(html), rejected: state.rejected },
        None => GlobalState { html: state.html, rejected: true },
    }
}

/// One isolated environment of the engine, as far as the host reads it.
pub struct ExecutionEnvironment {
    html: Option<String>,
    rejected: bool,
}

impl View for ExecutionEnvironment {
    type V = GlobalState;

    closed spec fn view(&self) -> GlobalState {
        GlobalState { html: self.html.deep_view(), rejected: self.rejected }
    }
}

impl ExecutionEnvironment {
    /// A fresh environment: nothing under `html`, no call refused.
    pub fn new() -> (env: Self)
        ensures
            env@ == (GlobalState { html: None, rejected: false }),
    {
        ExecutionEnvironment { html: None, rejected: false }
    }

    /// The value under the global key `html`, if it was written.
    pub fn html(&self) -> (html: Option<&String>)
        ensures
            html.deep_view() == self@.html,
    {
        self.html.as_ref()
    }

    /// Whether a call of `setHtml` was refused in this environment.
    pub fn rejected(&self) -> (rejected: bool)
        ensures
            rejected == self@.rejected,
    {
        self.rejected
    }
}

/// The host's side of `proxy.setHtml(..)`: takes the arguments of one call
/// and writes the markup to the environment. The call is refused, and the
/// script is to see it fail, when it has no argument or its first argument
/// is not a string.
pub fn set_html(env: &mut ExecutionEnvironment, args: &Vec<Argument>) -> (accepted: Result<
    (),
    RenderError,
>)
    ensures
        final(env)@ == after_call(old(env)@, args.deep_view()),
        html_argument(args.deep_view()) is Some ==> accepted is Ok,
        html_argument(args.deep_view()) is None ==> accepted matches Err(
            RenderError::CallbackArityOrType,
        ),
{
    if args.len() > 0 {
        if let Argument::Text(text) = &args[0] {
            env.html = Some(text.clone());
            return Ok(());
        }
    }
    env.rejected = true;
    Err(RenderError::CallbackArityOrType)
}

} // verus!

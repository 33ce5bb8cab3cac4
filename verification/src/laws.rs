//! What holds of every render, proved from the definitions.

use vstd::prelude::*;
use crate::bridge::{after_call, html_argument, GlobalState};
use crate::engine::{refused, render_outcome, ReactSSR, ScriptRun};
use crate::error::{result_view, Failure, RenderError};

verus! {

/// A script that compiles, calls `setHtml` once with the string `html` and
/// runs to its end renders to `html`.
pub proof fn single_call_is_the_result(calls: Seq<Seq<Option<Seq<char>>>>, html: Seq<char>)
    requires
        calls.len() == 1,
        html_argument(calls[0]) == Some(html),
    ensures
        render_outcome(true, calls, None) == Ok::<Seq<char>, Failure>(html),
{
    assert(calls.last() == calls[0]);
}

/// A script that compiles and never calls `setHtml` renders to no markup,
/// and the failure tells the script that ran to its end from the one that
/// threw.
pub proof fn no_call_is_told_from_a_throw(thrown: Seq<char>)
    ensures
        render_outcome(true, Seq::empty(), None) == Err::<Seq<char>, Failure>(
            Failure::MissingResult,
        ),
        render_outcome(true, Seq::empty(), Some(thrown)) == Err::<Seq<char>, Failure>(
            Failure::Runtime(thrown),
        ),
        render_outcome(true, Seq::empty(), None) != render_outcome(
            true,
            Seq::empty(),
            Some(thrown),
        ),
{
}

/// The last write wins: a script that compiles, calls `setHtml` one or more
/// times, each time with a string, and runs to its end renders to the string
/// of its last call.
pub proof fn last_write_wins(calls: Seq<Seq<Option<Seq<char>>>>)
    requires
        calls.len() >= 1,
        forall|i: int| 0 <= i < calls.len() ==> html_argument(#[trigger] calls[i]) is Some,
    ensures
        render_outcome(true, calls, None) == Ok::<Seq<char>, Failure>(
            html_argument(calls.last())->0,
        ),
{
}

/// A call of `setHtml` that hands markup over writes it under `html`, over
/// whatever stood there, and refuses nothing.
pub proof fn call_overwrites(state: GlobalState, args: Seq<Option<Seq<char>>>, html: Seq<char>)
    requires
        html_argument(args) == Some(html),
    ensures
        after_call(state, args).html == Some(html),
        after_call(state, args).rejected == state.rejected,
{
}

/// Rendering the same run twice on one engine gives the same result both
/// times, and leaves the engine as it was: `first` and `second` are what two
/// renders in a row return, `between` and `after` the engine after each.
pub proof fn second_render_gives_the_same(
    engine: ReactSSR,
    run: ScriptRun,
    between: ReactSSR,
    first: Result<String, RenderError>,
    after: ReactSSR,
    second: Result<String, RenderError>,
)
    requires
        ReactSSR::renders(engine, run, between, first),
        ReactSSR::renders(between, run, after, second),
    ensures
        result_view(first) == result_view(second),
        after@ == engine@,
{
}

/// A call of `setHtml` with no argument, or with a first argument that is
/// not a string, fails the render and is named as the cause: whatever else
/// the script did, a run that holds such a call comes to
/// `CallbackArityOrType`.
pub proof fn refused_call_fails_the_render(
    calls: Seq<Seq<Option<Seq<char>>>>,
    thrown: Option<Seq<char>>,
    i: int,
)
    requires
        0 <= i < calls.len(),
        html_argument(calls[i]) is None,
    ensures
        render_outcome(true, calls, thrown) == Err::<Seq<char>, Failure>(
            Failure::CallbackArityOrType,
        ),
{
    assert(refused(calls));
}

/// Which runs come to what: a source that does not compile is a compile
/// error; of the others a run with a refused call is a callback error; of
/// the others a run that threw is a runtime error with the thrown text; of
/// the others a run without a call has no result; and the rest render.
pub proof fn outcome_by_cases(
    compiled: bool,
    calls: Seq<Seq<Option<Seq<char>>>>,
    thrown: Option<Seq<char>>,
)
    ensures
        render_outcome(compiled, calls, thrown) == Err::<Seq<char>, Failure>(Failure::Compile)
            <==> !compiled,
        render_outcome(compiled, calls, thrown) == Err::<Seq<char>, Failure>(
            Failure::CallbackArityOrType,
        ) <==> compiled && refused(calls),
        forall|text: Seq<char>|
            render_outcome(compiled, calls, thrown) == Err::<Seq<char>, Failure>(
                Failure::Runtime(text),
            ) <==> compiled && !refused(calls) && thrown == Some(text),
        render_outcome(compiled, calls, thrown) == Err::<Seq<char>, Failure>(
            Failure::MissingResult,
        ) <==> compiled && thrown is None && calls.len() == 0,
        forall|html: Seq<char>|
            render_outcome(compiled, calls, thrown) == Ok::<Seq<char>, Failure>(html) <==> compiled
                && !refused(calls) && thrown is None && calls.len() > 0 && html_argument(
                calls.last(),
            ) == Some(html),
{
    if compiled && !refused(calls) && calls.len() > 0 {
        assert(html_argument(calls[calls.len() - 1]) is Some);
    }
}

} // verus!

//! The engine: one source text, rendered by running it once.

use vstd::prelude::*;
use crate::bridge::{html_argument, set_html, Argument, ExecutionEnvironment};
use crate::error::{result_view, Failure, RenderError};
use crate::platform::Platform;

verus! {

/// What the script engine did with a source text in one run.
#[derive(Clone, Debug, PartialEq, Eq)]
pub struct ScriptRun {
    /// Whether the source compiled. Where it did not, the script never ran
    /// and the other two fields are not read.
    pub compiled: bool,
    /// The argument lists of the calls of `proxy.setHtml`, in the order in
    /// which the script made them.
    pub calls: Vec<Vec<Argument>>,
    /// The value that the script threw, as text; `None` where the script ran
    /// to its end.
    pub thrown: Option<String>,
}

/// Whether one of the calls hands over no markup.
pub open spec fn refused(calls: Seq<Seq<Option<Seq<char>>>>) -> bool {
    exists|i: int| 0 <= i < calls.len() && html_argument(#[trigger] calls[i]) is None
}

/// What a run comes to. A source that does not compile is a compile error.
/// A call of `setHtml` that hands over no markup fails the run, whatever
/// else the script did. A script that threw is a runtime error, also where
/// it had handed markup over before. Of a script that ran to its end the
/// markup of the last call is the result, and without a call there is none.
pub open spec fn render_outcome(
    compiled: bool,
    calls: Seq<Seq<Option<Seq<char>>>>,
    thrown: Option<Seq<char>>,
) -> Result<Seq<char>, Failure> {
    if !compiled {
        Err(Failure::Compile)
    } else if refused(calls) {
        Err(Failure::CallbackArityOrType)
    } else if thrown is Some {
        Err(Failure::Runtime(thrown->0))
    } else if calls.len() == 0 {
        Err(Failure::MissingResult)
    } else {
        Ok(html_argument(calls.last())->0)
    }
}

/// A renderer for one script.
pub struct ReactSSR {
    source: String,
}

impl View for ReactSSR {
    type V = Seq<char>;

    /// The source text.
    closed spec fn view(&self) -> Seq<char> {
        self.source@
    }
}

impl ReactSSR {
    /// An engine for `source`, the whole text of the script. The text is
    /// taken as it is. The platform has to be set up before.
    pub fn new(platform: &Platform, source: String) -> (engine: Self)
        requires
            platform.is_initialized(),
        ensures
            engine@ == source@,
    {
        ReactSSR { source }
    }

    /// What one render does: of the engine `before` and the run `run` it
    /// leaves the engine `after`, with the source it had, and returns
    /// `result`, which is what the run comes to.
    pub open spec fn renders(
        before: ReactSSR,
        run: ScriptRun,
        after: ReactSSR,
        result: Result<String, RenderError>,
    ) -> bool {
        &&& after@ == before@
        &&& result_view(result) == render_outcome(
            run.compiled,
            run.calls.deep_view(),
            run.thrown.deep_view(),
        )
    }

    /// The source text.
    pub fn source(&self) -> (source: &String)
        ensures
            source@ == self@,
    {
        &self.source
    }

    /// The result of rendering, given what the script engine did with the
    /// source: the markup that the script handed over last, or why there is
    /// none. Each render has an environment of its own, so nothing passes
    /// from one render to the next, and the engine is left as it was.
    pub fn render_to_string(&mut self, run: &ScriptRun) -> (result: Result<String, RenderError>)
        ensures
            Self::renders(*old(self), *run, *final(self), result),
    {
        if !run.compiled {
            return Err(RenderError::Compile);
        }
        let ghost calls = run.calls.deep_view();
        let mut env = ExecutionEnvironment::new();
        let mut i: usize = 0;
        while i < run.calls.len()
            invariant
                i <= run.calls.len(),
                calls == run.calls.deep_view(),
                env@.rejected == refused(calls.take(i as int)),
                !env@.rejected ==> env@.html == (if i == 0 {
                    None
                } else {
                    html_argument(calls[i - 1])
                }),
            decreases run.calls.len() - i,
        {
            let _ = set_html(&mut env, &run.calls[i]);
            proof {
                let prefix = calls.take(i as int);
                let longer = calls.take(i + 1);
                assert(calls[i as int] == run.calls[i as int].deep_view());
                assert(longer[i as int] == calls[i as int]);
                if refused(prefix) {
                    let j = choose|j: int|
                        0 <= j < prefix.len() && html_argument(#[trigger] prefix[j]) is None;
                    assert(longer[j] == prefix[j]);
                }
                if refused(longer) {
                    let j = choose|j: int|
                        0 <= j < longer.len() && html_argument(#[trigger] longer[j]) is None;
                    if j < i {
                        assert(prefix[j] == longer[j]);
                    }
                }
            }
            i = i + 1;
        }
        assert(calls.take(i as int) == calls);
        if env.rejected() {
            return Err(RenderError::CallbackArityOrType);
        }
        match &run.thrown {
            Some(thrown) => Err(RenderError::Runtime(thrown.clone())),
            None => match env.html() {
                Some(html) => Ok(html.clone()),
                None => Err(RenderError::MissingResult),
            },
        }
    }
}

} // verus!

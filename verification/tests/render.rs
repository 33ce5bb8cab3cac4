use react_ssr::{initialize, Argument, Platform, ReactSSR, RenderError, ScriptRun};

fn engine(source: &str) -> ReactSSR {
    let mut platform = Platform::new();
    initialize(&mut platform);
    ReactSSR::new(&platform, String::from(source))
}

fn text(s: &str) -> Argument {
    Argument::Text(String::from(s))
}

fn completed(calls: Vec<Vec<Argument>>) -> ScriptRun {
    ScriptRun { compiled: true, calls, thrown: None }
}

fn threw(calls: Vec<Vec<Argument>>, thrown: &str) -> ScriptRun {
    ScriptRun { compiled: true, calls, thrown: Some(String::from(thrown)) }
}

#[test]
fn renders_the_markup_of_the_call() {
    let mut ssr = engine("proxy.setHtml(\"<div>hi</div>\");");
    let run = completed(vec![vec![text("<div>hi</div>")]]);
    assert_eq!(ssr.render_to_string(&run), Ok(String::from("<div>hi</div>")));
}

#[test]
fn script_without_a_call_has_no_result() {
    let mut ssr = engine("1+1;");
    let run = completed(vec![]);
    assert_eq!(ssr.render_to_string(&run), Err(RenderError::MissingResult));
}

#[test]
fn non_string_argument_is_a_callback_error() {
    let mut ssr = engine("proxy.setHtml(42);");
    let run = threw(vec![vec![Argument::Other]], "TypeError: setHtml takes a string");
    assert_eq!(ssr.render_to_string(&run), Err(RenderError::CallbackArityOrType));
}

#[test]
fn throwing_script_is_a_runtime_error() {
    let mut ssr = engine("throw new Error(\"x\");");
    let run = threw(vec![], "Error: x");
    let result = ssr.render_to_string(&run);
    assert_eq!(result, Err(RenderError::Runtime(String::from("Error: x"))));
    assert_ne!(result, Err(RenderError::MissingResult));
}

#[test]
fn invalid_source_is_a_compile_error() {
    let mut ssr = engine("function (");
    let run = ScriptRun { compiled: false, calls: vec![], thrown: None };
    assert_eq!(ssr.render_to_string(&run), Err(RenderError::Compile));
}

#[test]
fn compile_error_comes_before_everything_else() {
    let mut ssr = engine("function (");
    let run = ScriptRun {
        compiled: false,
        calls: vec![vec![text("<p/>")], vec![Argument::Other]],
        thrown: Some(String::from("SyntaxError")),
    };
    assert_eq!(ssr.render_to_string(&run), Err(RenderError::Compile));
}

#[test]
fn last_write_wins() {
    let mut ssr = engine("proxy.setHtml('a'); proxy.setHtml('b'); proxy.setHtml('c');");
    let run = completed(vec![vec![text("a")], vec![text("b")], vec![text("c")]]);
    assert_eq!(ssr.render_to_string(&run), Ok(String::from("c")));
}

#[test]
fn last_write_wins_over_a_longer_one() {
    let mut ssr = engine("proxy.setHtml('<main>long</main>'); proxy.setHtml('');");
    let run = completed(vec![vec![text("<main>long</main>")], vec![text("")]]);
    assert_eq!(ssr.render_to_string(&run), Ok(String::new()));
}

#[test]
fn empty_markup_is_a_result() {
    let mut ssr = engine("proxy.setHtml('');");
    let run = completed(vec![vec![text("")]]);
    let result = ssr.render_to_string(&run);
    assert_eq!(result, Ok(String::new()));
    assert_ne!(result, Err(RenderError::MissingResult));
}

#[test]
fn second_render_gives_the_same() {
    let mut ssr = engine("proxy.setHtml('<b>x</b>');");
    let run = completed(vec![vec![text("<b>x</b>")]]);
    let first = ssr.render_to_string(&run);
    let second = ssr.render_to_string(&run);
    assert_eq!(first, Ok(String::from("<b>x</b>")));
    assert_eq!(second, first);
    assert_eq!(ssr.source(), "proxy.setHtml('<b>x</b>');");
}

#[test]
fn nothing_passes_from_one_render_to_the_next() {
    let mut ssr = engine("if (n++ == 0) proxy.setHtml('once');");
    let wrote = completed(vec![vec![text("once")]]);
    let silent = completed(vec![]);
    let refused = completed(vec![vec![Argument::Other]]);
    assert_eq!(ssr.render_to_string(&wrote), Ok(String::from("once")));
    assert_eq!(ssr.render_to_string(&silent), Err(RenderError::MissingResult));
    assert_eq!(ssr.render_to_string(&refused), Err(RenderError::CallbackArityOrType));
    assert_eq!(ssr.render_to_string(&wrote), Ok(String::from("once")));
}

#[test]
fn throw_after_a_call_is_a_runtime_error() {
    let mut ssr = engine("proxy.setHtml('<p/>'); throw 'late';");
    let run = threw(vec![vec![text("<p/>")]], "late");
    assert_eq!(ssr.render_to_string(&run), Err(RenderError::Runtime(String::from("late"))));
}

#[test]
fn call_without_arguments_is_a_callback_error() {
    let mut ssr = engine("proxy.setHtml();");
    let run = threw(vec![vec![]], "TypeError: setHtml takes a string");
    assert_eq!(ssr.render_to_string(&run), Err(RenderError::CallbackArityOrType));
}

#[test]
fn refused_call_fails_a_run_that_went_on() {
    let mut ssr = engine("try { proxy.setHtml(null); } catch (e) {} proxy.setHtml('<p/>');");
    let run = completed(vec![vec![Argument::Other], vec![text("<p/>")]]);
    assert_eq!(ssr.render_to_string(&run), Err(RenderError::CallbackArityOrType));
}

#[test]
fn refused_call_after_good_ones_fails_the_run() {
    let mut ssr = engine("proxy.setHtml('a'); proxy.setHtml('b'); proxy.setHtml({});");
    let run = threw(vec![vec![text("a")], vec![text("b")], vec![Argument::Other]], "TypeError");
    assert_eq!(ssr.render_to_string(&run), Err(RenderError::CallbackArityOrType));
}

#[test]
fn arguments_after_the_first_are_not_read() {
    let mut ssr = engine("proxy.setHtml('<i/>', 7, 'x');");
    let run = completed(vec![vec![text("<i/>"), Argument::Other, text("x")]]);
    assert_eq!(ssr.render_to_string(&run), Ok(String::from("<i/>")));
}

#[test]
fn render_leaves_the_run_as_it_was() {
    let mut ssr = engine("proxy.setHtml('<u/>');");
    let run = completed(vec![vec![text("<u/>")]]);
    let copy = run.clone();
    let _ = ssr.render_to_string(&run);
    assert_eq!(run, copy);
}

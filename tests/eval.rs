use js_eval::{
    eval, guarded, prefix, string, within, wrap_body, Action, Cause, EvalError, Evaluation, Event,
    Options, Phase, Step,
};

fn ok() -> Event {
    Event::Settled { exception: None, produced: true }
}

fn thrown(m: &str) -> Event {
    Event::Settled { exception: Some(m.to_string()), produced: false }
}

fn define(key: &str, value: &str) -> Step {
    Step::Define { key: key.to_string(), value: value.to_string() }
}

fn options<'a>(body: &'a str, env: &[(&str, &str)], stdin: Option<&str>, parse: bool, stringify: bool) -> Options<'a> {
    Options {
        body,
        env: env.iter().map(|(k, v)| (k.to_string(), v.to_string())).collect(),
        parse,
        stdin: stdin.map(|s| s.to_string()),
        stringify,
    }
}

/// Answers every step with success and collects the steps asked for, until
/// the evaluation asks for rendering.
fn steps_until_render(ev: &mut Evaluation) -> Vec<Step> {
    let mut steps = Vec::new();
    let mut action = ev.pending();
    loop {
        match action {
            Action::Perform(step) => {
                steps.push(step);
                action = eval(ev, ok());
            }
            Action::Render => return steps,
            Action::Finish(r) => panic!("finished early: {:?}", r),
        }
    }
}

#[test]
fn env_values_bound_under_prefixed_names() {
    let mut ev = Evaluation::new(options("$name", &[("name", "World"), ("x", "a b\"c")], None, false, false));
    let steps = steps_until_render(&mut ev);
    assert_eq!(
        steps,
        vec![
            define("$name", "World"),
            define("$x", "a b\"c"),
            Step::Load { source: "(() => $name)()".to_string() },
            Step::Compile,
            Step::Run,
        ]
    );
}

#[test]
fn raw_input_bound_as_string() {
    let mut ev = Evaluation::new(options("$", &[], Some("42"), false, false));
    let steps = steps_until_render(&mut ev);
    assert_eq!(steps[0], define("$", "42"));
    assert!(!steps.contains(&Step::ParseInput));
    assert_eq!(steps.len(), 4);
}

#[test]
fn parsed_input_read_once_then_bound() {
    let mut ev = Evaluation::new(options("[$, $]", &[], Some("42"), true, false));
    let steps = steps_until_render(&mut ev);
    assert_eq!(
        steps,
        vec![
            Step::ReadInput { text: "42".to_string() },
            Step::ParseInput,
            Step::BindInput { key: "$".to_string() },
            Step::Load { source: "(() => [$, $])()".to_string() },
            Step::Compile,
            Step::Run,
        ]
    );
    assert_eq!(steps.iter().filter(|s| **s == Step::ParseInput).count(), 1);
}

#[test]
fn bad_input_fails_before_the_script() {
    let mut ev = Evaluation::new(options("1", &[], Some("{not json"), true, false));
    assert_eq!(ev.pending(), Action::Perform(Step::ReadInput { text: "{not json".to_string() }));
    assert_eq!(eval(&mut ev, ok()), Action::Perform(Step::ParseInput));
    let err = EvalError::Failed {
        phase: Phase::ParsingInput,
        cause: Cause::Thrown("SyntaxError: Unexpected token n in JSON".to_string()),
    };
    let a = eval(&mut ev, thrown("SyntaxError: Unexpected token n in JSON"));
    assert_eq!(a, Action::Finish(Err(err.duplicate())));
    assert_eq!(err.message(), "parsing STDIN: SyntaxError: Unexpected token n in JSON");
    // Nothing reported afterwards brings the script to run.
    assert_eq!(eval(&mut ev, ok()), Action::Finish(Err(err.duplicate())));
    assert_eq!(eval(&mut ev, Event::Rendered("1".to_string())), Action::Finish(Err(err)));
}

#[test]
fn bad_input_without_exception_is_empty_result() {
    let mut ev = Evaluation::new(options("1", &[], Some("x"), true, false));
    eval(&mut ev, ok());
    let a = eval(&mut ev, Event::Settled { exception: None, produced: false });
    match a {
        Action::Finish(Err(e)) => {
            assert_eq!(e.message(), "parsing STDIN: no exception but empty result")
        }
        other => panic!("unexpected {:?}", other),
    }
}

#[test]
fn stringify_encodes_after_running() {
    let mut ev = Evaluation::new(options("({a: 1, b: [2,3]})", &[], None, false, true));
    let steps = steps_until_render(&mut ev);
    assert_eq!(steps[2], Step::Run);
    assert_eq!(steps[3], Step::Stringify);
    assert_eq!(steps.len(), 4);
    let text = "{\"a\":1,\"b\":[2,3]}";
    assert_eq!(eval(&mut ev, Event::Rendered(text.to_string())), Action::Finish(Ok(text.to_string())));
}

#[test]
fn stringify_failure_is_tagged() {
    let mut ev = Evaluation::new(options("1n", &[], None, false, true));
    let _ = eval(&mut ev, ok());
    let _ = eval(&mut ev, ok());
    assert_eq!(eval(&mut ev, ok()), Action::Perform(Step::Stringify));
    match eval(&mut ev, thrown("TypeError: Do not know how to serialize a BigInt")) {
        Action::Finish(Err(e)) => assert_eq!(
            e.message(),
            "stringifying JSON: TypeError: Do not know how to serialize a BigInt"
        ),
        other => panic!("unexpected {:?}", other),
    }
}

#[test]
fn string_result_rendered_verbatim() {
    let mut ev = Evaluation::new(options("\"hi\"", &[], None, false, false));
    steps_until_render(&mut ev);
    assert_eq!(ev.pending(), Action::Render);
    assert_eq!(eval(&mut ev, Event::Rendered("hi".to_string())), Action::Finish(Ok("hi".to_string())));
    // The result stays once given.
    assert_eq!(eval(&mut ev, Event::Rendered("other".to_string())), Action::Finish(Ok("hi".to_string())));
}

#[test]
fn thrown_error_tagged_running() {
    let mut ev = Evaluation::new(options("{ throw new Error(\"boom\") }", &[], None, false, false));
    let _ = eval(&mut ev, ok());
    assert_eq!(eval(&mut ev, ok()), Action::Perform(Step::Run));
    match eval(&mut ev, thrown("Error: boom")) {
        Action::Finish(Err(e)) => {
            assert_eq!(e, EvalError::Failed { phase: Phase::Running, cause: Cause::Thrown("Error: boom".to_string()) });
            let m = e.message();
            assert!(m.contains("boom"));
            assert!(m.starts_with("running script"));
            assert!(!m.starts_with("compiling script"));
        }
        other => panic!("unexpected {:?}", other),
    }
}

#[test]
fn syntax_error_tagged_compiling() {
    let mut ev = Evaluation::new(options("1 +", &[], None, false, false));
    assert_eq!(ev.pending(), Action::Perform(Step::Load { source: "(() => 1 +)()".to_string() }));
    assert_eq!(eval(&mut ev, ok()), Action::Perform(Step::Compile));
    match eval(&mut ev, thrown("SyntaxError: Unexpected token ')'")) {
        Action::Finish(Err(e)) => {
            assert_eq!(e.message(), "compiling script: SyntaxError: Unexpected token ')'");
            assert!(matches!(e, EvalError::Failed { phase: Phase::Compiling, .. }));
        }
        other => panic!("unexpected {:?}", other),
    }
}

#[test]
fn sequential_evaluations_are_isolated() {
    let mut first = Evaluation::new(options("$a", &[("a", "1")], Some("in"), false, false));
    let first_steps = steps_until_render(&mut first);
    eval(&mut first, Event::Rendered("1".to_string()));
    let mut second = Evaluation::new(options("$b", &[("b", "2")], None, false, false));
    let second_steps = steps_until_render(&mut second);
    assert_eq!(first_steps[0], define("$a", "1"));
    assert_eq!(first_steps[1], define("$", "in"));
    assert_eq!(
        second_steps,
        vec![define("$b", "2"), Step::Load { source: "(() => $b)()".to_string() }, Step::Compile, Step::Run]
    );
}

#[test]
fn construction_failure_is_structural() {
    let mut ev = Evaluation::new(options("1", &[("k", "v")], None, false, false));
    let a = eval(&mut ev, Event::Settled { exception: None, produced: false });
    assert_eq!(a, Action::Finish(Err(EvalError::Construct)));
    assert_eq!(EvalError::Construct.message(), "constructing string");
}

#[test]
fn construction_ignores_exception_when_built() {
    let mut ev = Evaluation::new(options("1", &[("k", "v")], None, false, false));
    let a = eval(&mut ev, Event::Settled { exception: Some("stale".to_string()), produced: true });
    assert_eq!(a, Action::Perform(Step::Load { source: "(() => 1)()".to_string() }));
}

#[test]
fn mismatched_event_leaves_state() {
    let mut ev = Evaluation::new(options("1", &[], None, false, false));
    let before = ev.pending();
    assert_eq!(eval(&mut ev, Event::Rendered("x".to_string())), before);
    steps_until_render(&mut ev);
    assert_eq!(eval(&mut ev, ok()), Action::Render);
}

#[test]
fn empty_result_after_running() {
    let mut ev = Evaluation::new(options("1", &[], None, false, false));
    eval(&mut ev, ok());
    eval(&mut ev, ok());
    match eval(&mut ev, Event::Settled { exception: None, produced: false }) {
        Action::Finish(Err(e)) => {
            assert_eq!(e, EvalError::Failed { phase: Phase::Running, cause: Cause::Empty });
            assert_eq!(e.message(), "running script: no exception but empty result");
        }
        other => panic!("unexpected {:?}", other),
    }
}

#[test]
fn exception_wins_over_result() {
    assert_eq!(guarded(Some("Error: x".to_string()), Some(5)), Err(Cause::Thrown("Error: x".to_string())));
    assert_eq!(guarded(None, Some(5)), Ok(5));
    assert_eq!(guarded::<u8>(None, None), Err(Cause::Empty));
    assert_eq!(
        within(Phase::Compiling, guarded::<u8>(None, None)),
        Err(EvalError::Failed { phase: Phase::Compiling, cause: Cause::Empty })
    );
}

#[test]
fn string_outcomes() {
    assert_eq!(string(Some(3)), Ok(3));
    assert_eq!(string::<u8>(None), Err(EvalError::Construct));
}

#[test]
fn names_and_wrapping() {
    assert_eq!(prefix("name"), "$name");
    assert_eq!(prefix(""), "$");
    assert_eq!(prefix("if"), "$if");
    assert_eq!(wrap_body("1 + 1"), "(() => 1 + 1)()");
    assert_eq!(wrap_body(""), "(() => )()");
}

#[test]
fn phase_contexts() {
    assert_eq!(Phase::ParsingInput.context(), "parsing STDIN");
    assert_eq!(Phase::Compiling.context(), "compiling script");
    assert_eq!(Phase::Running.context(), "running script");
    assert_eq!(Phase::Stringifying.context(), "stringifying JSON");
    assert_eq!(Cause::Empty.text(), "no exception but empty result");
}

#[test]
fn plan_lists_every_step() {
    let o = options("x", &[("k", "v")], Some("[1]"), true, true);
    assert_eq!(
        js_eval::plan(&o),
        vec![
            define("$k", "v"),
            Step::ReadInput { text: "[1]".to_string() },
            Step::ParseInput,
            Step::BindInput { key: "$".to_string() },
            Step::Load { source: "(() => x)()".to_string() },
            Step::Compile,
            Step::Run,
            Step::Stringify,
        ]
    );
}

use vstd::prelude::*;

verus! {

/// What one evaluation is asked to do.
pub struct Options<'a> {
    /// The script body; it is run as the body of an immediately invoked
    /// arrow function.
    pub body: &'a str,
    /// Named values, each bound as a global under its prefixed name.
    pub env: Vec<(String, String)>,
    /// Whether the input is parsed as JSON before it is bound.
    pub parse: bool,
    /// The input text, bound under the sigil name when present.
    pub stdin: Option<String>,
    /// Whether the script's result is JSON-encoded.
    pub stringify: bool,
}

/// One operation on the engine, in the order an evaluation performs them.
#[derive(Debug, PartialEq, Eq)]
pub enum Step {
    /// Build both strings and set `key` to `value` on the global template.
    Define { key: String, value: String },
    /// Build a string handle holding the input text.
    ReadInput { text: String },
    /// Parse the input string as JSON (guarded).
    ParseInput,
    /// Bind `key` on the global template to an accessor that returns the
    /// parsed input.
    BindInput { key: String },
    /// Create the context with the global template and build the source
    /// string in it.
    Load { source: String },
    /// Compile the loaded source (guarded).
    Compile,
    /// Run the compiled script (guarded).
    Run,
    /// JSON-encode the script's result (guarded).
    Stringify,
}

/// A step, with its strings seen as character sequences.
pub enum StepView {
    Define { key: Seq<char>, value: Seq<char> },
    ReadInput { text: Seq<char> },
    ParseInput,
    BindInput { key: Seq<char> },
    Load { source: Seq<char> },
    Compile,
    Run,
    Stringify,
}

impl View for Step {
    type V = StepView;

    open spec fn view(&self) -> StepView {
        match self {
            Step::Define { key, value } => StepView::Define { key: key@, value: value@ },
            Step::ReadInput { text } => StepView::ReadInput { text: text@ },
            Step::ParseInput => StepView::ParseInput,
            Step::BindInput { key } => StepView::BindInput { key: key@ },
            Step::Load { source } => StepView::Load { source: source@ },
            Step::Compile => StepView::Compile,
            Step::Run => StepView::Run,
            Step::Stringify => StepView::Stringify,
        }
    }
}

impl Step {
    /// A copy of this step.
    pub fn duplicate(&self) -> (r: Step)
        ensures
            r == *self,
    {
        match self {
            Step::Define { key, value } => Step::Define { key: key.clone(), value: value.clone() },
            Step::ReadInput { text } => Step::ReadInput { text: text.clone() },
            Step::ParseInput => Step::ParseInput,
            Step::BindInput { key } => Step::BindInput { key: key.clone() },
            Step::Load { source } => Step::Load { source: source.clone() },
            Step::Compile => Step::Compile,
            Step::Run => Step::Run,
            Step::Stringify => Step::Stringify,
        }
    }
}

/// The reserved global name that the input is bound to.
pub open spec fn sigil() -> Seq<char> {
    "$"@
}

/// The global name that a named value is bound to: the sigil, then the name.
pub open spec fn prefixed(name: Seq<char>) -> Seq<char> {
    sigil() + name
}

/// The source that is compiled: the body inside an immediately invoked
/// arrow function.
pub open spec fn wrapped(body: Seq<char>) -> Seq<char> {
    "(() => "@ + body + ")()"@
}

/// The steps that bind the named values, in their order.
pub open spec fn env_steps(env: Seq<(String, String)>) -> Seq<StepView> {
    Seq::new(env.len(), |i: int| StepView::Define { key: prefixed(env[i].0@), value: env[i].1@ })
}

/// The steps that bind the input, if there is one.
pub open spec fn input_steps(stdin: Option<String>, parse: bool) -> Seq<StepView> {
    match stdin {
        None => Seq::empty(),
        Some(s) => if parse {
            seq![StepView::ReadInput { text: s@ }, StepView::ParseInput, StepView::BindInput { key: sigil() }]
        } else {
            seq![StepView::Define { key: sigil(), value: s@ }]
        },
    }
}

/// The steps that compile, run and, if asked, encode.
pub open spec fn script_steps(body: Seq<char>, stringify: bool) -> Seq<StepView> {
    seq![StepView::Load { source: wrapped(body) }, StepView::Compile, StepView::Run]
        + if stringify { seq![StepView::Stringify] } else { Seq::empty() }
}

/// Every step of an evaluation of `o`, in order.
pub open spec fn planned(o: Options) -> Seq<StepView> {
    env_steps(o.env@) + input_steps(o.stdin, o.parse) + script_steps(o.body@, o.stringify)
}

/// The views of a sequence of steps.
pub open spec fn views(steps: Seq<Step>) -> Seq<StepView> {
    steps.map_values(|s: Step| s@)
}

/// The global name for a named value.
pub fn prefix(name: &str) -> (r: String)
    ensures
        r@ == prefixed(name@),
{
    let mut r = String::from_str("$");
    r.append(name);
    r
}

/// The source to compile for a body.
pub fn wrap_body(body: &str) -> (r: String)
    ensures
        r@ == wrapped(body@),
{
    let mut r = String::from_str("(() => ");
    r.append(body);
    r.append(")()");
    r
}

/// Lists the engine operations that evaluate `o`.
pub fn plan(o: &Options) -> (r: Vec<Step>)
    ensures
        views(r@) == planned(*o),
{
    let mut steps: Vec<Step> = Vec::new();
    let n = o.env.len();
    let mut i: usize = 0;
    while i < n
        invariant
            n == o.env@.len(),
            i <= n,
            views(steps@) == env_steps(o.env@).take(i as int),
        decreases n - i,
    {
        let key = prefix(o.env[i].0.as_str());
        let value = o.env[i].1.clone();
        let ghost before = steps@;
        let step = Step::Define { key, value };
        assert(step@ == env_steps(o.env@)[i as int]);
        steps.push(step);
        assert(views(steps@) =~= views(before).push(step@));
        assert(env_steps(o.env@).take(i + 1) =~= env_steps(o.env@).take(i as int).push(step@));
        i = i + 1;
    }
    assert(env_steps(o.env@).take(n as int) =~= env_steps(o.env@));
    match &o.stdin {
        None => {},
        Some(s) => {
            if o.parse {
                steps.push(Step::ReadInput { text: s.clone() });
                steps.push(Step::ParseInput);
                steps.push(Step::BindInput { key: String::from_str("$") });
            } else {
                steps.push(Step::Define { key: String::from_str("$"), value: s.clone() });
            }
        },
    }
    assert(views(steps@) =~= env_steps(o.env@) + input_steps(o.stdin, o.parse));
    steps.push(Step::Load { source: wrap_body(o.body) });
    steps.push(Step::Compile);
    steps.push(Step::Run);
    if o.stringify {
        steps.push(Step::Stringify);
    }
    assert(views(steps@) =~= planned(*o));
    steps
}

/// Every named value is bound, unchanged, under its prefixed name: the
/// `i`-th step of an evaluation defines the `i`-th pair.
pub proof fn lemma_env_bound(o: Options, i: int)
    requires
        0 <= i < o.env@.len(),
    ensures
        planned(o)[i] == (StepView::Define { key: prefixed(o.env@[i].0@), value: o.env@[i].1@ }),
{
}

/// An input marked for parsing is parsed exactly once, before the script
/// is loaded, compiled or run, and the parsed value is then bound to the
/// sigil name by an accessor.
pub proof fn lemma_input_parsed_once(o: Options)
    requires
        o.stdin is Some,
        o.parse,
    ensures
        ({
            let n = o.env@.len() as int;
            let p = planned(o);
            &&& p[n] == (StepView::ReadInput { text: o.stdin->0@ })
            &&& p[n + 1] == StepView::ParseInput
            &&& p[n + 2] == (StepView::BindInput { key: sigil() })
            &&& p[n + 3] == (StepView::Load { source: wrapped(o.body@) })
            &&& p[n + 4] == StepView::Compile
            &&& p[n + 5] == StepView::Run
            &&& forall|j: int| 0 <= j < p.len() && j != n + 1 ==> p[j] != StepView::ParseInput
        }),
{
    let n = o.env@.len() as int;
    let p = planned(o);
    assert forall|j: int| 0 <= j < p.len() && j != n + 1 implies p[j] != StepView::ParseInput by {
        if j < n {
            assert(p[j] == env_steps(o.env@)[j]);
        }
    }
}

/// An input that is not marked for parsing is bound as it is: the sigil
/// name is defined as the raw text, and nothing is parsed.
pub proof fn lemma_raw_input_bound(o: Options)
    requires
        o.stdin is Some,
        !o.parse,
    ensures
        ({
            let p = planned(o);
            &&& p[o.env@.len() as int] == (StepView::Define { key: sigil(), value: o.stdin->0@ })
            &&& forall|j: int| 0 <= j < p.len() ==> p[j] != StepView::ParseInput
        }),
{
    let n = o.env@.len() as int;
    let p = planned(o);
    assert forall|j: int| 0 <= j < p.len() implies p[j] != StepView::ParseInput by {
        if j < n {
            assert(p[j] == env_steps(o.env@)[j]);
        }
    }
}

/// Whether a step binds only what `o` holds: a definition is one of its
/// named values under its prefixed name, or its raw input under the sigil
/// name; the input is read and bound by accessor only when it is parsed.
pub open spec fn binds_own(o: Options, s: StepView) -> bool {
    match s {
        StepView::Define { key, value } => (exists|i: int|
            0 <= i < o.env@.len() && key == prefixed(#[trigger] o.env@[i].0@) && value
                == o.env@[i].1@) || (key == sigil() && !o.parse && o.stdin is Some && value
            == o.stdin->0@),
        StepView::BindInput { key } => key == sigil() && o.parse && o.stdin is Some,
        StepView::ReadInput { text } => o.parse && o.stdin is Some && text == o.stdin->0@,
        _ => true,
    }
}

/// An evaluation binds no global but those of its own options, so no two
/// evaluations see each other's globals.
pub proof fn lemma_bindings_own(o: Options)
    ensures
        forall|j: int| 0 <= j < planned(o).len() ==> binds_own(o, #[trigger] planned(o)[j]),
{
    let n = o.env@.len() as int;
    let p = planned(o);
    assert forall|j: int| 0 <= j < p.len() implies binds_own(o, #[trigger] p[j]) by {
        if j < n {
            assert(p[j] == env_steps(o.env@)[j]);
            assert(o.env@[j].0@ == o.env@[j].0@);
        }
    }
}

} // verus!

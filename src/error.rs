use vstd::prelude::*;

verus! {

/// The guarded phases of an evaluation: each runs one engine operation
/// after which a pending exception is looked for.
#[derive(Clone, Copy, Debug, PartialEq, Eq, Structural)]
pub enum Phase {
    ParsingInput,
    Compiling,
    Running,
    Stringifying,
}

/// Why a guarded operation failed.
#[derive(Debug, PartialEq, Eq)]
pub enum Cause {
    /// The engine reported a pending exception; this is its message.
    Thrown(String),
    /// The operation produced no result and no exception either.
    Empty,
}

/// A failed evaluation: the phase it failed in, and why.
#[derive(Debug, PartialEq, Eq)]
pub enum EvalError {
    /// A string handle for the global template could not be built.
    Construct,
    /// A guarded phase failed.
    Failed { phase: Phase, cause: Cause },
}

/// The context line that names a phase in an error message.
pub open spec fn context_of(phase: Phase) -> Seq<char> {
    match phase {
        Phase::ParsingInput => "parsing STDIN"@,
        Phase::Compiling => "compiling script"@,
        Phase::Running => "running script"@,
        Phase::Stringifying => "stringifying JSON"@,
    }
}

/// The text of a cause.
pub open spec fn cause_text(cause: Cause) -> Seq<char> {
    match cause {
        Cause::Thrown(m) => m@,
        Cause::Empty => "no exception but empty result"@,
    }
}

/// The layered message of an error: the phase's context, then the cause.
pub open spec fn message_of(e: EvalError) -> Seq<char> {
    match e {
        EvalError::Construct => "constructing string"@,
        EvalError::Failed { phase, cause } => context_of(phase) + ": "@ + cause_text(cause),
    }
}

impl Cause {
    /// A copy of this cause.
    pub fn duplicate(&self) -> (r: Cause)
        ensures
            r == *self,
    {
        match self {
            Cause::Thrown(m) => Cause::Thrown(m.clone()),
            Cause::Empty => Cause::Empty,
        }
    }

    /// The text of this cause.
    pub fn text(&self) -> (r: String)
        ensures
            r@ == cause_text(*self),
    {
        match self {
            Cause::Thrown(m) => m.clone(),
            Cause::Empty => String::from_str("no exception but empty result"),
        }
    }
}

impl Phase {
    /// The context line that names this phase.
    pub fn context(&self) -> (r: String)
        ensures
            r@ == context_of(*self),
    {
        match self {
            Phase::ParsingInput => String::from_str("parsing STDIN"),
            Phase::Compiling => String::from_str("compiling script"),
            Phase::Running => String::from_str("running script"),
            Phase::Stringifying => String::from_str("stringifying JSON"),
        }
    }
}

impl EvalError {
    /// A copy of this error.
    pub fn duplicate(&self) -> (r: EvalError)
        ensures
            r == *self,
    {
        match self {
            EvalError::Construct => EvalError::Construct,
            EvalError::Failed { phase, cause } => EvalError::Failed {
                phase: *phase,
                cause: cause.duplicate(),
            },
        }
    }

    /// The layered message: `"<phase context>: <cause>"`, or
    /// `"constructing string"`.
    pub fn message(&self) -> (r: String)
        ensures
            r@ == message_of(*self),
    {
        match self {
            EvalError::Construct => String::from_str("constructing string"),
            EvalError::Failed { phase, cause } => {
                let mut r = phase.context();
                r.append(": ");
                let t = cause.text();
                r.append(t.as_str());
                r
            },
        }
    }
}

/// Turns the outcome of one engine operation into a result: a pending
/// exception takes precedence over any value the operation returned, and an
/// operation that yielded neither is an internal inconsistency.
pub fn guarded<T>(exception: Option<String>, result: Option<T>) -> (r: Result<T, Cause>)
    ensures
        r == match exception {
            Some(m) => Err(Cause::Thrown(m)),
            None => match result {
                Some(v) => Ok(v),
                None => Err(Cause::Empty),
            },
        },
{
    match exception {
        Some(m) => Err(Cause::Thrown(m)),
        None => match result {
            Some(v) => Ok(v),
            None => Err(Cause::Empty),
        },
    }
}

/// Attaches the phase to the failure of a guarded operation.
pub fn within<T>(phase: Phase, r: Result<T, Cause>) -> (e: Result<T, EvalError>)
    ensures
        e == match r {
            Ok(v) => Ok(v),
            Err(cause) => Err(EvalError::Failed { phase, cause }),
        },
{
    match r {
        Ok(v) => Ok(v),
        Err(cause) => Err(EvalError::Failed { phase, cause }),
    }
}

/// The outcome of building a string handle: a handle that could not be
/// built is a construction error.
pub fn string<H>(made: Option<H>) -> (r: Result<H, EvalError>)
    ensures
        r == match made {
            Some(h) => Ok(h),
            None => Err(EvalError::Construct),
        },
{
    match made {
        Some(h) => Ok(h),
        None => Err(EvalError::Construct),
    }
}

} // verus!

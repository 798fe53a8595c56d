//! The runner: one `run` of a function under test is a pipeline
//! validate → compile → place → invoke → interpret. The compile and invoke
//! steps cross into the compiler backend and into freshly generated machine
//! code, so the runner is driven step by step: it decides, the caller
//! performs the outside work and hands the response back. Every decision,
//! and the executable page's whole lifecycle, lives here.

use vstd::prelude::*;
use memmap::Mmap;
use crate::outcome::{
    interpret_outcome, interpret_returned, kind_matches, res_view, unsupported_message,
    unsupported_msg, RawValue, RawView,
};
use crate::page::{base_address, frozen_bytes, place_code};
use crate::sig::{
    check_signature, invocable, valid_shape, validation_outcome, CallConv, FnView, FunctionInfo,
    TypeView, ValueType,
};

verus! {

/// Where a run stands: waiting to start, waiting for the compiler's
/// response, holding an executable page and waiting for the invocation's
/// returned value, or finished.
#[derive(Clone, Copy, Debug, PartialEq, Eq, Structural)]
pub enum Stage {
    Ready,
    AwaitCompile,
    AwaitInvoke,
    Finished,
}

/// What the runner asks its caller to do next: compile the function, invoke
/// the code placed at `addr` expecting the declared return type, or stop
/// with the run's outcome.
pub enum Action {
    Compile,
    Invoke { addr: usize, ret: ValueType },
    Finish(Result<(), String>),
}

/// The mathematical value of an `Action`.
pub enum ActionV {
    Compile,
    Invoke { addr: usize, ret: TypeView },
    Finish(Result<(), Seq<char>>),
}

impl View for Action {
    type V = ActionV;

    open spec fn view(&self) -> ActionV {
        match self {
            Action::Compile => ActionV::Compile,
            Action::Invoke { addr, ret } => (ActionV::Invoke { addr: *addr, ret: ret@ }),
            Action::Finish(r) => ActionV::Finish(res_view(*r)),
        }
    }
}

/// Runs one function on the host: validates its signature, has it
/// compiled, places the code in executable memory, has it invoked, and
/// interprets the returned value.
pub struct FunctionRunner {
    pub function: FunctionInfo,
    pub default_conv: CallConv,
    pub stage: Stage,
    pub page: Option<Mmap>,
}

/// The outcome of a run in which the platform steps (allocation and the
/// permission change) succeed: a validation error ends the run before any
/// compilation; a compiler error is surfaced verbatim; a return type
/// without an interpretation rule is an error; otherwise the returned raw
/// value decides.
pub open spec fn run_outcome(
    f: FnView,
    host: CallConv,
    compiled: Result<Seq<u8>, Seq<char>>,
    raw: RawView,
) -> Result<(), Seq<char>> {
    match validation_outcome(f, host) {
        Result::Err(m) => Result::Err(m),
        Result::Ok(_) => match compiled {
            Result::Err(m) => Result::Err(m),
            Result::Ok(_) => match f.returns[0] {
                TypeView::Other(nm) => Result::Err(unsupported_msg(nm)),
                _ => interpret_outcome(raw, f.name),
            },
        },
    }
}

impl FunctionRunner {
    /// A runner in a stage that can still make progress holds exactly what
    /// that stage calls for: a page if and only if it awaits an
    /// invocation, and a signature that validation has accepted once the
    /// compiler has been asked for code.
    pub open spec fn wf(&self) -> bool {
        &&& (self.stage == Stage::AwaitInvoke <==> self.page is Some)
        &&& ((self.stage == Stage::AwaitCompile || self.stage == Stage::AwaitInvoke) ==> (
            valid_shape(self.function@) && self.function@.conv == self.default_conv
        ))
        &&& (self.stage == Stage::AwaitInvoke ==> invocable(self.function@.returns[0]))
    }

    /// A fresh runner over one function and the host's default calling
    /// convention. Nothing is allocated and nothing runs at construction.
    pub fn new(function: FunctionInfo, default_conv: CallConv) -> (r: Self)
        ensures
            r.function == function,
            r.default_conv == default_conv,
            r.stage == Stage::Ready,
            r.page is None,
            r.wf(),
    {
        FunctionRunner { function, default_conv, stage: Stage::Ready, page: None }
    }

    /// Begins the run by validating the signature. An accepted signature
    /// asks for compilation; a rejected one finishes at once with the
    /// validation error — the compiler is never invoked for it.
    pub fn start(&mut self) -> (a: Action)
        requires
            old(self).wf(),
            old(self).stage == Stage::Ready,
        ensures
            final(self).wf(),
            final(self).function == old(self).function,
            final(self).default_conv == old(self).default_conv,
            final(self).page is None,
            match validation_outcome(old(self).function@, old(self).default_conv) {
                Result::Ok(_) => final(self).stage == Stage::AwaitCompile && a@
                    == ActionV::Compile,
                Result::Err(m) => final(self).stage == Stage::Finished && a@
                    == ActionV::Finish(Result::Err(m)),
            },
    {
        match check_signature(&self.function, self.default_conv) {
            Result::Ok(_) => {
                self.stage = Stage::AwaitCompile;
                Action::Compile
            },
            Result::Err(m) => {
                self.stage = Stage::Finished;
                Action::Finish(Result::Err(m))
            },
        }
    }

    /// Takes the compiler's response. An error is surfaced verbatim.
    /// Compiled code is placed in a fresh executable page and handed to
    /// `placed`, which decides what follows; a platform failure while
    /// placing finishes the run with its error and no page mapped. A return
    /// type without an interpretation rule always finishes the run, with
    /// the unsupported-type error unless the platform failed first.
    pub fn compiled(&mut self, response: Result<Vec<u8>, String>) -> (a: Action)
        requires
            old(self).wf(),
            old(self).stage == Stage::AwaitCompile,
        ensures
            final(self).wf(),
            final(self).function == old(self).function,
            final(self).default_conv == old(self).default_conv,
            !invocable(old(self).function@.returns[0]) ==> final(self).stage
                == Stage::Finished && final(self).page is None,
            match response {
                Result::Err(m) => final(self).stage == Stage::Finished && final(self).page
                    is None && a@ == ActionV::Finish(Result::Err(m@)),
                Result::Ok(code) => {
                    ||| (final(self).stage == Stage::Finished && final(self).page is None
                        && a@ matches ActionV::Finish(Result::Err(_)))
                    ||| (final(self).stage == Stage::AwaitInvoke
                        && invocable(old(self).function@.returns[0])
                        && (final(self).page matches Some(p) && frozen_bytes(p) == code@)
                        && (a@ matches ActionV::Invoke { ret, .. }
                            && ret == old(self).function@.returns[0]))
                },
            },
    {
        let code = match response {
            Result::Ok(code) => code,
            Result::Err(m) => {
                self.stage = Stage::Finished;
                return Action::Finish(Result::Err(m));
            },
        };
        match place_code(&code) {
            Result::Ok(page) => self.placed(page),
            Result::Err(m) => {
                self.stage = Stage::Finished;
                Action::Finish(Result::Err(m))
            },
        }
    }

    /// Takes a freshly placed executable page and decides what follows: a
    /// return type without an interpretation rule finishes the run at once
    /// with the unsupported-type error, naming the type, and the page is
    /// released unused — the code is never invoked; any other return type
    /// is held with its page, and the caller is asked to invoke the code at
    /// the page's base address expecting the declared type.
    pub fn placed(&mut self, page: Mmap) -> (a: Action)
        requires
            old(self).wf(),
            old(self).stage == Stage::AwaitCompile,
        ensures
            final(self).wf(),
            final(self).function == old(self).function,
            final(self).default_conv == old(self).default_conv,
            match old(self).function@.returns[0] {
                TypeView::Other(nm) => final(self).stage == Stage::Finished
                    && final(self).page is None
                    && a@ == ActionV::Finish(Result::Err(unsupported_msg(nm))),
                _ => final(self).stage == Stage::AwaitInvoke
                    && final(self).page == Some(page)
                    && (a@ matches ActionV::Invoke { ret, .. }
                        && ret == old(self).function@.returns[0]),
            },
    {
        let ret = self.function.returns[0].clone();
        match ret {
            ValueType::Other(nm) => {
                self.stage = Stage::Finished;
                Action::Finish(Result::Err(unsupported_message(&nm)))
            },
            other => {
                let addr = base_address(&page);
                self.page = Some(page);
                self.stage = Stage::AwaitInvoke;
                Action::Invoke { addr, ret: other }
            },
        }
    }

    /// Takes the raw value the invocation returned, releases the page, and
    /// finishes with the interpreted outcome: `true` passes, `false` fails
    /// naming the function, an integer or float is an error carrying the
    /// raw value.
    pub fn invoked(&mut self, raw: RawValue) -> (a: Action)
        requires
            old(self).wf(),
            old(self).stage == Stage::AwaitInvoke,
            kind_matches(old(self).function@.returns[0], raw@),
        ensures
            final(self).wf(),
            final(self).function == old(self).function,
            final(self).default_conv == old(self).default_conv,
            final(self).stage == Stage::Finished,
            final(self).page is None,
            a@ == ActionV::Finish(interpret_outcome(raw@, old(self).function@.name)),
    {
        self.page = None;
        self.stage = Stage::Finished;
        Action::Finish(interpret_returned(raw, &self.function.name))
    }
}

/// Law: a signature the validator rejects decides the run by itself — the
/// outcome is the validation error, whatever the compiler would have
/// answered and whatever value an invocation would have returned, so
/// compilation is never needed for it.
pub proof fn lemma_validation_precedes_compilation(
    f: FnView,
    host: CallConv,
    c1: Result<Seq<u8>, Seq<char>>,
    c2: Result<Seq<u8>, Seq<char>>,
    r1: RawView,
    r2: RawView,
)
    requires
        validation_outcome(f, host) is Err,
    ensures
        run_outcome(f, host, c1, r1) == validation_outcome(f, host),
        run_outcome(f, host, c1, r1) == run_outcome(f, host, c2, r2),
{
}

/// Law: the harness's decisions are deterministic — two runs over the same
/// signature, the same host convention, the same compiler response and the
/// same returned raw value finish with the same outcome.
pub proof fn lemma_run_deterministic(
    f1: FnView,
    f2: FnView,
    host1: CallConv,
    host2: CallConv,
    c1: Result<Seq<u8>, Seq<char>>,
    c2: Result<Seq<u8>, Seq<char>>,
    r1: RawView,
    r2: RawView,
)
    requires
        f1 == f2,
        host1 == host2,
        c1 == c2,
        r1 == r2,
    ensures
        run_outcome(f1, host1, c1, r1) == run_outcome(f2, host2, c2, r2),
{
}

/// Law: a function with no parameters, one boolean return and the host's
/// default convention, whose execution returns `true`, passes.
pub proof fn lemma_boolean_true_passes(f: FnView, host: CallConv, code: Seq<u8>)
    requires
        valid_shape(f),
        f.conv == host,
        f.returns[0] == TypeView::Bool,
    ensures
        run_outcome(f, host, Result::Ok(code), RawView::Bool(true)) == Result::<
            (),
            Seq<char>,
        >::Ok(()),
{
}

/// Law: the same shape whose execution returns `false` fails, and the
/// failure names the function.
pub proof fn lemma_boolean_false_fails(f: FnView, host: CallConv, code: Seq<u8>)
    requires
        valid_shape(f),
        f.conv == host,
        f.returns[0] == TypeView::Bool,
    ensures
        run_outcome(f, host, Result::Ok(code), RawView::Bool(false)) == Result::<
            (),
            Seq<char>,
        >::Err(crate::outcome::failed_msg(f.name)),
{
}

/// Law: a finished runner holds no mapped page — every path out of a run
/// releases the executable memory.
pub proof fn lemma_finished_releases_page(r: &FunctionRunner)
    requires
        r.wf(),
        r.stage == Stage::Finished,
    ensures
        r.page is None,
{
}

} // verus!

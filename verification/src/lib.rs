//! A thin driver shim for an external compilation engine.
//!
//! The shim collects an argument vector, registers a configuration hook with
//! the engine's run entry point, and returns the engine's exit status
//! unchanged. The engine itself (lexing, parsing, type checking, code
//! generation) is out of scope: its run protocol is modelled here as a small
//! state machine, so that the shim's three obligations are stated and proved:
//! the arguments are forwarded verbatim, the hook is invoked exactly once per
//! run and mutates nothing, and the exit status passes through unaltered.

use vstd::prelude::*;

verus! {

/// The pipeline configuration context the engine builds from the argument
/// vector and offers to the configuration hook before compilation begins.
/// The engine owns it for the duration of one run; the shim only ever sees it
/// through the single hook invocation.
pub struct Config {
    /// The arguments the engine was invoked with, in order, index zero being
    /// the program's own invocation name.
    pub args: Vec<String>,
}

/// The configuration hook the shim registers with the engine: its sole
/// operation is invoked once before compilation proceeds.
pub struct Calls;

impl Calls {
    /// The hook's sole operation: observe the configuration context before
    /// compilation begins. This hook is an identity pass-through: the context
    /// after the call is field-for-field the context before it.
    pub fn config(&mut self, config: &mut Config)
        ensures
            *final(config) == *old(config),
    {
    }
}

/// Copies an argument vector, keeping every argument and their order.
fn copy_args(args: &Vec<String>) -> (r: Vec<String>)
    ensures
        r@ == args@,
{
    let mut r: Vec<String> = Vec::new();
    let mut i: usize = 0;
    while i < args.len()
        invariant
            i <= args.len(),
            r@.len() == i,
            forall|j: int| 0 <= j < i ==> r@[j] == args@[j],
        decreases args.len() - i,
    {
        r.push(args[i].clone());
        i = i + 1;
    }
    proof {
        assert(r@ =~= args@);
    }
    r
}

/// Reserved extension slot for redirecting the engine's output. No
/// implementation exists; the shim always leaves the slot absent.
pub struct OutputSlot;

/// Reserved extension slot for customizing how the engine loads its input
/// files. No implementation exists; the shim always leaves the slot absent.
pub struct LoaderSlot;

/// Everything the shim hands to the engine's run entry point: the argument
/// vector, the configuration hook, and the two reserved extension slots,
/// both left absent by this shim.
pub struct Registration {
    pub args: Vec<String>,
    pub hook: Calls,
    pub loader: Option<LoaderSlot>,
    pub output: Option<OutputSlot>,
}

/// Phase of one run of the engine, as the shim drives it.
enum Phase {
    /// The run has begun; the hook has not yet been invoked.
    Created,
    /// The hook has returned; compilation may proceed.
    Configured,
}

/// One run of the engine on behalf of the shim: begun with the argument
/// vector, configured exactly once, then finished with the engine's exit
/// status. The run holds no configuration context: the context exists only
/// between its construction inside [`ShimRun::configure`] and the engine that
/// receives it, so nothing of it can be retained here once the hook returns.
pub struct ShimRun {
    args: Vec<String>,
    hook_calls: u64,
    phase: Phase,
}

impl ShimRun {
    /// The bookkeeping invariant of a run: the hook-invocation count agrees
    /// with the phase, so the count can never pass one.
    pub closed spec fn wf(&self) -> bool {
        &&& (self.phase is Created ==> self.hook_calls == 0)
        &&& (self.phase is Configured ==> self.hook_calls == 1)
    }

    /// The argument vector this run forwards to the engine.
    pub closed spec fn spec_args(&self) -> Seq<String> {
        self.args@
    }

    /// How many times the configuration hook has been invoked in this run.
    pub closed spec fn hook_invocations(&self) -> nat {
        self.hook_calls as nat
    }

    /// Whether the configuration step of this run has already happened.
    pub closed spec fn configured(&self) -> bool {
        self.phase is Configured
    }

    /// Begins a run: records the argument vector unchanged; the hook has not
    /// been invoked yet.
    pub fn new(args: Vec<String>) -> (s: ShimRun)
        ensures
            s.wf(),
            !s.configured(),
            s.hook_invocations() == 0,
            s.spec_args() == args@,
    {
        ShimRun { args, hook_calls: 0, phase: Phase::Created }
    }

    /// The engine's pre-compilation step: build the configuration context
    /// from the recorded arguments, verbatim, and invoke the hook on it. The
    /// step can only happen once per run, and the context it yields to the
    /// engine is exactly the one built from the arguments: the hook changed
    /// nothing.
    pub fn configure(&mut self, hook: &mut Calls) -> (config: Config)
        requires
            old(self).wf(),
            !old(self).configured(),
        ensures
            final(self).wf(),
            final(self).configured(),
            final(self).hook_invocations() == old(self).hook_invocations() + 1,
            final(self).hook_invocations() == 1,
            final(self).spec_args() == old(self).spec_args(),
            config.args@ == old(self).spec_args(),
    {
        let mut config = Config { args: copy_args(&self.args) };
        hook.config(&mut config);
        self.hook_calls = self.hook_calls + 1;
        self.phase = Phase::Configured;
        config
    }

    /// Ends a run once compilation has produced an exit status: the status
    /// comes back unchanged. The run is consumed; nothing of it survives.
    pub fn finish(self, engine_status: i32) -> (code: i32)
        requires
            self.configured(),
        ensures
            code == engine_status,
    {
        engine_status
    }

    /// How many times the configuration hook has been invoked in this run.
    pub fn invocations(&self) -> (n: u64)
        ensures
            n == self.hook_invocations(),
    {
        self.hook_calls
    }

    /// Whether the configuration step of this run has already happened.
    pub fn is_configured(&self) -> (b: bool)
        ensures
            b == self.configured(),
    {
        match self.phase {
            Phase::Configured => true,
            Phase::Created => false,
        }
    }
}

/// The hook is invoked exactly once per run, never zero times and never more
/// than once: a run that has reached its configured phase records exactly one
/// invocation, and one that has not records none.
pub proof fn lemma_hook_invoked_exactly_once(s: ShimRun)
    requires
        s.wf(),
    ensures
        s.configured() ==> s.hook_invocations() == 1,
        !s.configured() ==> s.hook_invocations() == 0,
{
}

/// The engine's run entry point, driven with one registration: the engine
/// builds its configuration context from the registered arguments, lets the
/// hook observe it once, compiles, and reports its exit status. Whatever
/// status the compilation step produces is returned unchanged: the shim adds
/// no post-processing, no error translation and no retry.
pub fn run_shim(reg: Registration, engine_status: i32) -> (code: i32)
    ensures
        code == engine_status,
{
    let mut hook = reg.hook;
    let mut run = ShimRun::new(reg.args);
    let _config = run.configure(&mut hook);
    run.finish(engine_status)
}

/// The shim's whole behaviour: hand the process argument vector to the engine
/// unchanged, with the identity hook and both extension slots absent, and
/// exit with whatever status the engine produced.
pub fn shim_main(args: Vec<String>, engine_status: i32) -> (code: i32)
    ensures
        code == engine_status,
{
    let reg = Registration { args, hook: Calls, loader: None, output: None };
    run_shim(reg, engine_status)
}

} // verus!

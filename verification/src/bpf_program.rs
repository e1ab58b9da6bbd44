//! The running BPF programs, and the loading and unloading of policies.

use vstd::prelude::*;
use vstd::string::StringExecFns;

use crate::failure;
use crate::failure::{Failure, FailureModel};
use crate::globals::BpfGlobals;
use crate::policies;
use crate::policies::PolicyDirLoad;
use crate::startup::Startup;
use crate::uprobes;
use crate::uprobes::Link;

verus! {

/// The loaded and attached BPF programs.
pub struct BpfcontainContext {
    /// The global variables that the programs were loaded with.
    pub globals: BpfGlobals,
    /// The uprobes that are attached, in the order in which they were.
    pub links: Vec<Link>,
}

/// What has happened in the work loop.
pub enum WorkEvent {
    /// The loop was entered.
    Entered,
    /// The ring buffer was polled; a failure is given by its text.
    Polled(Result<(), String>),
    /// The pause is over.
    Slept,
}

/// What the work loop does next.
#[derive(Clone, Copy, PartialEq, Eq, Structural, Debug)]
pub enum WorkAction {
    /// Poll the ring buffer, for at most the given time.
    Poll { secs: u64, nanos: u32 },
    /// Pause for the given time.
    Sleep { millis: u64 },
}

/// What the work loop does next, and what it logs before that.
pub struct WorkStep {
    /// A warning for the log.
    pub warning: Option<String>,
    /// What is done next.
    pub action: WorkAction,
}

/// What the work loop logs after an event, and what it does next.
pub open spec fn work_step(event: WorkEvent) -> (Option<Seq<char>>, WorkAction) {
    match event {
        WorkEvent::Polled(Ok(())) => (None, WorkAction::Sleep { millis: 100 }),
        WorkEvent::Polled(Err(text)) => (
            Some("Failed to poll ring buffer: "@ + text@),
            WorkAction::Sleep { millis: 100 },
        ),
        _ => (None, WorkAction::Poll { secs: 1, nanos: 0 }),
    }
}

/// What has happened to a policy file.
pub enum PolicyFileEvent<P, E> {
    /// The file was named.
    Named,
    /// The policy in it was parsed.
    Parsed(Result<P, E>),
    /// The policy of the given name was loaded.
    Loaded(String, Result<(), E>),
}

/// What is done next about a policy file.
pub enum PolicyFileAction<P, E> {
    /// Parse the policy in the file.
    Parse,
    /// Load a policy.
    Load(P),
    /// Nothing: the file has been dealt with.
    Done(Result<(), Failure<E>>),
}

/// The result of an operation on the policy called `name`, given the operation's outcome and what
/// was being attempted.
pub open spec fn policy_result<E>(
    attempt: Seq<char>,
    name: Seq<char>,
    outcome: Result<(), E>,
) -> Result<(), FailureModel<E>> {
    match outcome {
        Ok(()) => Ok(()),
        Err(cause) => Err(FailureModel { contexts: seq![attempt + name], cause }),
    }
}

/// The outcome of an operation on the policy called `name`, with what was being attempted where it
/// failed.
fn on_policy<E>(attempt: &str, name: &str, outcome: Result<(), E>) -> (result: Result<
    (),
    Failure<E>,
>)
    ensures
        failure::result_model(result) == policy_result(attempt@, name@, outcome),
        result is Ok <==> outcome is Ok,
        result matches Err(failure) ==> outcome == Err::<(), E>(failure.cause),
{
    match outcome {
        Ok(()) => Ok(()),
        Err(cause) => {
            let failure = Failure::bare(cause).context(attempt.to_owned().concat(name));
            assert(failure@.contexts =~= seq![attempt@ + name@]);
            Err(failure)
        },
    }
}

impl BpfcontainContext {
    /// The context that startup has brought about, or the failure that ended it.
    pub fn new<E>(startup: Startup<E>) -> (result: Result<BpfcontainContext, Failure<E>>)
        requires
            startup@.action() is Finished || startup@.action() is Failed,
        ensures
            match startup@.failure {
                None => result matches Ok(context) && context.globals == startup@.globals
                    && context.links@ == startup@.uprobes.attached,
                Some(failure) => result matches Err(error) && error@ == failure,
            },
            match result {
                Ok(context) => startup@.outcome() == Ok::<_, FailureModel<E>>(
                    (context.globals, context.links@),
                ),
                Err(error) => startup@.outcome() == Err::<(BpfGlobals, Seq<Link>), _>(error@),
            },
    {
        match startup.into_outcome() {
            Ok((globals, links)) => Ok(BpfcontainContext { globals, links }),
            Err(failure) => Err(failure),
        }
    }

    /// The main work loop: polls the ring buffer for up to a second, pauses for a tenth of one, and
    /// starts over, whether or not polling works.
    pub fn work_loop(&self, event: WorkEvent) -> (step: WorkStep)
        ensures
            (uprobes::text_model(step.warning), step.action) == work_step(event),
            match event {
                WorkEvent::Entered => step.warning is None && step.action == (WorkAction::Poll {
                    secs: 1,
                    nanos: 0,
                }),
                WorkEvent::Polled(Ok(())) => step.warning is None && step.action == (
                WorkAction::Sleep { millis: 100 }),
                WorkEvent::Polled(Err(text)) => step.warning matches Some(warning) && warning@
                    == "Failed to poll ring buffer: "@ + text@ && step.action == (
                WorkAction::Sleep { millis: 100 }),
                WorkEvent::Slept => step.warning is None && step.action == (WorkAction::Poll {
                    secs: 1,
                    nanos: 0,
                }),
            },
    {
        match event {
            WorkEvent::Entered | WorkEvent::Slept => WorkStep {
                warning: None,
                action: WorkAction::Poll { secs: 1, nanos: 0 },
            },
            WorkEvent::Polled(Ok(())) => WorkStep {
                warning: None,
                action: WorkAction::Sleep { millis: 100 },
            },
            WorkEvent::Polled(Err(text)) => WorkStep {
                warning: Some("Failed to poll ring buffer: ".to_owned().concat(text.as_str())),
                action: WorkAction::Sleep { millis: 100 },
            },
        }
    }

    /// Reports the outcome of loading a policy into the kernel.
    pub fn load_policy<E>(&mut self, policy_name: &str, outcome: Result<(), E>) -> (result: Result<
        (),
        Failure<E>,
    >)
        ensures
            failure::result_model(result) == policy_result(
                "Failed to load policy "@,
                policy_name@,
                outcome,
            ),
            result is Ok <==> outcome is Ok,
            result matches Err(failure) ==> outcome == Err::<(), E>(failure.cause),
            *final(self) == *old(self),
    {
        on_policy("Failed to load policy ", policy_name, outcome)
    }

    /// Loads the policy in a file: it is parsed, and loaded if that works.
    pub fn load_policy_from_file<P, E>(&mut self, event: PolicyFileEvent<P, E>) -> (action:
        PolicyFileAction<P, E>)
        ensures
            match event {
                PolicyFileEvent::Named => action is Parse,
                PolicyFileEvent::Parsed(Ok(policy)) => action == PolicyFileAction::<P, E>::Load(
                    policy,
                ),
                PolicyFileEvent::Parsed(Err(cause)) => action matches PolicyFileAction::Done(result)
                    && failure::result_model(result) == Err::<(), FailureModel<E>>(
                    FailureModel { contexts: Seq::empty(), cause },
                ),
                PolicyFileEvent::Loaded(name, outcome) => action matches PolicyFileAction::Done(
                    result,
                ) && failure::result_model(result) == policy_result(
                    "Failed to load policy "@,
                    name@,
                    outcome,
                ) && (result is Ok <==> outcome is Ok) && (result matches Err(failure) ==> outcome
                    == Err::<(), E>(failure.cause)),
            },
            *final(self) == *old(self),
    {
        match event {
            PolicyFileEvent::Named => PolicyFileAction::Parse,
            PolicyFileEvent::Parsed(Ok(policy)) => PolicyFileAction::Load(policy),
            PolicyFileEvent::Parsed(Err(cause)) => PolicyFileAction::Done(Err(Failure::bare(cause))),
            PolicyFileEvent::Loaded(name, outcome) => PolicyFileAction::Done(
                self.load_policy(name.as_str(), outcome),
            ),
        }
    }

    /// Begins to load the policies below a directory.
    pub fn load_policy_from_dir<P>(&mut self, policy_dir: &str) -> (load: PolicyDirLoad<P>)
        ensures
            load@ == policies::PolicyDirModel::<P>::start(policy_dir@),
            load@.dir == policy_dir@,
            load@.listed == 0,
            load@.queue.len() == 0,
            *final(self) == *old(self),
    {
        PolicyDirLoad::new(policy_dir)
    }

    /// Reports the outcome of unloading a policy from the kernel.
    pub fn unload_policy<E>(&mut self, policy_name: &str, outcome: Result<(), E>) -> (result:
        Result<(), Failure<E>>)
        ensures
            failure::result_model(result) == policy_result(
                "Failed to unload policy "@,
                policy_name@,
                outcome,
            ),
            result is Ok <==> outcome is Ok,
            result matches Err(failure) ==> outcome == Err::<(), E>(failure.cause),
            *final(self) == *old(self),
    {
        on_policy("Failed to unload policy ", policy_name, outcome)
    }
}

/// An operation on a policy succeeds exactly if the kernel accepted it, whatever the policy is
/// called. Otherwise its failure has the kernel's error as its cause, and says what was attempted on
/// which policy.
pub proof fn law_policy_result<E>(
    attempt: Seq<char>,
    name: Seq<char>,
    outcome: Result<(), E>,
    result: Result<(), Failure<E>>,
)
    requires
        failure::result_model(result) == policy_result(attempt, name, outcome),
    ensures
        result is Ok <==> outcome is Ok,
        result matches Err(failure) ==> {
            &&& outcome == Err::<(), E>(failure.cause)
            &&& failure.contexts@.len() == 1
            &&& failure.contexts@[0]@ == attempt + name
        },
{
    if let Err(failure) = result {
        failure::law_failure_model(failure);
        let contexts = failure@.contexts;
        assert(contexts.len() == 1 && contexts[0] == attempt + name);
        assert(contexts[0] == failure.contexts@[0]@);
    }
}

/// The work loop pauses for a tenth of a second after it has polled, and otherwise polls for up to a
/// second; it never ends. It logs a warning exactly if polling failed, with the reason.
pub proof fn law_work_loop(event: WorkEvent, step: WorkStep)
    requires
        (uprobes::text_model(step.warning), step.action) == work_step(event),
    ensures
        event is Polled ==> step.action == (WorkAction::Sleep { millis: 100 }),
        !(event is Polled) ==> step.action == (WorkAction::Poll { secs: 1, nanos: 0 }),
        step.warning is Some <==> event matches WorkEvent::Polled(Err(_)),
        event matches WorkEvent::Polled(Err(reason)) ==> step.warning matches Some(warning)
            && warning@ == "Failed to poll ring buffer: "@ + reason@,
{
}

} // verus!

//! Opening, loading and attaching the BPF objects.
//!
//! [`Startup`] decides what is done, in which order, and what follows from each outcome; its caller
//! performs one [`StartupAction`] at a time and reports a [`StartupEvent`].

use vstd::prelude::*;

use crate::failure::{Failure, FailureModel};
use crate::globals;
use crate::globals::{
    initialize_bpf_globals, AuditLevel, AuditSettings, BpfGlobals, GlobalsAction, GlobalsEvent,
    Namespace,
};
use crate::symbols;
use crate::uprobes;
use crate::uprobes::{Link, LookupReport, UprobeAction, UprobeAttach, UprobeAttachModel};

verus! {

/// A stage of startup.
#[derive(Clone, Copy, PartialEq, Eq, Structural, Debug)]
pub enum Stage {
    BumpMemlock,
    OpenSkeleton,
    ReadMntNamespace,
    ReadPidNamespace,
    LoadSkeleton,
    AttachPrograms,
    AttachUprobes,
    AddCallback,
    BuildRingbuf,
    Ready,
}

impl Stage {
    /// What was being attempted where an operation of this stage fails, from the innermost
    /// operation to the outermost.
    pub open spec fn contexts(self) -> Seq<Seq<char>> {
        match self {
            Stage::BumpMemlock => seq!["Failed bumping memlock limit"@],
            Stage::OpenSkeleton => seq!["Failed to open skeleton"@],
            Stage::ReadMntNamespace => seq!["Failed to initialize BPF globals"@],
            Stage::ReadPidNamespace => seq!["Failed to initialize BPF globals"@],
            Stage::LoadSkeleton => seq!["Failed to load skeleton"@],
            Stage::AttachPrograms => seq!["Failed to attach BPF programs"@],
            Stage::AttachUprobes => seq!["Failed to attach uprobes"@],
            Stage::AddCallback => seq!["Failed to add callback"@, "Failed to configure ringbuf"@],
            Stage::BuildRingbuf => seq!["Failed to create ringbuf"@, "Failed to configure ringbuf"@],
            Stage::Ready => Seq::empty(),
        }
    }

    /// The stage that follows once this one is complete.
    pub open spec fn following(self) -> Stage {
        match self {
            Stage::BumpMemlock => Stage::OpenSkeleton,
            Stage::OpenSkeleton => Stage::ReadMntNamespace,
            Stage::ReadMntNamespace => Stage::ReadPidNamespace,
            Stage::ReadPidNamespace => Stage::LoadSkeleton,
            Stage::LoadSkeleton => Stage::AttachPrograms,
            Stage::AttachPrograms => Stage::AttachUprobes,
            Stage::AttachUprobes => Stage::AddCallback,
            Stage::AddCallback => Stage::BuildRingbuf,
            Stage::BuildRingbuf => Stage::Ready,
            Stage::Ready => Stage::Ready,
        }
    }

    /// The number of stages before the last one.
    pub open spec fn stages_left(self) -> nat {
        match self {
            Stage::BumpMemlock => 9,
            Stage::OpenSkeleton => 8,
            Stage::ReadMntNamespace => 7,
            Stage::ReadPidNamespace => 6,
            Stage::LoadSkeleton => 5,
            Stage::AttachPrograms => 4,
            Stage::AttachUprobes => 3,
            Stage::AddCallback => 2,
            Stage::BuildRingbuf => 1,
            Stage::Ready => 0,
        }
    }

    /// The failure of an operation of this stage.
    fn failure<E>(self, cause: E) -> (failure: Failure<E>)
        requires
            !(self is Ready),
        ensures
            failure@ == (FailureModel { contexts: self.contexts(), cause }),
    {
        let bare = Failure::bare(cause);
        let failure = match self {
            Stage::BumpMemlock => bare.context("Failed bumping memlock limit".to_owned()),
            Stage::OpenSkeleton => bare.context("Failed to open skeleton".to_owned()),
            Stage::ReadMntNamespace => bare.context("Failed to initialize BPF globals".to_owned()),
            Stage::ReadPidNamespace => bare.context("Failed to initialize BPF globals".to_owned()),
            Stage::LoadSkeleton => bare.context("Failed to load skeleton".to_owned()),
            Stage::AttachPrograms => bare.context("Failed to attach BPF programs".to_owned()),
            Stage::AttachUprobes => bare.context("Failed to attach uprobes".to_owned()),
            Stage::AddCallback => bare.context("Failed to add callback".to_owned()).context(
                "Failed to configure ringbuf".to_owned(),
            ),
            Stage::BuildRingbuf => bare.context("Failed to create ringbuf".to_owned()).context(
                "Failed to configure ringbuf".to_owned(),
            ),
            Stage::Ready => bare,
        };
        assert(failure@.contexts =~= self.contexts());
        failure
    }

    /// The stage that follows once this one is complete.
    fn next(self) -> (stage: Stage)
        ensures
            stage == self.following(),
    {
        match self {
            Stage::BumpMemlock => Stage::OpenSkeleton,
            Stage::OpenSkeleton => Stage::ReadMntNamespace,
            Stage::ReadMntNamespace => Stage::ReadPidNamespace,
            Stage::ReadPidNamespace => Stage::LoadSkeleton,
            Stage::LoadSkeleton => Stage::AttachPrograms,
            Stage::AttachPrograms => Stage::AttachUprobes,
            Stage::AttachUprobes => Stage::AddCallback,
            Stage::AddCallback => Stage::BuildRingbuf,
            Stage::BuildRingbuf => Stage::Ready,
            Stage::Ready => Stage::Ready,
        }
    }
}

/// What is to be done next.
#[derive(Clone, Copy)]
pub enum StartupAction {
    /// Raise the limit on locked memory.
    BumpMemlock,
    /// Open the BPF objects, with debug output if `debug`.
    OpenSkeleton { debug: bool },
    /// Read the ID of this program's namespace of the given kind.
    ReadNamespace { namespace: Namespace },
    /// Set the global variables and load the BPF objects into the kernel.
    LoadSkeleton { globals: BpfGlobals },
    /// Attach the BPF programs to their events.
    AttachPrograms,
    /// Do what attaching the uprobes asks for.
    Uprobe { action: UprobeAction },
    /// Register the audit callback for the ring buffer.
    AddCallback,
    /// Create the ring buffer.
    BuildRingbuf,
    /// Nothing: startup is complete.
    Finished,
    /// Nothing: an operation failed.
    Failed,
}

/// The outcome of an action.
pub enum StartupEvent<E> {
    /// The outcome of an action that gives nothing back.
    Done(Result<(), E>),
    /// The ID of a namespace.
    NamespaceId(Result<u32, E>),
    /// The contents of a binary, or the text of the error that reading it gave.
    Binary(Result<Vec<u8>, String>),
}

/// A [`StartupEvent`] in specifications.
pub enum StartupEventModel<E> {
    Done(Result<(), E>),
    NamespaceId(Result<u32, E>),
    Binary(Result<Seq<u8>, Seq<char>>),
}

impl<E> View for StartupEvent<E> {
    type V = StartupEventModel<E>;

    open spec fn view(&self) -> StartupEventModel<E> {
        match *self {
            StartupEvent::Done(outcome) => StartupEventModel::Done(outcome),
            StartupEvent::NamespaceId(outcome) => StartupEventModel::NamespaceId(outcome),
            StartupEvent::Binary(contents) => StartupEventModel::Binary(
                symbols::contents_model(contents),
            ),
        }
    }
}

impl StartupAction {
    /// Whether an event is an outcome of this action.
    pub open spec fn gives<E>(self, event: StartupEventModel<E>) -> bool {
        match self {
            StartupAction::ReadNamespace { namespace: _ } => event is NamespaceId,
            StartupAction::Uprobe { action } => {
                ||| action is ReadBinary && event is Binary
                ||| action.attaches() && event is Done
            },
            StartupAction::Finished => false,
            StartupAction::Failed => false,
            _ => event is Done,
        }
    }
}

/// How far startup has come.
pub struct StartupModel<E> {
    /// Whether the BPF objects are opened with debug output.
    pub debug: bool,
    /// The process ID of this program.
    pub pid: u32,
    /// The configured audit levels.
    pub levels: Seq<AuditLevel>,
    /// The audit level for no auditing.
    pub none: AuditLevel,
    /// The stage that startup is in.
    pub stage: Stage,
    /// The global variables, each once its value is known.
    pub globals: BpfGlobals,
    /// How far attaching the uprobes has come.
    pub uprobes: UprobeAttachModel,
    /// The failure that ended startup.
    pub failure: Option<FailureModel<E>>,
}

impl<E> StartupModel<E> {
    /// What is to be done next.
    pub open spec fn action(self) -> StartupAction {
        if self.failure is Some {
            StartupAction::Failed
        } else {
            match self.stage {
                Stage::BumpMemlock => StartupAction::BumpMemlock,
                Stage::OpenSkeleton => StartupAction::OpenSkeleton { debug: self.debug },
                Stage::ReadMntNamespace => StartupAction::ReadNamespace {
                    namespace: Namespace::Mnt,
                },
                Stage::ReadPidNamespace => StartupAction::ReadNamespace {
                    namespace: Namespace::Pid,
                },
                Stage::LoadSkeleton => StartupAction::LoadSkeleton { globals: self.globals },
                Stage::AttachPrograms => StartupAction::AttachPrograms,
                Stage::AttachUprobes => StartupAction::Uprobe { action: self.uprobes.action() },
                Stage::AddCallback => StartupAction::AddCallback,
                Stage::BuildRingbuf => StartupAction::BuildRingbuf,
                Stage::Ready => StartupAction::Finished,
            }
        }
    }

    /// An operation of the current stage failed.
    pub open spec fn after_failure(self, cause: E) -> StartupModel<E> {
        StartupModel {
            failure: Some(FailureModel { contexts: self.stage.contexts(), cause }),
            ..self
        }
    }

    /// Attaching the uprobes has come to `uprobes`.
    pub open spec fn after_uprobe(self, uprobes: UprobeAttachModel) -> StartupModel<E> {
        StartupModel {
            uprobes,
            stage: if uprobes.action() is Finished {
                Stage::AddCallback
            } else {
                Stage::AttachUprobes
            },
            ..self
        }
    }

    /// Something has happened that the global variables are set by.
    pub open spec fn after_globals(self, event: GlobalsEvent<E>) -> StartupModel<E> {
        let level = globals::configured_level(self.levels, self.none);
        let set = StartupModel {
            globals: globals::globals_after(self.globals, self.pid, level, event),
            ..self
        };
        match globals::globals_action(event) {
            GlobalsAction::ReadNamespace { namespace: Namespace::Mnt } => StartupModel {
                stage: Stage::ReadMntNamespace,
                ..set
            },
            GlobalsAction::ReadNamespace { namespace: Namespace::Pid } => StartupModel {
                stage: Stage::ReadPidNamespace,
                ..set
            },
            GlobalsAction::Finished => StartupModel { stage: Stage::LoadSkeleton, ..set },
            GlobalsAction::Failed(cause) => set.after_failure(cause),
        }
    }

    /// The current action had the given outcome.
    pub open spec fn after(self, event: StartupEventModel<E>) -> StartupModel<E> {
        match event {
            StartupEventModel::Done(Err(cause)) => if self.stage == Stage::AttachUprobes {
                StartupModel {
                    uprobes: self.uprobes.after_failure(),
                    ..self.after_failure(cause)
                }
            } else {
                self.after_failure(cause)
            },
            StartupEventModel::Done(Ok(())) => if self.stage == Stage::AttachUprobes {
                self.after_uprobe(self.uprobes.after_attach())
            } else if self.stage == Stage::OpenSkeleton {
                self.after_globals(GlobalsEvent::Opened)
            } else {
                StartupModel { stage: self.stage.following(), ..self }
            },
            StartupEventModel::NamespaceId(outcome) => if self.stage == Stage::ReadMntNamespace {
                self.after_globals(GlobalsEvent::NamespaceId(Namespace::Mnt, outcome))
            } else {
                self.after_globals(GlobalsEvent::NamespaceId(Namespace::Pid, outcome))
            },
            StartupEventModel::Binary(contents) => self.after_uprobe(
                self.uprobes.after_read(contents),
            ),
        }
    }
}

/// Startup, one action at a time.
pub struct Startup<E> {
    debug: bool,
    pid: u32,
    audit: AuditSettings,
    stage: Stage,
    globals: BpfGlobals,
    uprobes: UprobeAttach,
    failure: Option<Failure<E>>,
}

impl<E> View for Startup<E> {
    type V = StartupModel<E>;

    closed spec fn view(&self) -> StartupModel<E> {
        StartupModel {
            debug: self.debug,
            pid: self.pid,
            levels: self.audit.levels@,
            none: self.audit.none,
            stage: self.stage,
            globals: self.globals,
            uprobes: self.uprobes@,
            failure: match self.failure {
                Some(failure) => Some(failure@),
                None => None,
            },
        }
    }
}

impl<E> StartupModel<E> {
    /// Nothing has been done yet.
    pub open spec fn start(
        debug: bool,
        pid: u32,
        levels: Seq<AuditLevel>,
        none: AuditLevel,
    ) -> StartupModel<E> {
        StartupModel {
            debug,
            pid,
            levels,
            none,
            stage: Stage::BumpMemlock,
            globals: BpfGlobals {
                bpfcontain_pid: 0,
                host_mnt_ns_id: 0,
                host_pid_ns_id: 0,
                audit_level: 0,
            },
            uprobes: UprobeAttachModel::start(),
            failure: None,
        }
    }
}

impl<E> Startup<E> {
    /// Startup before anything has been done, of a program with the given process ID and audit
    /// settings. `debug` asks for debug output on the BPF objects.
    pub fn new(debug: bool, pid: u32, audit: AuditSettings) -> (startup: Startup<E>)
        ensures
            startup@ == StartupModel::<E>::start(debug, pid, audit.levels@, audit.none),
    {
        Startup {
            debug,
            pid,
            audit,
            stage: Stage::BumpMemlock,
            globals: BpfGlobals {
                bpfcontain_pid: 0,
                host_mnt_ns_id: 0,
                host_pid_ns_id: 0,
                audit_level: 0,
            },
            uprobes: UprobeAttach::new(),
            failure: None,
        }
    }

    /// What is to be done next.
    pub fn action(&self) -> (action: StartupAction)
        ensures
            action == self@.action(),
    {
        if self.failure.is_some() {
            return StartupAction::Failed;
        }
        match self.stage {
            Stage::BumpMemlock => StartupAction::BumpMemlock,
            Stage::OpenSkeleton => StartupAction::OpenSkeleton { debug: self.debug },
            Stage::ReadMntNamespace => StartupAction::ReadNamespace { namespace: Namespace::Mnt },
            Stage::ReadPidNamespace => StartupAction::ReadNamespace { namespace: Namespace::Pid },
            Stage::LoadSkeleton => StartupAction::LoadSkeleton { globals: self.globals },
            Stage::AttachPrograms => StartupAction::AttachPrograms,
            Stage::AttachUprobes => StartupAction::Uprobe { action: self.uprobes.action() },
            Stage::AddCallback => StartupAction::AddCallback,
            Stage::BuildRingbuf => StartupAction::BuildRingbuf,
            Stage::Ready => StartupAction::Finished,
        }
    }

    /// The global variables, each once its value is known.
    pub fn globals(&self) -> (globals: BpfGlobals)
        ensures
            globals == self@.globals,
    {
        self.globals
    }

    /// Sets the global variables that an event gives, and goes on to what follows.
    fn step_globals(&mut self, event: GlobalsEvent<E>)
        requires
            !(old(self)@.stage is Ready),
            old(self)@.failure is None,
        ensures
            final(self)@ == old(self)@.after_globals(event),
    {
        match initialize_bpf_globals(&mut self.globals, self.pid, &self.audit, event) {
            GlobalsAction::ReadNamespace { namespace: Namespace::Mnt } => {
                self.stage = Stage::ReadMntNamespace;
            },
            GlobalsAction::ReadNamespace { namespace: Namespace::Pid } => {
                self.stage = Stage::ReadPidNamespace;
            },
            GlobalsAction::Finished => {
                self.stage = Stage::LoadSkeleton;
            },
            GlobalsAction::Failed(cause) => {
                self.failure = Some(self.stage.failure(cause));
            },
        }
    }

    /// Goes on to what follows the uprobes, once they have all been dealt with.
    fn leave_uprobes(&mut self)
        requires
            old(self)@.stage == Stage::AttachUprobes,
        ensures
            final(self)@ == old(self)@.after_uprobe(old(self)@.uprobes),
    {
        match self.uprobes.action() {
            UprobeAction::Finished => {
                self.stage = Stage::AddCallback;
            },
            _ => {},
        }
    }

    /// Reports the outcome of the current action. Where that action was to read a binary, gives
    /// what the user is to be told of the lookup in it.
    pub fn step(&mut self, event: StartupEvent<E>) -> (report: Option<LookupReport>)
        requires
            old(self)@.action().gives(event@),
        ensures
            final(self)@ == old(self)@.after(event@),
            match event@ {
                StartupEventModel::Binary(contents) => {
                    &&& report is Some
                    &&& uprobes::text_model(report->0.warning)
                        == old(self)@.uprobes.warning_after_read(contents)
                    &&& symbols::lines_model(report->0.output@)
                        == old(self)@.uprobes.lines_after_read(contents)
                },
                _ => report is None,
            },
    {
        match event {
            StartupEvent::Done(outcome) => {
                match self.stage {
                    Stage::AttachUprobes => match self.uprobes.attach_done(outcome) {
                        Ok(()) => self.leave_uprobes(),
                        Err(cause) => {
                            self.failure = Some(self.stage.failure(cause));
                        },
                    },
                    _ => match outcome {
                        Ok(()) => match self.stage {
                            Stage::OpenSkeleton => self.step_globals(GlobalsEvent::Opened),
                            _ => {
                                self.stage = self.stage.next();
                            },
                        },
                        Err(cause) => {
                            self.failure = Some(self.stage.failure(cause));
                        },
                    },
                }
                None
            },
            StartupEvent::NamespaceId(outcome) => {
                match self.stage {
                    Stage::ReadMntNamespace => self.step_globals(
                        GlobalsEvent::NamespaceId(Namespace::Mnt, outcome),
                    ),
                    _ => self.step_globals(GlobalsEvent::NamespaceId(Namespace::Pid, outcome)),
                }
                None
            },
            StartupEvent::Binary(contents) => {
                let report = self.uprobes.binary_read(contents);
                self.leave_uprobes();
                Some(report)
            },
        }
    }
}

impl<E> StartupModel<E> {
    /// What startup has come to, once nothing is left to do: the global variables and the links, or
    /// the failure.
    pub open spec fn outcome(self) -> Result<(BpfGlobals, Seq<Link>), FailureModel<E>> {
        match self.failure {
            None => Ok((self.globals, self.uprobes.attached)),
            Some(failure) => Err(failure),
        }
    }
}

/// The model of what startup has come to.
pub open spec fn outcome_model<E>(outcome: Result<(BpfGlobals, Vec<Link>), Failure<E>>) -> Result<
    (BpfGlobals, Seq<Link>),
    FailureModel<E>,
> {
    match outcome {
        Ok((globals, links)) => Ok((globals, links@)),
        Err(failure) => Err(failure@),
    }
}

impl<E> Startup<E> {
    /// What startup has come to, once nothing is left to do: the global variables and the links, or
    /// the failure.
    pub fn into_outcome(self) -> (outcome: Result<(BpfGlobals, Vec<Link>), Failure<E>>)
        requires
            self@.action() is Finished || self@.action() is Failed,
        ensures
            match self@.failure {
                None => outcome matches Ok((globals, links)) && globals == self@.globals && links@
                    == self@.uprobes.attached,
                Some(failure) => outcome matches Err(error) && error@ == failure,
            },
            outcome_model(outcome) == self@.outcome(),
    {
        match self.failure {
            None => Ok((self.globals, self.uprobes.into_attached())),
            Some(failure) => Err(failure),
        }
    }
}

/// What each operation of startup gives, whenever it is asked for.
pub struct StartupWorld<E> {
    /// The outcome of the operation of a stage that consists of a single one.
    pub operation: spec_fn(Stage) -> Result<(), E>,
    /// The ID of a namespace.
    pub namespace: spec_fn(Namespace) -> Result<u32, E>,
    /// The outcome of attaching a link.
    pub attach: spec_fn(Link) -> Result<(), E>,
    /// The contents of the binary at a path.
    pub binary: spec_fn(Seq<char>) -> Result<Seq<u8>, Seq<char>>,
}

impl<E> StartupWorld<E> {
    /// Which links can be attached.
    pub open spec fn attaches(self) -> spec_fn(Link) -> bool {
        |link: Link| (self.attach)(link) is Ok
    }

    /// Where attaching the uprobes ends.
    pub open spec fn uprobes_end(self) -> UprobeAttachModel {
        UprobeAttachModel::start().end(self.attaches(), self.binary)
    }

    /// The first operation that fails, in the order of the stages: its stage and its error.
    pub open spec fn first_failure(self) -> Option<(Stage, E)> {
        if let Err(cause) = (self.operation)(Stage::BumpMemlock) {
            Some((Stage::BumpMemlock, cause))
        } else if let Err(cause) = (self.operation)(Stage::OpenSkeleton) {
            Some((Stage::OpenSkeleton, cause))
        } else if let Err(cause) = (self.namespace)(Namespace::Mnt) {
            Some((Stage::ReadMntNamespace, cause))
        } else if let Err(cause) = (self.namespace)(Namespace::Pid) {
            Some((Stage::ReadPidNamespace, cause))
        } else if let Err(cause) = (self.operation)(Stage::LoadSkeleton) {
            Some((Stage::LoadSkeleton, cause))
        } else if let Err(cause) = (self.operation)(Stage::AttachPrograms) {
            Some((Stage::AttachPrograms, cause))
        } else if self.uprobes_end().failed {
            Some((Stage::AttachUprobes, (self.attach)(self.uprobes_end().current().link)->Err_0))
        } else if let Err(cause) = (self.operation)(Stage::AddCallback) {
            Some((Stage::AddCallback, cause))
        } else if let Err(cause) = (self.operation)(Stage::BuildRingbuf) {
            Some((Stage::BuildRingbuf, cause))
        } else {
            None
        }
    }
}

impl<E> StartupModel<E> {
    /// The outcome of the current action.
    pub open spec fn answer(self, world: StartupWorld<E>) -> StartupEventModel<E> {
        match self.action() {
            StartupAction::ReadNamespace { namespace } => StartupEventModel::NamespaceId(
                (world.namespace)(namespace),
            ),
            StartupAction::Uprobe { action: UprobeAction::ReadBinary { path } } => {
                StartupEventModel::Binary((world.binary)(path@))
            },
            StartupAction::Uprobe { action: _ } => StartupEventModel::Done(
                (world.attach)(self.uprobes.current().link),
            ),
            _ => StartupEventModel::Done((world.operation)(self.stage)),
        }
    }

    /// Whether nothing is left to do.
    pub open spec fn over(self) -> bool {
        ||| self.failure is Some
        ||| self.stage == Stage::Ready
        ||| self.stage == Stage::AttachUprobes && (self.uprobes.action() is Finished
            || self.uprobes.action() is Failed)
    }

    /// Where startup ends if it is carried on until nothing is left to do.
    pub open spec fn end(self, world: StartupWorld<E>) -> StartupModel<E>
        decreases
            self.stage.stages_left(),
            self.uprobes.steps_left(),
            if self.failure is None { 1nat } else { 0nat },
    {
        if self.over() {
            self
        } else {
            self.after(self.answer(world)).end(world)
        }
    }
}

/// Startup stays with the uprobes until they have come to their end, and then goes on or fails.
proof fn lemma_uprobe_stage<E>(state: StartupModel<E>, world: StartupWorld<E>)
    requires
        state.stage == Stage::AttachUprobes,
        state.failure is None,
        !state.uprobes.failed,
        state.uprobes.position < uprobes::UPROBE_COUNT,
    ensures
        ({
            let end = state.uprobes.end(world.attaches(), world.binary);
            let cause = (world.attach)(end.current().link)->Err_0;
            state.end(world) == if end.failed {
                StartupModel { uprobes: end, ..state.after_failure(cause) }
            } else {
                state.after_uprobe(end).end(world)
            }
        }),
    decreases state.uprobes.steps_left(),
{
    let next = state.after(state.answer(world));
    let uprobes = state.uprobes.step(world.attaches(), world.binary);
    assert(next.uprobes == uprobes);
    if uprobes.failed {
        assert(next.end(world) == next);
        assert(uprobes.end(world.attaches(), world.binary) == uprobes);
    } else if uprobes.position < uprobes::UPROBE_COUNT {
        lemma_uprobe_stage(next, world);
    } else {
        assert(uprobes.end(world.attaches(), world.binary) == uprobes);
    }
}

/// Startup carries out its operations in the order of its stages. If none fails, it finishes with
/// every global variable set and every uprobe attached that is not passed over. Otherwise it stops
/// at the first operation that fails, and its failure is that operation's error together with what
/// was being attempted; where that is to read the ID of a namespace, exactly the global variables
/// before it are set.
pub proof fn law_startup<E>(
    debug: bool,
    pid: u32,
    levels: Seq<AuditLevel>,
    none: AuditLevel,
    world: StartupWorld<E>,
)
    ensures
        ({
            let end = StartupModel::<E>::start(debug, pid, levels, none).end(world);
            match world.first_failure() {
                None => {
                    &&& end.action() is Finished
                    &&& end.globals == BpfGlobals {
                        bpfcontain_pid: pid,
                        host_mnt_ns_id: (world.namespace)(Namespace::Mnt)->Ok_0,
                        host_pid_ns_id: (world.namespace)(Namespace::Pid)->Ok_0,
                        audit_level: globals::configured_level(levels, none).0,
                    }
                    &&& end.uprobes.attached == uprobes::wanted_links(
                        uprobes::UPROBE_COUNT as int,
                        world.binary,
                    )
                },
                Some((stage, cause)) => {
                    &&& end.action() is Failed
                    &&& end.stage == stage
                    &&& end.failure == Some(FailureModel { contexts: stage.contexts(), cause })
                    &&& stage == Stage::ReadMntNamespace ==> end.globals == BpfGlobals {
                        bpfcontain_pid: pid,
                        ..StartupModel::<E>::start(debug, pid, levels, none).globals
                    }
                    &&& stage == Stage::ReadPidNamespace ==> end.globals == BpfGlobals {
                        bpfcontain_pid: pid,
                        host_mnt_ns_id: (world.namespace)(Namespace::Mnt)->Ok_0,
                        ..StartupModel::<E>::start(debug, pid, levels, none).globals
                    }
                },
            }
        }),
{
    let s0 = StartupModel::<E>::start(debug, pid, levels, none);
    let s1 = s0.after(s0.answer(world));
    let s2 = s1.after(s1.answer(world));
    let s3 = s2.after(s2.answer(world));
    let s4 = s3.after(s3.answer(world));
    let s5 = s4.after(s4.answer(world));
    let s6 = s5.after(s5.answer(world));
    assert(s0.end(world) == s1.end(world));
    if s1.failure is None {
        assert(s1.end(world) == s2.end(world));
        if s2.failure is None {
            assert(s2.end(world) == s3.end(world));
            if s3.failure is None {
                assert(s3.end(world) == s4.end(world));
                if s4.failure is None {
                    assert(s4.end(world) == s5.end(world));
                    if s5.failure is None {
                        assert(s5.end(world) == s6.end(world));
                        if s6.failure is None {
                            lemma_uprobe_stage(s6, world);
                            uprobes::law_attach_uprobes(world.attaches(), world.binary);
                            let s7 = s6.after_uprobe(world.uprobes_end());
                            let s8 = s7.after(s7.answer(world));
                            let s9 = s8.after(s8.answer(world));
                            if !world.uprobes_end().failed {
                                assert(s7.end(world) == s8.end(world));
                                if s8.failure is None {
                                    assert(s8.end(world) == s9.end(world));
                                }
                            }
                        }
                    }
                }
            }
        }
    }
}

/// As long as nothing failed, the next action is the operation of the stage that startup is in; once
/// something failed, there is none.
pub proof fn law_action_of_stage<E>(state: StartupModel<E>)
    ensures
        state.failure is Some <==> state.action() is Failed,
        state.failure is None ==> match state.action() {
            StartupAction::BumpMemlock => state.stage == Stage::BumpMemlock,
            StartupAction::OpenSkeleton { debug } => state.stage == Stage::OpenSkeleton && debug
                == state.debug,
            StartupAction::ReadNamespace { namespace: Namespace::Mnt } => state.stage
                == Stage::ReadMntNamespace,
            StartupAction::ReadNamespace { namespace: Namespace::Pid } => state.stage
                == Stage::ReadPidNamespace,
            StartupAction::LoadSkeleton { globals } => state.stage == Stage::LoadSkeleton && globals
                == state.globals,
            StartupAction::AttachPrograms => state.stage == Stage::AttachPrograms,
            StartupAction::Uprobe { action } => state.stage == Stage::AttachUprobes && action
                == state.uprobes.action(),
            StartupAction::AddCallback => state.stage == Stage::AddCallback,
            StartupAction::BuildRingbuf => state.stage == Stage::BuildRingbuf,
            StartupAction::Finished => state.stage == Stage::Ready,
            StartupAction::Failed => false,
        },
{
}

/// Whatever an operation gives, startup can be told of it.
pub proof fn law_any_outcome<E>(state: StartupModel<E>, world: StartupWorld<E>)
    requires
        !state.over(),
    ensures
        state.action().gives(state.answer(world)),
{
}

impl<E> StartupModel<E> {
    /// Where startup is after the given number of actions, or at its end if it has fewer.
    pub open spec fn after_actions(self, world: StartupWorld<E>, count: nat) -> StartupModel<E>
        decreases count,
    {
        if count == 0 {
            self
        } else {
            let before = self.after_actions(world, (count - 1) as nat);
            if before.over() {
                before
            } else {
                before.after(before.answer(world))
            }
        }
    }
}

/// What startup keeps of what it was told, at each stage.
spec fn remembers<E>(
    state: StartupModel<E>,
    debug: bool,
    pid: u32,
    levels: Seq<AuditLevel>,
    none: AuditLevel,
    world: StartupWorld<E>,
) -> bool {
    let left = state.stage.stages_left();
    &&& state.debug == debug
    &&& state.pid == pid
    &&& state.levels == levels
    &&& state.none == none
    &&& left <= 8 ==> (world.operation)(Stage::BumpMemlock) is Ok
    &&& left <= 7 ==> {
        &&& (world.operation)(Stage::OpenSkeleton) is Ok
        &&& state.globals.bpfcontain_pid == pid
    }
    &&& left <= 6 ==> (world.namespace)(Namespace::Mnt) == Ok::<u32, E>(
        state.globals.host_mnt_ns_id,
    )
    &&& left <= 5 ==> {
        &&& (world.namespace)(Namespace::Pid) == Ok::<u32, E>(state.globals.host_pid_ns_id)
        &&& state.globals.audit_level == globals::configured_level(levels, none).0
    }
    &&& left <= 4 ==> (world.operation)(Stage::LoadSkeleton) is Ok
    &&& left <= 3 ==> (world.operation)(Stage::AttachPrograms) is Ok
}

/// Startup keeps what it was told through any number of actions.
proof fn lemma_remembers<E>(
    debug: bool,
    pid: u32,
    levels: Seq<AuditLevel>,
    none: AuditLevel,
    world: StartupWorld<E>,
    count: nat,
)
    ensures
        remembers(
            StartupModel::<E>::start(debug, pid, levels, none).after_actions(world, count),
            debug,
            pid,
            levels,
            none,
            world,
        ),
    decreases count,
{
    if count > 0 {
        lemma_remembers(debug, pid, levels, none, world, (count - 1) as nat);
    }
}

/// Whenever startup asks for the BPF objects to be opened, it asks for debug output exactly as it
/// was told to.
pub proof fn law_opened_as_told<E>(
    debug: bool,
    pid: u32,
    levels: Seq<AuditLevel>,
    none: AuditLevel,
    world: StartupWorld<E>,
    count: nat,
)
    ensures
        StartupModel::<E>::start(debug, pid, levels, none).after_actions(
            world,
            count,
        ).action() matches StartupAction::OpenSkeleton { debug: asked } ==> asked == debug
            && (world.operation)(Stage::BumpMemlock) is Ok,
{
    lemma_remembers(debug, pid, levels, none, world, count);
}

/// Whenever startup asks for the BPF objects to be loaded, it asks for them to be loaded with this
/// program's process ID, with the very IDs that reading the two namespaces gave, and with a level
/// that audits a kind of event exactly if one of the configured levels does, or with the level for
/// no auditing if none is configured.
pub proof fn law_loaded_globals<E>(
    debug: bool,
    pid: u32,
    levels: Seq<AuditLevel>,
    none: AuditLevel,
    world: StartupWorld<E>,
    count: nat,
    position: u32,
)
    requires
        position < 32,
    ensures
        StartupModel::<E>::start(debug, pid, levels, none).after_actions(
            world,
            count,
        ).action() matches StartupAction::LoadSkeleton { globals: loaded } ==> {
            &&& loaded.bpfcontain_pid == pid
            &&& (world.namespace)(Namespace::Mnt) == Ok::<u32, E>(loaded.host_mnt_ns_id)
            &&& (world.namespace)(Namespace::Pid) == Ok::<u32, E>(loaded.host_pid_ns_id)
            &&& levels.len() == 0 ==> loaded.audit_level == none.0
            &&& levels.len() > 0 ==> ((loaded.audit_level >> position) & 1 == 1 <==> exists|i: int|
                0 <= i < levels.len() && ((#[trigger] levels[i]).0 >> position) & 1 == 1)
            &&& (world.operation)(Stage::BumpMemlock) is Ok
            &&& (world.operation)(Stage::OpenSkeleton) is Ok
        },
{
    lemma_remembers(debug, pid, levels, none, world, count);
    globals::law_configured_level(levels, none, position);
}

/// What startup finishes with is what the BPF objects were loaded with: this program's process ID,
/// the IDs that reading the two namespaces gave, and the configured level.
pub proof fn law_finished_globals<E>(
    debug: bool,
    pid: u32,
    levels: Seq<AuditLevel>,
    none: AuditLevel,
    world: StartupWorld<E>,
    count: nat,
    position: u32,
)
    requires
        position < 32,
    ensures
        ({
            let state = StartupModel::<E>::start(debug, pid, levels, none).after_actions(
                world,
                count,
            );
            state.action() is Finished ==> {
                &&& state.globals.bpfcontain_pid == pid
                &&& (world.namespace)(Namespace::Mnt) == Ok::<u32, E>(state.globals.host_mnt_ns_id)
                &&& (world.namespace)(Namespace::Pid) == Ok::<u32, E>(state.globals.host_pid_ns_id)
                &&& levels.len() == 0 ==> state.globals.audit_level == none.0
                &&& levels.len() > 0 ==> ((state.globals.audit_level >> position) & 1 == 1
                    <==> exists|i: int|
                    0 <= i < levels.len() && ((#[trigger] levels[i]).0 >> position) & 1 == 1)
            }
        }),
{
    lemma_remembers(debug, pid, levels, none, world, count);
    globals::law_configured_level(levels, none, position);
}

/// Startup first raises the limit on locked memory, then opens the BPF objects, reads the mount and
/// the process ID namespace, loads the objects, and attaches the programs, as long as nothing fails.
pub proof fn law_first_actions<E>(
    debug: bool,
    pid: u32,
    levels: Seq<AuditLevel>,
    none: AuditLevel,
    world: StartupWorld<E>,
)
    requires
        (world.operation)(Stage::BumpMemlock) is Ok,
        (world.operation)(Stage::OpenSkeleton) is Ok,
        (world.namespace)(Namespace::Mnt) is Ok,
        (world.namespace)(Namespace::Pid) is Ok,
        (world.operation)(Stage::LoadSkeleton) is Ok,
        (world.operation)(Stage::AttachPrograms) is Ok,
    ensures
        ({
            let start = StartupModel::<E>::start(debug, pid, levels, none);
            &&& start.after_actions(world, 0).action() is BumpMemlock
            &&& start.after_actions(world, 1).action() == StartupAction::OpenSkeleton { debug }
            &&& start.after_actions(world, 2).action() == (StartupAction::ReadNamespace {
                namespace: Namespace::Mnt,
            })
            &&& start.after_actions(world, 3).action() == (StartupAction::ReadNamespace {
                namespace: Namespace::Pid,
            })
            &&& start.after_actions(world, 4).action() is LoadSkeleton
            &&& start.after_actions(world, 5).action() is AttachPrograms
            &&& start.after_actions(world, 6).action() is Uprobe
        }),
{
    reveal_with_fuel(StartupModel::after_actions, 8);
}

/// An outcome is taken as it is reported: the ID of a namespace goes into the variable for it, an
/// error becomes the cause of the failure, and the whole of a binary is what the lookup searches.
pub proof fn law_outcome_taken<E>(state: StartupModel<E>, event: StartupEvent<E>)
    requires
        state.failure is None,
        state.action().gives(event@),
    ensures
        match event {
            StartupEvent::NamespaceId(Ok(id)) => {
                let after = state.after(event@);
                &&& state.stage == Stage::ReadMntNamespace ==> {
                    &&& after.globals.host_mnt_ns_id == id
                    &&& after.globals.host_pid_ns_id == state.globals.host_pid_ns_id
                    &&& after.action() == (StartupAction::ReadNamespace {
                        namespace: Namespace::Pid,
                    })
                }
                &&& state.stage == Stage::ReadPidNamespace ==> {
                    &&& after.globals.host_pid_ns_id == id
                    &&& after.globals.host_mnt_ns_id == state.globals.host_mnt_ns_id
                    &&& after.action() == (StartupAction::LoadSkeleton { globals: after.globals })
                }
                &&& after.failure is None
                &&& after.globals.bpfcontain_pid == state.globals.bpfcontain_pid
            },
            StartupEvent::NamespaceId(Err(cause)) => {
                &&& state.after(event@).failure matches Some(failure)
                &&& failure.cause == cause
                &&& state.after(event@).globals == state.globals
            },
            StartupEvent::Done(Ok(())) => state.after(event@).failure is None,
            StartupEvent::Done(Err(cause)) => {
                &&& state.after(event@).failure matches Some(failure)
                &&& failure.cause == cause
                &&& state.after(event@).globals == state.globals
            },
            StartupEvent::Binary(Ok(data)) => state.after(event@).uprobes
                == state.uprobes.after_read(Ok(data@)),
            StartupEvent::Binary(Err(text)) => state.after(event@).uprobes
                == state.uprobes.after_read(Err(text@)),
        },
{
}

/// Reports can be made of every outcome of the current action, whatever it holds.
pub proof fn law_every_report<E>(state: StartupModel<E>, event: StartupEvent<E>)
    requires
        !state.over(),
    ensures
        state.action().gives(event@) <==> match state.action() {
            StartupAction::ReadNamespace { namespace: _ } => event is NamespaceId,
            StartupAction::Uprobe { action: UprobeAction::ReadBinary { path: _ } } => event is Binary,
            _ => event is Done,
        },
{
}

/// A run of startup comes to an error exactly if one of its operations fails, and the cause is the
/// error of the first that does. Otherwise it comes to the variables that the BPF objects were loaded
/// with, and to the links of the uprobes that were not passed over, in the order of the plan.
pub proof fn law_outcome<E>(
    debug: bool,
    pid: u32,
    levels: Seq<AuditLevel>,
    none: AuditLevel,
    world: StartupWorld<E>,
    outcome: Result<(BpfGlobals, Vec<Link>), Failure<E>>,
)
    requires
        outcome_model(outcome) == StartupModel::<E>::start(debug, pid, levels, none).end(
            world,
        ).outcome(),
    ensures
        outcome is Err <==> world.first_failure() is Some,
        outcome matches Err(failure) ==> world.first_failure() matches Some((_, cause))
            && failure.cause == cause,
        outcome matches Ok((globals, links)) ==> {
            &&& globals.bpfcontain_pid == pid
            &&& (world.namespace)(Namespace::Mnt) == Ok::<u32, E>(globals.host_mnt_ns_id)
            &&& (world.namespace)(Namespace::Pid) == Ok::<u32, E>(globals.host_pid_ns_id)
            &&& globals.audit_level == globals::configured_level(levels, none).0
            &&& links@ == uprobes::wanted_links(uprobes::UPROBE_COUNT as int, world.binary)
        },
{
    law_startup(debug, pid, levels, none, world);
}

} // verus!

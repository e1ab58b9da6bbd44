//! Attaching uprobes to the functions whose calls the kernel side watches.
//!
//! [`UprobeAttach`] decides what is attached, where, and in which order, and what follows from
//! each outcome; its caller performs one [`UprobeAction`] at a time and reports how it went.

use vstd::prelude::*;
use vstd::string::StringExecFns;

use crate::symbols;
use crate::symbols::{get_symbol_address, lookup_output, SymbolErrorModel, RUNC_BINARY_PATH};

verus! {

/// The binary of the Docker daemon.
pub const DOCKERD_BINARY_PATH: &'static str = "/usr/bin/dockerd";

/// The binary of the CRI-O daemon.
pub const CRIO_BINARY_PATH: &'static str = "/usr/local/bin/crio";

/// Uprobes fire when a function is entered, not when it returns.
pub const UPROBE_ON_RETURN: bool = false;

/// The process ID that stands for every process.
pub const UPROBE_ANY_PID: i32 = -1;

/// A link between a BPF program and the function that it is attached to.
#[derive(Clone, Copy, PartialEq, Eq, Structural, Debug)]
pub enum Link {
    DoContainerize,
    DoApplyPolicyToContainer,
    RuncXCgoInitEnter,
    DockerdContainerRunningEnter,
    CrioMainEnter,
    RuncStartContainerEnter,
    RuncCreateContainerEnter,
    RuncInitProcEnter,
    RuncInitProcStartEnter,
    RuncWaitForChildExitEnter,
    RuncStartEnter,
    RuncDestroyEnter,
}

/// What a BPF program is attached to.
#[derive(Clone, Copy)]
pub enum Target {
    /// A function of this program, by its address in memory.
    OwnFunction,
    /// A function of another binary, whose address is looked up first. Where that fails, the
    /// program is not attached and `warning` is logged, followed by the reason.
    OptionalFunction { path: &'static str, symbol: &'static str, warning: &'static str },
    /// A function of another binary, by its symbol.
    Function { path: &'static str, symbol: &'static str },
}

/// A BPF program's link and what it is attached to.
#[derive(Clone, Copy)]
pub struct Uprobe {
    pub link: Link,
    pub target: Target,
}

/// The number of uprobes.
pub const UPROBE_COUNT: usize = 12;

/// All uprobes, in the order in which they are attached.
pub open spec fn uprobe_plan() -> Seq<Uprobe> {
    seq![
        Uprobe { link: Link::DoContainerize, target: Target::OwnFunction },
        Uprobe { link: Link::DoApplyPolicyToContainer, target: Target::OwnFunction },
        Uprobe {
            link: Link::RuncXCgoInitEnter,
            target: Target::OptionalFunction {
                path: RUNC_BINARY_PATH,
                symbol: "x_cgo_init",
                warning: "Docker support will not work! runc uprobe could not be attached: ",
            },
        },
        Uprobe {
            link: Link::DockerdContainerRunningEnter,
            target: Target::OptionalFunction {
                path: DOCKERD_BINARY_PATH,
                symbol: "github.com/docker/docker/container.(*State).SetRunning",
                warning: "Docker support will not work! dockerd uprobe could not be attached: ",
            },
        },
        Uprobe {
            link: Link::CrioMainEnter,
            target: Target::Function { path: CRIO_BINARY_PATH, symbol: "main.main" },
        },
        Uprobe {
            link: Link::RuncStartContainerEnter,
            target: Target::Function { path: RUNC_BINARY_PATH, symbol: "main.startContainer" },
        },
        Uprobe {
            link: Link::RuncCreateContainerEnter,
            target: Target::Function { path: RUNC_BINARY_PATH, symbol: "main.createContainer" },
        },
        Uprobe {
            link: Link::RuncInitProcEnter,
            target: Target::Function {
                path: RUNC_BINARY_PATH,
                symbol: "github.com/opencontainers/runc/libcontainer.(*linuxContainer).newInitProcess",
            },
        },
        Uprobe {
            link: Link::RuncInitProcStartEnter,
            target: Target::Function {
                path: RUNC_BINARY_PATH,
                symbol: "github.com/opencontainers/runc/libcontainer.(*linuxContainer).newInitProcess",
            },
        },
        Uprobe {
            link: Link::RuncWaitForChildExitEnter,
            target: Target::Function {
                path: RUNC_BINARY_PATH,
                symbol: "github.com/opencontainers/runc/libcontainer.(*initProcess).waitForChildExit",
            },
        },
        Uprobe {
            link: Link::RuncStartEnter,
            target: Target::Function {
                path: RUNC_BINARY_PATH,
                symbol: "github.com/opencontainers/runc/libcontainer.(*linuxContainer).exec",
            },
        },
        Uprobe {
            link: Link::RuncDestroyEnter,
            target: Target::Function { path: RUNC_BINARY_PATH, symbol: "main.destroy" },
        },
    ]
}

/// The uprobe at a position of the plan.
pub fn uprobe(position: usize) -> (entry: Uprobe)
    requires
        position < UPROBE_COUNT,
    ensures
        entry == uprobe_plan()[position as int],
{
    match position {
        0 => Uprobe { link: Link::DoContainerize, target: Target::OwnFunction },
        1 => Uprobe { link: Link::DoApplyPolicyToContainer, target: Target::OwnFunction },
        2 => Uprobe {
            link: Link::RuncXCgoInitEnter,
            target: Target::OptionalFunction {
                path: RUNC_BINARY_PATH,
                symbol: "x_cgo_init",
                warning: "Docker support will not work! runc uprobe could not be attached: ",
            },
        },
        3 => Uprobe {
            link: Link::DockerdContainerRunningEnter,
            target: Target::OptionalFunction {
                path: DOCKERD_BINARY_PATH,
                symbol: "github.com/docker/docker/container.(*State).SetRunning",
                warning: "Docker support will not work! dockerd uprobe could not be attached: ",
            },
        },
        4 => Uprobe {
            link: Link::CrioMainEnter,
            target: Target::Function { path: CRIO_BINARY_PATH, symbol: "main.main" },
        },
        5 => Uprobe {
            link: Link::RuncStartContainerEnter,
            target: Target::Function { path: RUNC_BINARY_PATH, symbol: "main.startContainer" },
        },
        6 => Uprobe {
            link: Link::RuncCreateContainerEnter,
            target: Target::Function { path: RUNC_BINARY_PATH, symbol: "main.createContainer" },
        },
        7 => Uprobe {
            link: Link::RuncInitProcEnter,
            target: Target::Function {
                path: RUNC_BINARY_PATH,
                symbol: "github.com/opencontainers/runc/libcontainer.(*linuxContainer).newInitProcess",
            },
        },
        8 => Uprobe {
            link: Link::RuncInitProcStartEnter,
            target: Target::Function {
                path: RUNC_BINARY_PATH,
                symbol: "github.com/opencontainers/runc/libcontainer.(*linuxContainer).newInitProcess",
            },
        },
        9 => Uprobe {
            link: Link::RuncWaitForChildExitEnter,
            target: Target::Function {
                path: RUNC_BINARY_PATH,
                symbol: "github.com/opencontainers/runc/libcontainer.(*initProcess).waitForChildExit",
            },
        },
        10 => Uprobe {
            link: Link::RuncStartEnter,
            target: Target::Function {
                path: RUNC_BINARY_PATH,
                symbol: "github.com/opencontainers/runc/libcontainer.(*linuxContainer).exec",
            },
        },
        _ => Uprobe {
            link: Link::RuncDestroyEnter,
            target: Target::Function { path: RUNC_BINARY_PATH, symbol: "main.destroy" },
        },
    }
}

/// What is to be done next. A link is attached to the return of a function if `on_return`, to its
/// entry otherwise, and in the process called `pid`.
#[derive(Clone, Copy)]
pub enum UprobeAction {
    /// Attach the link to the function of this program that the link is named after.
    AttachFunction { link: Link, on_return: bool, pid: i32 },
    /// Read the binary at `path`, in which a function is then looked up.
    ReadBinary { path: &'static str },
    /// Attach the link to the given address in the binary at `path`.
    AttachAddress { link: Link, on_return: bool, pid: i32, path: &'static str, address: usize },
    /// Attach the link to the function called `symbol` in the binary at `path`.
    AttachSymbol {
        link: Link,
        on_return: bool,
        pid: i32,
        path: &'static str,
        symbol: &'static str,
    },
    /// Nothing: everything has been attached.
    Finished,
    /// Nothing: an attempt to attach failed.
    Failed,
}

impl UprobeAction {
    /// Whether the action attaches a link.
    pub open spec fn attaches(self) -> bool {
        self is AttachFunction || self is AttachAddress || self is AttachSymbol
    }
}

/// How far attaching has come.
pub struct UprobeAttachModel {
    /// The number of uprobes that have been dealt with.
    pub position: int,
    /// The address of the current uprobe's function, once it has been looked up.
    pub resolved: Option<usize>,
    /// The links that have been attached, in order.
    pub attached: Seq<Link>,
    /// Whether an attempt to attach failed.
    pub failed: bool,
}

impl UprobeAttachModel {
    /// Nothing has been attached yet.
    pub open spec fn start() -> UprobeAttachModel {
        UprobeAttachModel { position: 0, resolved: None, attached: Seq::empty(), failed: false }
    }

    /// The uprobe that is dealt with now.
    pub open spec fn current(self) -> Uprobe {
        uprobe_plan()[self.position]
    }

    /// What is to be done next.
    pub open spec fn action(self) -> UprobeAction {
        if self.failed {
            UprobeAction::Failed
        } else if self.position >= UPROBE_COUNT {
            UprobeAction::Finished
        } else {
            let link = self.current().link;
            match self.current().target {
                Target::OwnFunction => UprobeAction::AttachFunction {
                    link,
                    on_return: UPROBE_ON_RETURN,
                    pid: UPROBE_ANY_PID,
                },
                Target::Function { path, symbol } => UprobeAction::AttachSymbol {
                    link,
                    on_return: UPROBE_ON_RETURN,
                    pid: UPROBE_ANY_PID,
                    path,
                    symbol,
                },
                Target::OptionalFunction { path, symbol: _, warning: _ } => match self.resolved {
                    None => UprobeAction::ReadBinary { path },
                    Some(address) => UprobeAction::AttachAddress {
                        link,
                        on_return: UPROBE_ON_RETURN,
                        pid: UPROBE_ANY_PID,
                        path,
                        address,
                    },
                },
            }
        }
    }

    /// The current uprobe has been attached.
    pub open spec fn after_attach(self) -> UprobeAttachModel {
        UprobeAttachModel {
            position: self.position + 1,
            resolved: None,
            attached: self.attached.push(self.current().link),
            failed: false,
        }
    }

    /// The current uprobe could not be attached.
    pub open spec fn after_failure(self) -> UprobeAttachModel {
        UprobeAttachModel { failed: true, ..self }
    }

    /// The result of the lookup of the current uprobe's function, given what reading its binary
    /// gives.
    pub open spec fn lookup(self, contents: Result<Seq<u8>, Seq<char>>) -> Result<
        usize,
        SymbolErrorModel,
    > {
        match self.current().target {
            Target::OptionalFunction { path, symbol, warning: _ } => symbols::symbol_address(
                path@,
                symbol@,
                contents,
            ),
            _ => Err(SymbolErrorModel::NoSymbol),
        }
    }

    /// The current uprobe's binary has been read: its function's address is known, or it is passed
    /// over.
    pub open spec fn after_read(self, contents: Result<Seq<u8>, Seq<char>>) -> UprobeAttachModel {
        match self.lookup(contents) {
            Ok(address) => UprobeAttachModel { resolved: Some(address), ..self },
            Err(_) => UprobeAttachModel { position: self.position + 1, resolved: None, ..self },
        }
    }

    /// What is logged as a warning once the current uprobe's binary has been read.
    pub open spec fn warning_after_read(self, contents: Result<Seq<u8>, Seq<char>>) -> Option<
        Seq<char>,
    > {
        match (self.current().target, self.lookup(contents)) {
            (Target::OptionalFunction { path: _, symbol: _, warning }, Err(error)) => Some(
                warning@ + error.text(),
            ),
            _ => None,
        }
    }

    /// What is printed once the current uprobe's binary has been read.
    pub open spec fn lines_after_read(self, contents: Result<Seq<u8>, Seq<char>>) -> Seq<
        Seq<char>,
    > {
        match self.current().target {
            Target::OptionalFunction { path, symbol, warning: _ } => symbols::lookup_lines(
                path@,
                symbol@,
                self.lookup(contents),
            ),
            _ => Seq::empty(),
        }
    }
}

/// The model of a text that may be absent.
pub open spec fn text_model(text: Option<String>) -> Option<Seq<char>> {
    match text {
        Some(text) => Some(text@),
        None => None,
    }
}

/// What the caller tells the user after a lookup.
pub struct LookupReport {
    /// Lines for standard output.
    pub output: Vec<String>,
    /// A warning for the log.
    pub warning: Option<String>,
}

/// Attaching the uprobes, one action at a time.
pub struct UprobeAttach {
    position: usize,
    resolved: Option<usize>,
    attached: Vec<Link>,
    failed: bool,
}

impl View for UprobeAttach {
    type V = UprobeAttachModel;

    closed spec fn view(&self) -> UprobeAttachModel {
        UprobeAttachModel {
            position: self.position as int,
            resolved: self.resolved,
            attached: self.attached@,
            failed: self.failed,
        }
    }
}

impl UprobeAttach {
    /// Nothing has been attached yet.
    pub fn new() -> (state: UprobeAttach)
        ensures
            state@ == UprobeAttachModel::start(),
    {
        UprobeAttach { position: 0, resolved: None, attached: Vec::new(), failed: false }
    }

    /// What is to be done next.
    pub fn action(&self) -> (action: UprobeAction)
        ensures
            action == self@.action(),
    {
        if self.failed {
            return UprobeAction::Failed;
        }
        if self.position >= UPROBE_COUNT {
            return UprobeAction::Finished;
        }
        let entry = uprobe(self.position);
        let link = entry.link;
        match entry.target {
            Target::OwnFunction => UprobeAction::AttachFunction {
                link,
                on_return: UPROBE_ON_RETURN,
                pid: UPROBE_ANY_PID,
            },
            Target::Function { path, symbol } => UprobeAction::AttachSymbol {
                link,
                on_return: UPROBE_ON_RETURN,
                pid: UPROBE_ANY_PID,
                path,
                symbol,
            },
            Target::OptionalFunction { path, symbol: _, warning: _ } => match self.resolved {
                None => UprobeAction::ReadBinary { path },
                Some(address) => UprobeAction::AttachAddress {
                    link,
                    on_return: UPROBE_ON_RETURN,
                    pid: UPROBE_ANY_PID,
                    path,
                    address,
                },
            },
        }
    }

    /// The links that have been attached, in order.
    pub fn into_attached(self) -> (links: Vec<Link>)
        ensures
            links@ == self@.attached,
    {
        self.attached
    }

    /// Reports the outcome of an action that attaches a link. A failure is handed back, and nothing
    /// more is done after it.
    pub fn attach_done<E>(&mut self, outcome: Result<(), E>) -> (result: Result<(), E>)
        requires
            old(self)@.action().attaches(),
        ensures
            result == outcome,
            final(self)@ == (if outcome is Ok {
                old(self)@.after_attach()
            } else {
                old(self)@.after_failure()
            }),
    {
        if outcome.is_ok() {
            self.attached.push(uprobe(self.position).link);
            self.position += 1;
            self.resolved = None;
        } else {
            self.failed = true;
        }
        outcome
    }

    /// Reports the contents of the binary that was to be read, or the text of the error that
    /// reading it gave. Where the function cannot be found, its uprobe is passed over with a
    /// warning.
    pub fn binary_read(&mut self, contents: Result<Vec<u8>, String>) -> (report: LookupReport)
        requires
            old(self)@.action() is ReadBinary,
        ensures
            final(self)@ == old(self)@.after_read(symbols::contents_model(contents)),
            text_model(report.warning) == old(self)@.warning_after_read(symbols::contents_model(contents)),
            symbols::lines_model(report.output@) == old(self)@.lines_after_read(symbols::contents_model(contents)),
    {
        match uprobe(self.position).target {
            Target::OptionalFunction { path, symbol, warning } => {
                let result = get_symbol_address(path, symbol, contents);
                let output = lookup_output(path, symbol, &result);
                match result {
                    Ok(address) => {
                        self.resolved = Some(address);
                        LookupReport { output, warning: None }
                    },
                    Err(error) => {
                        self.position += 1;
                        let text = warning.to_owned().concat(error.message().as_str());
                        LookupReport { output, warning: Some(text) }
                    },
                }
            },
            _ => LookupReport { output: Vec::new(), warning: None },
        }
    }
}

impl UprobeAttachModel {
    /// One action and its outcome, where `attaches` says which links can be attached and `binary`
    /// what reading the binary at a path gives.
    pub open spec fn step(
        self,
        attaches: spec_fn(Link) -> bool,
        binary: spec_fn(Seq<char>) -> Result<Seq<u8>, Seq<char>>,
    ) -> UprobeAttachModel {
        match self.action() {
            UprobeAction::ReadBinary { path } => self.after_read(binary(path@)),
            UprobeAction::Finished => self,
            UprobeAction::Failed => self,
            _ => if attaches(self.current().link) {
                self.after_attach()
            } else {
                self.after_failure()
            },
        }
    }

    /// A bound on the number of actions that are left.
    pub open spec fn steps_left(self) -> nat {
        if self.failed || self.position >= UPROBE_COUNT {
            0
        } else if self.resolved is None {
            (2 * (UPROBE_COUNT - self.position)) as nat
        } else {
            (2 * (UPROBE_COUNT - self.position) - 1) as nat
        }
    }

    /// Where attaching ends if it is carried on until nothing is left to do.
    pub open spec fn end(
        self,
        attaches: spec_fn(Link) -> bool,
        binary: spec_fn(Seq<char>) -> Result<Seq<u8>, Seq<char>>,
    ) -> UprobeAttachModel
        decreases self.steps_left(),
    {
        if self.failed || self.position >= UPROBE_COUNT {
            self
        } else {
            self.step(attaches, binary).end(attaches, binary)
        }
    }
}

/// Every link is attached to the entry of its function, in all processes, however far attaching
/// has come.
pub proof fn law_entry_of_all_processes(state: UprobeAttachModel)
    ensures
        match state.action() {
            UprobeAction::AttachFunction { link: _, on_return, pid } => !on_return && pid == -1,
            UprobeAction::AttachAddress { link: _, on_return, pid, path: _, address: _ } => !on_return
                && pid == -1,
            UprobeAction::AttachSymbol { link: _, on_return, pid, path: _, symbol: _ } => !on_return
                && pid == -1,
            _ => !state.action().attaches(),
        },
{
}

/// Whether a link is to be attached at all: a function that has to be looked up first is passed
/// over where the lookup fails.
pub open spec fn wanted(
    entry: Uprobe,
    binary: spec_fn(Seq<char>) -> Result<Seq<u8>, Seq<char>>,
) -> bool {
    match entry.target {
        Target::OptionalFunction { path, symbol, warning: _ } => symbols::symbol_address(
            path@,
            symbol@,
            binary(path@),
        ) is Ok,
        _ => true,
    }
}

/// The links to be attached among the first `count` of the plan, in order.
pub open spec fn wanted_links(
    count: int,
    binary: spec_fn(Seq<char>) -> Result<Seq<u8>, Seq<char>>,
) -> Seq<Link>
    decreases count,
{
    if count <= 0 {
        Seq::empty()
    } else if wanted(uprobe_plan()[count - 1], binary) {
        wanted_links(count - 1, binary).push(uprobe_plan()[count - 1].link)
    } else {
        wanted_links(count - 1, binary)
    }
}

/// Whether every link to be attached among the first `count` of the plan can be attached.
pub open spec fn all_attach(
    count: int,
    attaches: spec_fn(Link) -> bool,
    binary: spec_fn(Seq<char>) -> Result<Seq<u8>, Seq<char>>,
) -> bool {
    forall|i: int|
        0 <= i < count && wanted(#[trigger] uprobe_plan()[i], binary) ==> attaches(
            uprobe_plan()[i].link,
        )
}

/// Where attaching ends from a state that it reaches without a failure.
proof fn lemma_end(
    state: UprobeAttachModel,
    attaches: spec_fn(Link) -> bool,
    binary: spec_fn(Seq<char>) -> Result<Seq<u8>, Seq<char>>,
)
    requires
        0 <= state.position <= UPROBE_COUNT,
        !state.failed,
        state.attached == wanted_links(state.position, binary),
        all_attach(state.position, attaches, binary),
        state.resolved is Some ==> state.position < UPROBE_COUNT && wanted(state.current(), binary),
    ensures
        all_attach(UPROBE_COUNT as int, attaches, binary) ==> {
            let end = state.end(attaches, binary);
            &&& end.action() is Finished
            &&& end.attached == wanted_links(UPROBE_COUNT as int, binary)
        },
        !all_attach(UPROBE_COUNT as int, attaches, binary) ==> {
            let end = state.end(attaches, binary);
            &&& end.action() is Failed
            &&& 0 <= end.position < UPROBE_COUNT
            &&& end.attached == wanted_links(end.position, binary)
            &&& all_attach(end.position, attaches, binary)
            &&& wanted(uprobe_plan()[end.position], binary)
            &&& !attaches(uprobe_plan()[end.position].link)
        },
    decreases state.steps_left(),
{
    if state.position < UPROBE_COUNT {
        let next = state.step(attaches, binary);
        if next.failed {
            assert(next.end(attaches, binary) == next);
            assert(!all_attach(UPROBE_COUNT as int, attaches, binary)) by {
                assert(wanted(uprobe_plan()[state.position], binary));
            }
        } else {
            lemma_end(next, attaches, binary);
        }
    }
}

/// Attaching goes through the uprobes in the plan's order. It passes over exactly those whose
/// function is looked up first and not found. If every other one can be attached, it finishes with
/// all of them attached; otherwise it stops at the first that cannot be, with those before it
/// attached and nothing tried after it.
pub proof fn law_attach_uprobes(
    attaches: spec_fn(Link) -> bool,
    binary: spec_fn(Seq<char>) -> Result<Seq<u8>, Seq<char>>,
)
    ensures
        all_attach(UPROBE_COUNT as int, attaches, binary) ==> {
            let end = UprobeAttachModel::start().end(attaches, binary);
            &&& end.action() is Finished
            &&& end.attached == wanted_links(UPROBE_COUNT as int, binary)
        },
        !all_attach(UPROBE_COUNT as int, attaches, binary) ==> {
            let end = UprobeAttachModel::start().end(attaches, binary);
            &&& end.action() is Failed
            &&& 0 <= end.position < UPROBE_COUNT
            &&& end.attached == wanted_links(end.position, binary)
            &&& all_attach(end.position, attaches, binary)
            &&& wanted(uprobe_plan()[end.position], binary)
            &&& !attaches(uprobe_plan()[end.position].link)
        },
{
    lemma_end(UprobeAttachModel::start(), attaches, binary);
}

/// A link is among the wanted ones of a prefix of the plan exactly if it is in the prefix and
/// wanted.
proof fn lemma_wanted_links(
    count: int,
    link: Link,
    binary: spec_fn(Seq<char>) -> Result<Seq<u8>, Seq<char>>,
)
    requires
        0 <= count <= UPROBE_COUNT,
    ensures
        wanted_links(count, binary).contains(link) <==> exists|i: int|
            0 <= i < count && (#[trigger] uprobe_plan()[i]).link == link && wanted(
                uprobe_plan()[i],
                binary,
            ),
    decreases count,
{
    if count > 0 {
        lemma_wanted_links(count - 1, link, binary);
        let before = wanted_links(count - 1, binary);
        let last = uprobe_plan()[count - 1];
        let after = before.push(last.link);
        assert(after[before.len() as int] == last.link);
        assert forall|l: Link| before.contains(l) implies after.contains(l) by {
            let k = choose|k: int| 0 <= k < before.len() && before[k] == l;
            assert(after[k] == l);
        }
        if wanted(last, binary) && after.contains(link) {
            let k = choose|k: int| 0 <= k < after.len() && after[k] == link;
            if k < before.len() {
                assert(before[k] == link);
            }
        }
    }
}

/// When attaching has finished, every link is attached but for the two that Docker support needs,
/// and each of these is attached exactly if its function is found.
pub proof fn law_attached_links(
    attaches: spec_fn(Link) -> bool,
    binary: spec_fn(Seq<char>) -> Result<Seq<u8>, Seq<char>>,
    link: Link,
)
    requires
        UprobeAttachModel::start().end(attaches, binary).action() is Finished,
    ensures
        UprobeAttachModel::start().end(attaches, binary).attached.contains(link) <==> match link {
            Link::RuncXCgoInitEnter => symbols::symbol_address(
                RUNC_BINARY_PATH@,
                "x_cgo_init"@,
                binary(RUNC_BINARY_PATH@),
            ) is Ok,
            Link::DockerdContainerRunningEnter => symbols::symbol_address(
                DOCKERD_BINARY_PATH@,
                "github.com/docker/docker/container.(*State).SetRunning"@,
                binary(DOCKERD_BINARY_PATH@),
            ) is Ok,
            _ => true,
        },
{
    law_attach_uprobes(attaches, binary);
    lemma_wanted_links(UPROBE_COUNT as int, link, binary);
    let plan = uprobe_plan();
    assert(plan[0].link == Link::DoContainerize);
    assert(plan[1].link == Link::DoApplyPolicyToContainer);
    assert(plan[2].link == Link::RuncXCgoInitEnter);
    assert(plan[3].link == Link::DockerdContainerRunningEnter);
    assert(plan[4].link == Link::CrioMainEnter);
    assert(plan[5].link == Link::RuncStartContainerEnter);
    assert(plan[6].link == Link::RuncCreateContainerEnter);
    assert(plan[7].link == Link::RuncInitProcEnter);
    assert(plan[8].link == Link::RuncInitProcStartEnter);
    assert(plan[9].link == Link::RuncWaitForChildExitEnter);
    assert(plan[10].link == Link::RuncStartEnter);
    assert(plan[11].link == Link::RuncDestroyEnter);
    assert(forall|i: int| 0 <= i < UPROBE_COUNT && i != 2 && i != 3 ==> wanted(plan[i], binary));
}

/// As long as uprobes are left and none failed, the next action is about the uprobe of the plan that
/// comes next: its own link, and its own binary and function. A function that has to be looked up is
/// attached at the address that the lookup gave, and its binary is read before there is one.
pub proof fn law_action_of_plan(state: UprobeAttachModel)
    requires
        !state.failed,
        0 <= state.position < UPROBE_COUNT,
    ensures
        match (uprobe_plan()[state.position].target, state.action()) {
            (
                Target::OwnFunction,
                UprobeAction::AttachFunction { link, on_return: _, pid: _ },
            ) => link == uprobe_plan()[state.position].link,
            (
                Target::Function { path: binary, symbol: function },
                UprobeAction::AttachSymbol { link, on_return: _, pid: _, path, symbol },
            ) => link == uprobe_plan()[state.position].link && path == binary && symbol == function,
            (
                Target::OptionalFunction { path: binary, symbol: _, warning: _ },
                UprobeAction::ReadBinary { path },
            ) => path == binary && state.resolved is None,
            (
                Target::OptionalFunction { path: binary, symbol: _, warning: _ },
                UprobeAction::AttachAddress { link, on_return: _, pid: _, path, address },
            ) => link == uprobe_plan()[state.position].link && path == binary && state.resolved == Some(
                address,
            ),
            _ => false,
        },
{
}

/// A link is attached by address exactly where the lookup of its own function in its own binary gave
/// that address. Where the lookup fails, the uprobe is passed over, and the user is warned with the
/// reason; nothing else is warned about.
pub proof fn law_lookup_decides(
    state: UprobeAttachModel,
    path: &'static str,
    symbol: &'static str,
    warning: &'static str,
    contents: Result<Seq<u8>, Seq<char>>,
    report: LookupReport,
)
    requires
        !state.failed,
        0 <= state.position < UPROBE_COUNT,
        state.resolved is None,
        uprobe_plan()[state.position].target == (Target::OptionalFunction { path, symbol, warning }),
        text_model(report.warning) == state.warning_after_read(contents),
        symbols::lines_model(report.output@) == state.lines_after_read(contents),
    ensures
        state.after_read(contents).attached == state.attached,
        !state.after_read(contents).failed,
        symbols::lines_model(report.output@) == symbols::lookup_lines(
            path@,
            symbol@,
            symbols::symbol_address(path@, symbol@, contents),
        ),
        match symbols::symbol_address(path@, symbol@, contents) {
            Ok(found) => {
                &&& state.after_read(contents).action() matches UprobeAction::AttachAddress {
                    link,
                    on_return: _,
                    pid: _,
                    path: binary,
                    address,
                }
                &&& link == uprobe_plan()[state.position].link
                &&& binary == path
                &&& address == found
                &&& report.warning is None
            },
            Err(error) => {
                &&& state.after_read(contents).position == state.position + 1
                &&& state.after_read(contents).resolved is None
                &&& report.warning matches Some(text) && text@ == warning@ + match error {
                    SymbolErrorModel::Read(reason) => reason,
                    SymbolErrorModel::Parse(reason) => reason,
                    SymbolErrorModel::NoDynamicSymbol => "symbol not found"@,
                    SymbolErrorModel::NoSymbol => "symbol not found 2"@,
                }
            },
        },
{
}

/// Once a link has been attached it is the latest of the attached ones, and the next uprobe of the
/// plan is up, without an address; once an attempt has failed, nothing is attached any more.
pub proof fn law_attach_outcome(state: UprobeAttachModel)
    requires
        !state.failed,
        0 <= state.position < UPROBE_COUNT,
    ensures
        state.after_attach().position == state.position + 1,
        state.after_attach().resolved is None,
        !state.after_attach().failed,
        state.after_attach().attached == state.attached.push(uprobe_plan()[state.position].link),
        state.after_failure().action() is Failed,
        state.after_failure().attached == state.attached,
        state.after_failure().position == state.position,
{
}

/// Attaching begins with the first uprobe of the plan, with none attached, and has nothing left to
/// do exactly if an attempt failed or every uprobe has been dealt with.
pub proof fn law_attach_bounds(state: UprobeAttachModel)
    requires
        0 <= state.position <= UPROBE_COUNT,
    ensures
        UprobeAttachModel::start().position == 0,
        UprobeAttachModel::start().resolved is None,
        UprobeAttachModel::start().attached.len() == 0,
        !UprobeAttachModel::start().failed,
        uprobe_plan().len() == UPROBE_COUNT,
        state.action() is Failed <==> state.failed,
        state.action() is Finished <==> !state.failed && state.position == UPROBE_COUNT,
        state.action() is Failed || state.action() is Finished || state.action() is ReadBinary
            || state.action().attaches(),
{
}

/// Every link is in the plan, exactly once.
pub proof fn law_plan(link: Link)
    ensures
        exists|i: int| 0 <= i < uprobe_plan().len() && (#[trigger] uprobe_plan()[i]).link == link,
        forall|i: int, j: int|
            0 <= i < j < uprobe_plan().len() ==> (#[trigger] uprobe_plan()[i]).link != (
            #[trigger] uprobe_plan()[j]).link,
{
    let plan = uprobe_plan();
    assert(plan[0].link == Link::DoContainerize);
    assert(plan[1].link == Link::DoApplyPolicyToContainer);
    assert(plan[2].link == Link::RuncXCgoInitEnter);
    assert(plan[3].link == Link::DockerdContainerRunningEnter);
    assert(plan[4].link == Link::CrioMainEnter);
    assert(plan[5].link == Link::RuncStartContainerEnter);
    assert(plan[6].link == Link::RuncCreateContainerEnter);
    assert(plan[7].link == Link::RuncInitProcEnter);
    assert(plan[8].link == Link::RuncInitProcStartEnter);
    assert(plan[9].link == Link::RuncWaitForChildExitEnter);
    assert(plan[10].link == Link::RuncStartEnter);
    assert(plan[11].link == Link::RuncDestroyEnter);
}

} // verus!

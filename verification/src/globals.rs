//! The global variables that the BPF programs are loaded with.

use vstd::prelude::*;

verus! {

/// A set of kinds of events to be audited, one bit for each kind.
#[derive(Clone, Copy, PartialEq, Eq, Structural, Debug)]
pub struct AuditLevel(pub u32);

/// The read-only global variables of the BPF programs.
#[derive(Clone, Copy, PartialEq, Eq, Structural, Debug)]
pub struct BpfGlobals {
    /// The process ID of this program.
    pub bpfcontain_pid: u32,
    /// The mount namespace of this program.
    pub host_mnt_ns_id: u32,
    /// The process ID namespace of this program.
    pub host_pid_ns_id: u32,
    /// The kinds of events to be audited.
    pub audit_level: u32,
}

/// What the audit level is made from.
pub struct AuditSettings {
    /// The configured levels.
    pub levels: Vec<AuditLevel>,
    /// The level that stands for no auditing.
    pub none: AuditLevel,
}

/// The bitwise union of levels.
pub open spec fn union_of(levels: Seq<AuditLevel>) -> u32
    decreases levels.len(),
{
    if levels.len() == 0 {
        0
    } else {
        union_of(levels.drop_last()) | levels.last().0
    }
}

/// The level that the given configuration amounts to: the union of its levels, or the level for no
/// auditing where it has none.
pub open spec fn configured_level(levels: Seq<AuditLevel>, none: AuditLevel) -> AuditLevel {
    if levels.len() == 0 {
        none
    } else {
        AuditLevel(union_of(levels))
    }
}

impl AuditSettings {
    /// The level that these settings amount to.
    pub fn level(&self) -> (level: AuditLevel)
        ensures
            level == configured_level(self.levels@, self.none),
    {
        if self.levels.len() == 0 {
            return self.none;
        }
        let mut union: u32 = 0;
        let mut i: usize = 0;
        while i < self.levels.len()
            invariant
                i <= self.levels.len(),
                union == union_of(self.levels@.take(i as int)),
            decreases self.levels.len() - i,
        {
            union = union | self.levels[i].0;
            i += 1;
            proof {
                let taken = self.levels@.take(i as int);
                assert(taken.drop_last() == self.levels@.take(i - 1));
            }
        }
        assert(self.levels@.take(i as int) == self.levels@);
        AuditLevel(union)
    }
}

/// A kind of namespace whose ID the BPF programs are told.
#[derive(Clone, Copy, PartialEq, Eq, Structural, Debug)]
pub enum Namespace {
    Mnt,
    Pid,
}

/// What has happened while the global variables are being set.
pub enum GlobalsEvent<E> {
    /// The BPF objects were opened.
    Opened,
    /// The ID of this program's namespace of the given kind was read.
    NamespaceId(Namespace, Result<u32, E>),
}

/// What is done next about the global variables.
pub enum GlobalsAction<E> {
    /// Read the ID of this program's namespace of the given kind.
    ReadNamespace { namespace: Namespace },
    /// Nothing: every variable is set.
    Finished,
    /// Nothing: an ID could not be read.
    Failed(E),
}

/// What is done next after an event: the mount namespace's ID is read first, then the process ID
/// namespace's.
pub open spec fn globals_action<E>(event: GlobalsEvent<E>) -> GlobalsAction<E> {
    match event {
        GlobalsEvent::Opened => GlobalsAction::ReadNamespace { namespace: Namespace::Mnt },
        GlobalsEvent::NamespaceId(Namespace::Mnt, Ok(_)) => GlobalsAction::ReadNamespace {
            namespace: Namespace::Pid,
        },
        GlobalsEvent::NamespaceId(Namespace::Pid, Ok(_)) => GlobalsAction::Finished,
        GlobalsEvent::NamespaceId(_, Err(cause)) => GlobalsAction::Failed(cause),
    }
}

/// The global variables after an event: each is set as soon as its value is known.
pub open spec fn globals_after<E>(
    globals: BpfGlobals,
    pid: u32,
    level: AuditLevel,
    event: GlobalsEvent<E>,
) -> BpfGlobals {
    match event {
        GlobalsEvent::Opened => BpfGlobals { bpfcontain_pid: pid, ..globals },
        GlobalsEvent::NamespaceId(Namespace::Mnt, Ok(id)) => BpfGlobals {
            host_mnt_ns_id: id,
            ..globals
        },
        GlobalsEvent::NamespaceId(Namespace::Pid, Ok(id)) => BpfGlobals {
            host_pid_ns_id: id,
            audit_level: level.0,
            ..globals
        },
        GlobalsEvent::NamespaceId(_, Err(_)) => globals,
    }
}

/// Sets the global variables, one event at a time, and gives what is to be done next.
pub fn initialize_bpf_globals<E>(
    globals: &mut BpfGlobals,
    pid: u32,
    audit: &AuditSettings,
    event: GlobalsEvent<E>,
) -> (action: GlobalsAction<E>)
    ensures
        action == globals_action(event),
        *final(globals) == globals_after(
            *old(globals),
            pid,
            configured_level(audit.levels@, audit.none),
            event,
        ),
{
    match event {
        GlobalsEvent::Opened => {
            globals.bpfcontain_pid = pid;
            GlobalsAction::ReadNamespace { namespace: Namespace::Mnt }
        },
        GlobalsEvent::NamespaceId(Namespace::Mnt, Ok(id)) => {
            globals.host_mnt_ns_id = id;
            GlobalsAction::ReadNamespace { namespace: Namespace::Pid }
        },
        GlobalsEvent::NamespaceId(Namespace::Pid, Ok(id)) => {
            globals.host_pid_ns_id = id;
            globals.audit_level = audit.level().0;
            GlobalsAction::Finished
        },
        GlobalsEvent::NamespaceId(_, Err(cause)) => GlobalsAction::Failed(cause),
    }
}

/// Where setting the global variables ends, and with which action, if it is carried on from an
/// event until nothing is left to do, where `ids` says what reading the ID of a namespace gives.
pub open spec fn globals_end<E>(
    globals: BpfGlobals,
    pid: u32,
    level: AuditLevel,
    event: GlobalsEvent<E>,
    ids: spec_fn(Namespace) -> Result<u32, E>,
) -> (BpfGlobals, GlobalsAction<E>)
    decreases
        match event {
            GlobalsEvent::Opened => 2nat,
            GlobalsEvent::NamespaceId(Namespace::Mnt, _) => 1,
            GlobalsEvent::NamespaceId(Namespace::Pid, _) => 0,
        },
{
    let after = globals_after(globals, pid, level, event);
    match globals_action(event) {
        GlobalsAction::ReadNamespace { namespace } => globals_end(
            after,
            pid,
            level,
            GlobalsEvent::NamespaceId(namespace, ids(namespace)),
            ids,
        ),
        action => (after, action),
    }
}

/// Setting the global variables fails exactly if the ID of a namespace cannot be read, with the
/// error of the first that cannot be, the mount namespace coming first. This program's process ID
/// is set in any case, the mount namespace's ID if it could be read, and the others only if both
/// IDs could be; what is not set keeps its value.
pub proof fn law_initialize_bpf_globals<E>(
    globals: BpfGlobals,
    pid: u32,
    level: AuditLevel,
    ids: spec_fn(Namespace) -> Result<u32, E>,
)
    ensures
        ({
            let (after, action) = globals_end(globals, pid, level, GlobalsEvent::Opened, ids);
            &&& after.bpfcontain_pid == pid
            &&& match (ids(Namespace::Mnt), ids(Namespace::Pid)) {
                (Err(cause), _) => {
                    &&& action == GlobalsAction::Failed(cause)
                    &&& after.host_mnt_ns_id == globals.host_mnt_ns_id
                    &&& after.host_pid_ns_id == globals.host_pid_ns_id
                    &&& after.audit_level == globals.audit_level
                },
                (Ok(mnt), Err(cause)) => {
                    &&& action == GlobalsAction::Failed(cause)
                    &&& after.host_mnt_ns_id == mnt
                    &&& after.host_pid_ns_id == globals.host_pid_ns_id
                    &&& after.audit_level == globals.audit_level
                },
                (Ok(mnt), Ok(pid_ns)) => {
                    &&& action is Finished
                    &&& after.host_mnt_ns_id == mnt
                    &&& after.host_pid_ns_id == pid_ns
                    &&& after.audit_level == level.0
                },
            }
        }),
{
    reveal_with_fuel(globals_end, 3);
}

/// Whether the bit at `position` is set.
pub open spec fn audits(level: u32, position: u32) -> bool {
    (level >> position) & 1 == 1
}

/// A kind of event is audited exactly if one of the configured levels audits it.
pub proof fn law_union_audits(levels: Seq<AuditLevel>, position: u32)
    requires
        position < 32,
    ensures
        audits(union_of(levels), position) <==> exists|i: int|
            0 <= i < levels.len() && audits((#[trigger] levels[i]).0, position),
    decreases levels.len(),
{
    if levels.len() == 0 {
        assert((0u32 >> position) & 1 == 0) by (bit_vector);
    } else {
        let rest = levels.drop_last();
        let a = union_of(rest);
        let b = levels.last().0;
        law_union_audits(rest, position);
        assert(((a | b) >> position) & 1 == 1 <==> ((a >> position) & 1 == 1 || (b >> position) & 1
            == 1)) by (bit_vector);
        assert(levels[levels.len() - 1] == levels.last());
        assert(forall|i: int| 0 <= i < rest.len() ==> #[trigger] rest[i] == levels[i]);
        if audits(a, position) {
            let i = choose|i: int| 0 <= i < rest.len() && audits((#[trigger] rest[i]).0, position);
            assert(audits(levels[i].0, position));
        }
        if exists|i: int| 0 <= i < levels.len() && audits((#[trigger] levels[i]).0, position) {
            let i = choose|i: int|
                0 <= i < levels.len() && audits((#[trigger] levels[i]).0, position);
            if i < rest.len() {
                assert(audits(rest[i].0, position));
            }
        }
    }
}

/// A value that covers each level covers their union.
proof fn lemma_covers_union(levels: Seq<AuditLevel>, cover: u32)
    requires
        forall|i: int| 0 <= i < levels.len() ==> cover | (#[trigger] levels[i]).0 == cover,
    ensures
        cover | union_of(levels) == cover,
    decreases levels.len(),
{
    if levels.len() == 0 {
        assert(cover | 0 == cover) by (bit_vector);
    } else {
        let rest = levels.drop_last();
        assert(forall|i: int| 0 <= i < rest.len() ==> #[trigger] rest[i] == levels[i]);
        lemma_covers_union(rest, cover);
        let a = union_of(rest);
        let b = levels.last().0;
        assert(cover | levels[levels.len() - 1].0 == cover);
        assert(cover | (a | b) == cover) by (bit_vector)
            requires
                cover | a == cover,
                cover | b == cover,
        ;
    }
}

/// A union covers each of its levels.
proof fn lemma_union_covers(levels: Seq<AuditLevel>, i: int)
    requires
        0 <= i < levels.len(),
    ensures
        union_of(levels) | levels[i].0 == union_of(levels),
    decreases levels.len(),
{
    let rest = levels.drop_last();
    let a = union_of(rest);
    let b = levels.last().0;
    if i < rest.len() {
        lemma_union_covers(rest, i);
        let c = levels[i].0;
        assert((a | b) | c == a | b) by (bit_vector)
            requires
                a | c == a,
        ;
    } else {
        assert((a | b) | b == a | b) by (bit_vector);
    }
}

/// Neither the order of the configured levels nor how often one is given matters.
pub proof fn law_level_of_set(left: Seq<AuditLevel>, right: Seq<AuditLevel>, none: AuditLevel)
    requires
        left.to_set() == right.to_set(),
    ensures
        configured_level(left, none) == configured_level(right, none),
{
    assert forall|i: int| 0 <= i < left.len() implies union_of(right) | (#[trigger] left[i]).0
        == union_of(right) by {
        assert(left.to_set().contains(left[i]));
        let j = choose|j: int| 0 <= j < right.len() && right[j] == left[i];
        lemma_union_covers(right, j);
    }
    assert forall|i: int| 0 <= i < right.len() implies union_of(left) | (#[trigger] right[i]).0
        == union_of(left) by {
        assert(right.to_set().contains(right[i]));
        let j = choose|j: int| 0 <= j < left.len() && left[j] == right[i];
        lemma_union_covers(left, j);
    }
    lemma_covers_union(left, union_of(right));
    lemma_covers_union(right, union_of(left));
    let a = union_of(left);
    let b = union_of(right);
    assert(a == b) by (bit_vector)
        requires
            a | b == a,
            b | a == b,
    ;
    if left.len() > 0 {
        assert(left.to_set().contains(left[0]));
        assert(right.to_set().contains(left[0]));
    }
    if right.len() > 0 {
        assert(right.to_set().contains(right[0]));
        assert(left.to_set().contains(right[0]));
    }
}

/// The configured level audits a kind of event exactly if one of the given levels does; where none
/// is given, it is the level for no auditing.
pub proof fn law_configured_level(levels: Seq<AuditLevel>, none: AuditLevel, position: u32)
    requires
        position < 32,
    ensures
        levels.len() == 0 ==> configured_level(levels, none) == none,
        levels.len() > 0 ==> ((configured_level(levels, none).0 >> position) & 1 == 1
            <==> exists|i: int|
            0 <= i < levels.len() && ((#[trigger] levels[i]).0 >> position) & 1 == 1),
{
    law_union_audits(levels, position);
    if levels.len() > 0 {
        if audits(union_of(levels), position) {
            let i = choose|i: int|
                0 <= i < levels.len() && audits((#[trigger] levels[i]).0, position);
            assert((levels[i].0 >> position) & 1 == 1);
        }
        if exists|i: int| 0 <= i < levels.len() && ((#[trigger] levels[i]).0 >> position) & 1 == 1 {
            let i = choose|i: int|
                0 <= i < levels.len() && ((#[trigger] levels[i]).0 >> position) & 1 == 1;
            assert(audits(levels[i].0, position));
        }
    }
}

} // verus!

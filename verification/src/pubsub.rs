//! The publish/subscribe API: who is subscribed to security audit events.

use std::collections::HashMap;

use vstd::prelude::*;
use vstd::string::StringExecFns;

use crate::text;
use crate::text::{same_text, to_decimal};

verus! {

broadcast use vstd::std_specs::hash::group_hash_axioms;

/// The error of a remote procedure call, `jsonrpc_core::Error`.
#[verifier::external_type_specification]
#[verifier::external_body]
pub struct ExRpcError(jsonrpc_core::Error);

/// Which security audit events a subscriber asks for.
pub struct AuditFilter {
    /// The name of the policy that the events concern.
    pub policy_name: Option<String>,
}

/// Whether a filter selects the events that concern the policy of the given name. No filter selects
/// every event, and so does a filter that names no policy.
pub open spec fn selected(filter: Option<AuditFilter>, policy_name: Seq<char>) -> bool {
    match filter {
        Some(AuditFilter { policy_name: Some(name) }) => name@ == policy_name,
        _ => true,
    }
}

/// Whether a filter selects the events that concern the policy of the given name. No filter selects
/// every event, and so does a filter that names no policy.
pub fn selects(filter: &Option<AuditFilter>, policy_name: &str) -> (selects: bool)
    ensures
        selects == selected(*filter, policy_name@),
{
    match filter {
        Some(AuditFilter { policy_name: Some(name) }) => same_text(name.as_str(), policy_name),
        _ => true,
    }
}

/// A security audit event.
pub struct AuditEvent {}

/// What a subscription is known by.
pub enum SubscriptionId {
    /// A number.
    Number(u64),
    /// Anything else, such as a hash.
    String(String),
}

impl SubscriptionId {
    /// The number in an ID that is a number.
    pub fn number(&self) -> (number: u64)
        requires
            self is Number,
        ensures
            *self == SubscriptionId::Number(number),
    {
        match self {
            SubscriptionId::Number(number) => *number,
            SubscriptionId::String(_) => 0,
        }
    }
}

/// What is logged when the connection of the subscription with the given number is lost.
pub open spec fn lost_warning(number: u64) -> Seq<char> {
    "Lost connection with subscriber "@ + text::decimal(number as nat) + ", dropping subscription!"@
}

/// A connection that subscriptions are made over: what it runs when it is dropped.
pub struct Session {
    handlers: Vec<u64>,
}

impl View for Session {
    type V = Seq<u64>;

    /// The numbers of the subscriptions that the session has a handler for, one for each handler, in
    /// the order in which the handlers were registered.
    closed spec fn view(&self) -> Seq<u64> {
        self.handlers@
    }
}

impl Session {
    /// A session without handlers.
    pub fn new() -> (session: Session)
        ensures
            session@ == Seq::<u64>::empty(),
    {
        Session { handlers: Vec::new() }
    }
}

/// The state of the API in specifications.
pub struct PubSubModel<S> {
    /// The number that the next subscription gets.
    pub uid: usize,
    /// The sinks of the subscribers, each under its subscription's number.
    pub subscribers: Map<u64, S>,
    /// The filters that the subscribers gave, each under its subscription's number.
    pub filters: Map<u64, Option<AuditFilter>>,
}

impl<S> PubSubModel<S> {
    /// Whether every subscriber has a filter entry, and nobody else has one.
    pub open spec fn valid(self) -> bool {
        self.filters.dom() == self.subscribers.dom()
    }

    /// Whether the subscriber under the given number is to be sent the events that concern the
    /// policy of the given name.
    pub open spec fn receives(self, number: u64, policy_name: Seq<char>) -> bool {
        &&& self.subscribers.contains_key(number)
        &&& self.filters.contains_key(number)
        &&& selected(self.filters[number], policy_name)
    }

    /// The number of the next ID that is given out.
    pub open spec fn next_number(self) -> u64 {
        self.uid as u64
    }

    /// Nobody has subscribed.
    pub open spec fn start() -> PubSubModel<S> {
        PubSubModel { uid: 0, subscribers: Map::empty(), filters: Map::empty() }
    }

    /// A number has been given out.
    pub open spec fn after_assign(self) -> PubSubModel<S> {
        PubSubModel {
            uid: if self.uid == usize::MAX {
                0
            } else {
                (self.uid + 1) as usize
            },
            ..self
        }
    }

    /// A sink has been registered, with the filter that its subscriber gave.
    pub open spec fn after_subscribe(
        self,
        number: u64,
        sink: S,
        filter: Option<AuditFilter>,
    ) -> PubSubModel<S> {
        PubSubModel {
            subscribers: self.subscribers.insert(number, sink),
            filters: self.filters.insert(number, filter),
            ..self
        }
    }

    /// A subscription has ended.
    pub open spec fn after_end(self, id: SubscriptionId) -> PubSubModel<S> {
        match id {
            SubscriptionId::Number(number) => PubSubModel {
                subscribers: self.subscribers.remove(number),
                filters: self.filters.remove(number),
                ..self
            },
            SubscriptionId::String(_) => self,
        }
    }

    /// A session with handlers for the given numbers has been dropped.
    pub open spec fn after_drop(self, handlers: Seq<u64>) -> PubSubModel<S>
        decreases handlers.len(),
    {
        if handlers.len() == 0 {
            self
        } else {
            self.after_drop(handlers.drop_last()).after_end(SubscriptionId::Number(handlers.last()))
        }
    }
}

/// The publish/subscribe API, for subscribers that are reached through sinks of type `S`.
pub struct PubSubImpl<S> {
    uid: usize,
    audit_subscribers: HashMap<u64, S>,
    audit_filters: HashMap<u64, Option<AuditFilter>>,
}

impl<S> View for PubSubImpl<S> {
    type V = PubSubModel<S>;

    closed spec fn view(&self) -> PubSubModel<S> {
        PubSubModel {
            uid: self.uid,
            subscribers: self.audit_subscribers@,
            filters: self.audit_filters@,
        }
    }
}

impl<S> Default for PubSubImpl<S> {
    /// Nobody has subscribed.
    fn default() -> (api: PubSubImpl<S>)
        ensures
            api@ == PubSubModel::<S>::start(),
    {
        PubSubImpl { uid: 0, audit_subscribers: HashMap::new(), audit_filters: HashMap::new() }
    }
}

impl<S> PubSubImpl<S> {
    /// The sinks of the subscribers, each under its subscription's number.
    pub fn audit_subscribers(&self) -> (subscribers: &HashMap<u64, S>)
        ensures
            subscribers@ == self@.subscribers,
    {
        &self.audit_subscribers
    }

    /// Whether the subscriber under the given number is to be sent the events that concern the
    /// policy of the given name.
    pub fn receives(&self, number: u64, policy_name: &str) -> (receives: bool)
        ensures
            receives == self@.receives(number, policy_name@),
    {
        if !self.audit_subscribers.contains_key(&number) {
            return false;
        }
        match self.audit_filters.get(&number) {
            Some(filter) => selects(filter, policy_name),
            None => false,
        }
    }

    /// Gives out the ID of a new subscription. IDs are numbers, counted from zero; after the largest
    /// number that a `usize` can hold they start over.
    pub fn assign_id(&mut self) -> (id: SubscriptionId)
        ensures
            id == SubscriptionId::Number(old(self)@.uid as u64),
            id == SubscriptionId::Number(old(self)@.next_number()),
            final(self)@ == old(self)@.after_assign(),
    {
        let id = SubscriptionId::Number(self.uid as u64);
        self.uid = self.uid.wrapping_add(1);
        id
    }

    /// Subscribes to the security audit events that a filter selects, through a sink that the given
    /// ID has been assigned to. The session gets one handler, which ends the subscription when the
    /// session is dropped.
    pub fn audit_subscribe(
        &mut self,
        session: &mut Session,
        id: SubscriptionId,
        sink: S,
        filter: Option<AuditFilter>,
    )
        requires
            id is Number,
        ensures
            final(session)@ == old(session)@.push(id->Number_0),
            final(self)@ == old(self)@.after_subscribe(id->Number_0, sink, filter),
    {
        let number = id.number();
        session.handlers.push(number);
        self.audit_subscribers.insert(number, sink);
        self.audit_filters.insert(number, filter);
    }

    /// Ends a subscription whose connection has been lost, and gives the warning to be logged.
    pub fn connection_lost(&mut self, id: &SubscriptionId) -> (warning: String)
        requires
            id is Number,
        ensures
            warning@ == lost_warning(id->Number_0),
            final(self)@ == old(self)@.after_end(*id),
    {
        let number = id.number();
        self.audit_subscribers.remove(&number);
        self.audit_filters.remove(&number);
        "Lost connection with subscriber ".to_owned().concat(to_decimal(number).as_str()).concat(
            ", dropping subscription!",
        )
    }

    /// Runs the handlers of a session that is dropped, in the order in which they were registered,
    /// and gives the warnings to be logged, one for each handler.
    pub fn session_dropped(&mut self, session: Session) -> (warnings: Vec<String>)
        ensures
            warnings@.len() == session@.len(),
            forall|i: int|
                0 <= i < session@.len() ==> (#[trigger] warnings@[i])@ == lost_warning(session@[i]),
            final(self)@ == old(self)@.after_drop(session@),
    {
        let handlers = session.handlers;
        let mut warnings: Vec<String> = Vec::new();
        let mut i: usize = 0;
        assert(handlers@.take(0) =~= Seq::<u64>::empty());
        while i < handlers.len()
            invariant
                i <= handlers.len(),
                warnings@.len() == i,
                forall|j: int|
                    0 <= j < i ==> (#[trigger] warnings@[j])@ == lost_warning(handlers@[j]),
                self@ == old(self)@.after_drop(handlers@.take(i as int)),
            decreases handlers.len() - i,
        {
            warnings.push(self.connection_lost(&SubscriptionId::Number(handlers[i])));
            i += 1;
            proof {
                let run = handlers@.take(i as int);
                assert(run.drop_last() =~= handlers@.take(i - 1));
            }
        }
        assert(handlers@.take(i as int) =~= handlers@);
        warnings
    }

    /// Unsubscribes from security audit events.
    pub fn audit_unsubscribe<M>(&mut self, meta: Option<M>, id: SubscriptionId) -> (result: Result<
        (),
        jsonrpc_core::Error,
    >)
        ensures
            result is Ok,
            final(self)@ == old(self)@.after_end(id),
    {
        match id {
            SubscriptionId::Number(number) => {
                self.audit_subscribers.remove(&number);
                self.audit_filters.remove(&number);
            },
            SubscriptionId::String(_) => {},
        }
        Ok(())
    }
}

/// Something that happens to the API.
pub enum PubSubOp<S> {
    /// The ID of a new subscription is given out.
    Assign,
    /// A subscription is made over a session, under a number.
    Subscribe { session: int, number: u64, sink: S, filter: Option<AuditFilter> },
    /// The handler of a subscription ends it, or its subscriber unsubscribes.
    End { id: SubscriptionId },
    /// A session is dropped.
    SessionDropped { session: int },
}

/// The number of IDs given out in a history.
pub open spec fn assigned<S>(history: Seq<PubSubOp<S>>) -> nat
    decreases history.len(),
{
    if history.len() == 0 {
        0
    } else if history.last() is Assign {
        assigned(history.drop_last()) + 1
    } else {
        assigned(history.drop_last())
    }
}

/// The numbers that a session has handlers for after a history, in the order in which the handlers
/// were registered.
pub open spec fn handlers<S>(history: Seq<PubSubOp<S>>, session: int) -> Seq<u64>
    decreases history.len(),
{
    if history.len() == 0 {
        Seq::empty()
    } else {
        let before = handlers(history.drop_last(), session);
        match history.last() {
            PubSubOp::Subscribe { session: over, number, sink: _, filter: _ } => if over == session {
                before.push(number)
            } else {
                before
            },
            PubSubOp::SessionDropped { session: dropped } => if dropped == session {
                Seq::empty()
            } else {
                before
            },
            _ => before,
        }
    }
}

/// The state that a history leads to.
pub open spec fn state_after<S>(history: Seq<PubSubOp<S>>) -> PubSubModel<S>
    decreases history.len(),
{
    if history.len() == 0 {
        PubSubModel::start()
    } else {
        let before = state_after(history.drop_last());
        match history.last() {
            PubSubOp::Assign => before.after_assign(),
            PubSubOp::Subscribe { session: _, number, sink, filter } => before.after_subscribe(
                number,
                sink,
                filter,
            ),
            PubSubOp::End { id } => before.after_end(id),
            PubSubOp::SessionDropped { session } => before.after_drop(handlers(history.drop_last(), session)),
        }
    }
}

/// Whether a subscription in a history is made under the given number.
pub open spec fn used<S>(history: Seq<PubSubOp<S>>, number: u64) -> bool
    decreases history.len(),
{
    &&& history.len() > 0
    &&& {
        ||| history.last() matches PubSubOp::Subscribe {
            session: _,
            number: taken,
            sink: _,
            filter: _,
        } && taken == number
        ||| used(history.drop_last(), number)
    }
}

/// Whether every subscription in a history is made under a number that had been given out.
pub open spec fn assigned_first<S>(history: Seq<PubSubOp<S>>) -> bool
    decreases history.len(),
{
    history.len() > 0 ==> {
        &&& assigned_first(history.drop_last())
        &&& history.last() matches PubSubOp::Subscribe {
            session: _,
            number,
            sink: _,
            filter: _,
        } ==> number < assigned(history.drop_last())
    }
}

/// Whether no two subscriptions in a history are made under the same number.
pub open spec fn numbers_differ<S>(history: Seq<PubSubOp<S>>) -> bool
    decreases history.len(),
{
    history.len() > 0 ==> {
        &&& numbers_differ(history.drop_last())
        &&& history.last() matches PubSubOp::Subscribe {
            session: _,
            number,
            sink: _,
            filter: _,
        } ==> !used(history.drop_last(), number)
    }
}

/// Dropping a session ends the subscriptions that it has handlers for, and changes nothing else.
proof fn lemma_after_drop<S>(state: PubSubModel<S>, numbers: Seq<u64>, number: u64)
    ensures
        ({
            let after = state.after_drop(numbers);
            &&& after.uid == state.uid
            &&& after.subscribers.contains_key(number) == (state.subscribers.contains_key(number)
                && !numbers.contains(number))
            &&& after.filters.contains_key(number) == (state.filters.contains_key(number)
                && !numbers.contains(number))
            &&& !numbers.contains(number) ==> {
                &&& after.subscribers[number] == state.subscribers[number]
                &&& after.filters[number] == state.filters[number]
            }
        }),
    decreases numbers.len(),
{
    if numbers.len() > 0 {
        let rest = numbers.drop_last();
        lemma_after_drop(state, rest, number);
        assert(numbers[numbers.len() - 1] == numbers.last());
        if rest.contains(number) {
            let k = choose|k: int| 0 <= k < rest.len() && rest[k] == number;
            assert(numbers[k] == number);
        }
        if numbers.contains(number) && number != numbers.last() {
            let k = choose|k: int| 0 <= k < numbers.len() && numbers[k] == number;
            assert(rest[k] == number);
        }
    }
}

/// The number that the next subscription gets is the count of the numbers given out, as long as
/// that fits in a `usize`, and counts on from zero after that.
pub proof fn law_uid_counts<S>(history: Seq<PubSubOp<S>>)
    ensures
        state_after(history).uid == assigned(history) % (usize::MAX + 1) as nat,
        state_after(history).next_number() == assigned(history) % (usize::MAX + 1) as nat,
    decreases history.len(),
{
    let size = (usize::MAX + 1) as nat;
    if history.len() > 0 {
        law_uid_counts(history.drop_last());
        if let PubSubOp::SessionDropped { session } = history.last() {
            let before = history.drop_last();
            lemma_after_drop(state_after(before), handlers(before, session), 0);
        }
        let count = assigned(history.drop_last());
        if history.last() is Assign {
            if count % size == usize::MAX {
                assert((count + 1) % size == 0) by (nonlinear_arith)
                    requires
                        size > 0,
                        count % size == size - 1,
                ;
            } else {
                assert((count + 1) % size == count % size + 1) by (nonlinear_arith)
                    requires
                        size > 0,
                        count % size < size - 1,
                ;
            }
        }
    } else {
        assert(0nat % size == 0) by (nonlinear_arith)
            requires
                size > 0,
        ;
    }
}

/// Two subscriptions get different IDs, unless a full round of the counter lies between them.
pub proof fn law_ids_differ<S>(earlier: Seq<PubSubOp<S>>, later: Seq<PubSubOp<S>>)
    requires
        assigned(earlier) < assigned(later) <= assigned(earlier) + usize::MAX,
    ensures
        state_after(earlier).uid != state_after(later).uid,
        state_after(earlier).next_number() != state_after(later).next_number(),
{
    law_uid_counts(earlier);
    law_uid_counts(later);
    let size = (usize::MAX + 1) as int;
    let a = assigned(earlier) as int;
    let b = assigned(later) as int;
    if a % size == b % size {
        let p = a / size;
        let q = b / size;
        vstd::arithmetic::div_mod::lemma_fundamental_div_mod(a, size);
        vstd::arithmetic::div_mod::lemma_fundamental_div_mod(b, size);
        assert(false) by (nonlinear_arith)
            requires
                size > 0,
                0 < b - a < size,
                b - a == size * q - size * p,
        ;
    }
}

/// Every subscriber is registered under a number that has been given out.
proof fn lemma_numbers_assigned<S>(history: Seq<PubSubOp<S>>, number: u64)
    requires
        assigned_first(history),
        state_after(history).subscribers.contains_key(number),
    ensures
        number < assigned(history),
    decreases history.len(),
{
    if history.len() > 0 {
        let before = history.drop_last();
        if let PubSubOp::SessionDropped { session } = history.last() {
            lemma_after_drop(state_after(before), handlers(before, session), number);
        }
        if state_after(before).subscribers.contains_key(number) {
            lemma_numbers_assigned(before, number);
        }
    }
}

/// The number that the operation at a position of a history gives out, if it gives one out.
pub open spec fn given_number<S>(history: Seq<PubSubOp<S>>, position: int) -> u64 {
    state_after(history.take(position)).next_number()
}

/// Whether every subscription in a history is made under a number that was given out for it alone:
/// for the subscription at position `i`, by the operation at position `source(i)`.
pub open spec fn own_numbers<S>(history: Seq<PubSubOp<S>>, source: spec_fn(int) -> int) -> bool {
    &&& forall|i: int|
        0 <= i < history.len() && (#[trigger] history[i]) is Subscribe ==> {
            &&& 0 <= source(i) < i
            &&& history[source(i)] is Assign
            &&& history[i]->number == given_number(history, source(i))
        }
    &&& forall|i: int, j: int|
        0 <= i < j < history.len() && (#[trigger] history[i]) is Subscribe && (
        #[trigger] history[j]) is Subscribe ==> source(i) != source(j)
}

/// As a history goes on, no fewer numbers have been given out.
proof fn lemma_assigned_grows<S>(history: Seq<PubSubOp<S>>, start: int, end: int)
    requires
        0 <= start <= end <= history.len(),
    ensures
        assigned(history.take(start)) <= assigned(history.take(end)),
    decreases end - start,
{
    if start < end {
        lemma_assigned_grows(history, start, end - 1);
        assert(history.take(end).drop_last() =~= history.take(end - 1));
    }
}

/// The number that is given out at a position is the count of those given out before, which is less
/// than the count at any later position.
proof fn lemma_given_number<S>(history: Seq<PubSubOp<S>>, position: int, end: int)
    requires
        0 <= position < end <= history.len(),
        history[position] is Assign,
        assigned(history) <= usize::MAX + 1,
    ensures
        given_number(history, position) == assigned(history.take(position)),
        assigned(history.take(position)) < assigned(history.take(end)),
{
    let before = history.take(position);
    let after = history.take(position + 1);
    assert(after.drop_last() =~= before);
    assert(after.last() == history[position]);
    lemma_assigned_grows(history, position + 1, end);
    lemma_assigned_grows(history, end, history.len() as int);
    assert(history.take(history.len() as int) =~= history);
    law_uid_counts(before);
    let size = (usize::MAX + 1) as nat;
    let count = assigned(before);
    assert(count % size == count) by (nonlinear_arith)
        requires
            count < size,
    ;
}

/// A number that a subscription is made under is that of a subscription at some position.
proof fn lemma_used_position<S>(history: Seq<PubSubOp<S>>, number: u64) -> (position: int)
    requires
        used(history, number),
    ensures
        0 <= position < history.len(),
        history[position] is Subscribe,
        history[position]->number == number,
    decreases history.len(),
{
    if history.last() is Subscribe && history.last()->number == number {
        history.len() - 1
    } else {
        lemma_used_position(history.drop_last(), number)
    }
}

/// Where every subscription is made under a number that was given out for it alone, and no more
/// numbers were given out than a `usize` can tell apart, every subscription is made under a number
/// that had been given out, and no two are made under the same one. The subscribers' numbers are
/// then among those given out, and there are no more subscribers than that.
pub proof fn law_own_numbers<S>(history: Seq<PubSubOp<S>>, source: spec_fn(int) -> int)
    requires
        own_numbers(history, source),
        assigned(history) <= usize::MAX + 1,
    ensures
        assigned_first(history),
        numbers_differ(history),
        forall|number: u64| #[trigger]
            state_after(history).subscribers.contains_key(number) ==> number < assigned(history),
        state_after(history).subscribers.dom().finite(),
        state_after(history).subscribers.len() <= assigned(history),
    decreases history.len(),
{
    if history.len() > 0 {
        let before = history.drop_last();
        let end = history.len() - 1;
        let last = history.last();
        assert(before =~= history.take(end));
        assert(history[end] == last);
        assert(own_numbers(before, source)) by {
            assert forall|i: int| 0 <= i < before.len() && (#[trigger] before[i]) is Subscribe implies {
                &&& 0 <= source(i) < i
                &&& before[source(i)] is Assign
                &&& before[i]->number == given_number(before, source(i))
            } by {
                assert(history[i] is Subscribe);
                assert(before.take(source(i)) =~= history.take(source(i)));
            }
            assert forall|i: int, j: int|
                0 <= i < j < before.len() && (#[trigger] before[i]) is Subscribe && (
                #[trigger] before[j]) is Subscribe implies source(i) != source(j) by {
                assert(history[i] is Subscribe && history[j] is Subscribe);
            }
        }
        law_own_numbers(before, source);
        if last is Subscribe {
            lemma_given_number(history, source(end), end);
            if used(before, last->number) {
                let i = lemma_used_position(before, last->number);
                assert(history[i] is Subscribe);
                let a = source(i);
                let b = source(end);
                if a < b {
                    lemma_given_number(history, a, b);
                } else {
                    lemma_given_number(history, b, a);
                }
                lemma_given_number(history, a, end);
            }
        }
    }
    assert forall|number: u64| #[trigger]
        state_after(history).subscribers.contains_key(number) implies number < assigned(history) by {
        lemma_numbers_assigned(history, number);
    }
    let numbers = state_after(history).subscribers.dom();
    let range = vstd::set_lib::set_int_range(0, assigned(history) as int);
    let given = range.map(|i: int| i as u64);
    vstd::set_lib::lemma_int_range(0, assigned(history) as int);
    vstd::set_lib::lemma_map_size_bound(range, given, |i: int| i as u64);
    assert forall|number: u64| numbers.contains(number) implies given.contains(number) by {
        assert(state_after(history).subscribers.contains_key(number));
        assert(range.contains(number as int));
        assert((number as int) as u64 == number);
    }
    vstd::set_lib::lemma_len_subset(numbers, given);
}

/// The ID of a new subscription is that of no current subscriber, until more numbers have been
/// given out than a `usize` can tell apart.
pub proof fn law_new_id_unused<S>(history: Seq<PubSubOp<S>>)
    requires
        assigned_first(history),
        assigned(history) <= usize::MAX,
    ensures
        !state_after(history).subscribers.contains_key(state_after(history).uid as u64),
        !state_after(history).subscribers.contains_key(state_after(history).next_number()),
{
    law_uid_counts(history);
    let size = (usize::MAX + 1) as nat;
    let count = assigned(history);
    assert(count % size == count) by (nonlinear_arith)
        requires
            count < size,
    ;
    let next = state_after(history).uid as u64;
    if state_after(history).subscribers.contains_key(next) {
        lemma_numbers_assigned(history, next);
    }
}

/// Whatever happens, exactly the current subscribers have a filter entry.
pub proof fn law_filters_of_subscribers<S>(history: Seq<PubSubOp<S>>)
    ensures
        state_after(history).valid(),
    decreases history.len(),
{
    let after = state_after(history);
    if history.len() > 0 {
        let before = history.drop_last();
        law_filters_of_subscribers(before);
        let dom = state_after(before).subscribers.dom();
        assert(state_after(before).filters.dom() == dom);
        if let PubSubOp::SessionDropped { session } = history.last() {
            assert forall|number: u64|
                after.filters.contains_key(number) == after.subscribers.contains_key(number) by {
                lemma_after_drop(state_after(before), handlers(before, session), number);
                assert(dom.contains(number) == state_after(before).filters.contains_key(number));
            }
        }
    }
    assert(after.filters.dom() =~= after.subscribers.dom());
}

/// A subscriber is reached through its own sink and sent exactly the events that its filter
/// selects, which are all events where it gave none. Nobody else's subscription changes.
pub proof fn law_subscribe_adds<S>(
    state: PubSubModel<S>,
    number: u64,
    sink: S,
    filter: Option<AuditFilter>,
    other: u64,
    policy_name: Seq<char>,
)
    ensures
        ({
            let after = state.after_subscribe(number, sink, filter);
            &&& after.subscribers.contains_key(number)
            &&& after.subscribers[number] == sink
            &&& after.receives(number, policy_name) == selected(filter, policy_name)
            &&& filter is None ==> after.receives(number, policy_name)
            &&& other != number ==> {
                &&& after.subscribers.contains_key(other) == state.subscribers.contains_key(other)
                &&& after.subscribers[other] == state.subscribers[other]
                &&& after.receives(other, policy_name) == state.receives(other, policy_name)
            }
        }),
{
}

/// Losing the connection or unsubscribing undoes a subscription under an unused ID, and nothing
/// else; doing so again changes nothing.
pub proof fn law_end_undoes_subscribe<S>(
    state: PubSubModel<S>,
    number: u64,
    sink: S,
    filter: Option<AuditFilter>,
)
    requires
        state.valid(),
        !state.subscribers.contains_key(number),
    ensures
        state.after_subscribe(number, sink, filter).after_end(SubscriptionId::Number(number))
            == state,
        state.after_end(SubscriptionId::Number(number)) == state,
{
    assert(!state.filters.contains_key(number)) by {
        assert(state.filters.dom().contains(number) == state.subscribers.dom().contains(number));
    }
    assert(state.subscribers.insert(number, sink).remove(number) =~= state.subscribers);
    assert(state.subscribers.remove(number) =~= state.subscribers);
    assert(state.filters.insert(number, filter).remove(number) =~= state.filters);
    assert(state.filters.remove(number) =~= state.filters);
}

/// Once a subscription has ended, its subscriber is sent nothing more.
pub proof fn law_end_silences<S>(state: PubSubModel<S>, number: u64, policy_name: Seq<char>)
    ensures
        !state.after_end(SubscriptionId::Number(number)).receives(number, policy_name),
{
}

/// A session has handlers only for numbers that a subscription was made under.
proof fn lemma_handlers_used<S>(history: Seq<PubSubOp<S>>, session: int, number: u64)
    requires
        handlers(history, session).contains(number),
    ensures
        used(history, number),
    decreases history.len(),
{
    if history.len() > 0 {
        let before = history.drop_last();
        let old_handlers = handlers(before, session);
        let k = choose|k: int|
            0 <= k < handlers(history, session).len() && handlers(history, session)[k] == number;
        if k < old_handlers.len() {
            assert(old_handlers[k] == number);
            lemma_handlers_used(before, session, number);
        }
    }
}

/// No two handlers are for the same subscription, neither of one session nor of two.
pub proof fn law_handlers_differ<S>(
    history: Seq<PubSubOp<S>>,
    session: int,
    i: int,
    other: int,
    j: int,
)
    requires
        numbers_differ(history),
        0 <= i < handlers(history, session).len(),
        0 <= j < handlers(history, other).len(),
        session != other || i != j,
    ensures
        handlers(history, session)[i] != handlers(history, other)[j],
    decreases history.len(),
{
    if history.len() > 0 {
        let before = history.drop_last();
        let a = handlers(before, session);
        let b = handlers(before, other);
        if i < a.len() && j < b.len() {
            law_handlers_differ(before, session, i, other, j);
        } else if i < a.len() {
            assert(a.contains(a[i]));
            lemma_handlers_used(before, session, a[i]);
        } else if j < b.len() {
            assert(b.contains(b[j]));
            lemma_handlers_used(before, other, b[j]);
        }
    }
}

/// Every current subscriber has a handler that waits for its session to be dropped.
pub proof fn law_subscriber_has_handler<S>(history: Seq<PubSubOp<S>>, number: u64)
    requires
        state_after(history).subscribers.contains_key(number),
    ensures
        exists|session: int| (#[trigger] handlers(history, session)).contains(number),
    decreases history.len(),
{
    if history.len() > 0 {
        let before = history.drop_last();
        let last = history.last();
        if let PubSubOp::SessionDropped { session } = last {
            lemma_after_drop(state_after(before), handlers(before, session), number);
        }
        if last matches PubSubOp::Subscribe { session: _, number: taken, sink: _, filter: _ }
            && taken == number {
            let session = last->Subscribe_session;
            let now = handlers(history, session);
            assert(now[now.len() - 1] == number);
        } else {
            assert(state_after(before).subscribers.contains_key(number));
            law_subscriber_has_handler(before, number);
            let session = choose|session: int|
                (#[trigger] handlers(before, session)).contains(number);
            let k = choose|k: int|
                0 <= k < handlers(before, session).len() && handlers(before, session)[k] == number;
            assert(handlers(history, session)[k] == number);
        }
    }
}

/// When a session is dropped, every subscription made over it ends, however many there are, and
/// its handlers are gone. No subscription made over another session changes, and its handler stays.
pub proof fn law_session_dropped<S>(
    history: Seq<PubSubOp<S>>,
    session: int,
    other: int,
    number: u64,
)
    requires
        numbers_differ(history),
        other != session,
    ensures
        ({
            let before = state_after(history);
            let dropped = history.push(PubSubOp::SessionDropped { session });
            let after = state_after(dropped);
            &&& handlers(dropped, session) == Seq::<u64>::empty()
            &&& handlers(dropped, other) == handlers(history, other)
            &&& handlers(history, session).contains(number) ==> {
                &&& !after.subscribers.contains_key(number)
                &&& !after.filters.contains_key(number)
            }
            &&& handlers(history, other).contains(number) ==> {
                &&& after.subscribers.contains_key(number) == before.subscribers.contains_key(number)
                &&& after.subscribers[number] == before.subscribers[number]
                &&& after.filters[number] == before.filters[number]
                &&& !handlers(history, session).contains(number)
            }
        }),
{
    let dropped = history.push(PubSubOp::SessionDropped { session });
    assert(dropped.drop_last() =~= history);
    let mine = handlers(history, session);
    let theirs = handlers(history, other);
    lemma_after_drop(state_after(history), mine, number);
    if theirs.contains(number) && mine.contains(number) {
        let i = choose|i: int| 0 <= i < mine.len() && mine[i] == number;
        let j = choose|j: int| 0 <= j < theirs.len() && theirs[j] == number;
        law_handlers_differ(history, session, i, other, j);
    }
}

/// A filter that names a policy selects the events of that policy and of no other; no filter, and a
/// filter that names no policy, select the events of every policy.
pub proof fn law_filter_selects(filter: Option<AuditFilter>, policy_name: Seq<char>)
    ensures
        filter is None ==> selected(filter, policy_name),
        filter matches Some(given) ==> {
            &&& given.policy_name is None ==> selected(filter, policy_name)
            &&& given.policy_name matches Some(name) ==> {
                &&& selected(filter, name@)
                &&& selected(filter, policy_name) ==> policy_name == name@
            }
        },
{
}

/// Whether a subscriber is sent an event rests on the filter that is registered for it, and on
/// whether it is subscribed at all.
pub proof fn law_receives<S>(state: PubSubModel<S>, number: u64, policy_name: Seq<char>)
    requires
        state.valid(),
    ensures
        !state.subscribers.contains_key(number) ==> !state.receives(number, policy_name),
        state.subscribers.contains_key(number) ==> state.receives(number, policy_name) == selected(
            state.filters[number],
            policy_name,
        ),
{
    assert(state.filters.dom().contains(number) == state.subscribers.dom().contains(number));
}

/// Subscribing keeps the filter that was given, whatever was registered under the number before, and
/// ending a subscription leaves nothing of it. Both leave every other subscription and the counter as
/// they were.
pub proof fn law_only_one_changes<S>(
    state: PubSubModel<S>,
    number: u64,
    sink: S,
    filter: Option<AuditFilter>,
    other: u64,
)
    ensures
        ({
            let after = state.after_subscribe(number, sink, filter);
            let ended = state.after_end(SubscriptionId::Number(number));
            &&& after.uid == state.uid
            &&& after.filters.contains_key(number)
            &&& after.filters[number] == filter
            &&& ended.uid == state.uid
            &&& !ended.subscribers.contains_key(number)
            &&& !ended.filters.contains_key(number)
            &&& other != number ==> {
                &&& after.filters.contains_key(other) == state.filters.contains_key(other)
                &&& after.filters[other] == state.filters[other]
                &&& ended.subscribers.contains_key(other) == state.subscribers.contains_key(other)
                &&& ended.subscribers[other] == state.subscribers[other]
                &&& ended.filters.contains_key(other) == state.filters.contains_key(other)
                &&& ended.filters[other] == state.filters[other]
            }
        }),
{
}

/// An ID that is no number is that of no subscription: ending it changes nothing.
pub proof fn law_no_number<S>(state: PubSubModel<S>, text: String)
    ensures
        state.after_end(SubscriptionId::String(text)) == state,
{
}

/// Giving out a number changes no subscription.
pub proof fn law_assign_subscribes_nobody<S>(state: PubSubModel<S>)
    ensures
        state.after_assign().subscribers == state.subscribers,
        state.after_assign().filters == state.filters,
        state.uid < usize::MAX ==> state.after_assign().uid == state.uid + 1,
        state.uid == usize::MAX ==> state.after_assign().uid == 0,
        PubSubModel::<S>::start().uid == 0,
        PubSubModel::<S>::start().subscribers == Map::<u64, S>::empty(),
        PubSubModel::<S>::start().filters == Map::<u64, Option<AuditFilter>>::empty(),
{
}

/// Running the handlers of a session ends exactly the subscriptions that they are for, and leaves
/// every other one and the counter as they were.
pub proof fn law_after_drop<S>(state: PubSubModel<S>, handlers: Seq<u64>, number: u64)
    ensures
        ({
            let after = state.after_drop(handlers);
            &&& after.uid == state.uid
            &&& handlers.contains(number) ==> {
                &&& !after.subscribers.contains_key(number)
                &&& !after.filters.contains_key(number)
            }
            &&& !handlers.contains(number) ==> {
                &&& after.subscribers.contains_key(number) == state.subscribers.contains_key(number)
                &&& after.subscribers[number] == state.subscribers[number]
                &&& after.filters.contains_key(number) == state.filters.contains_key(number)
                &&& after.filters[number] == state.filters[number]
            }
        }),
{
    lemma_after_drop(state, handlers, number);
}

/// The warning of a lost connection names its subscription: between its first and its last words
/// stand the decimal digits of the number, from which the number can be read.
pub proof fn law_lost_warning(number: u64)
    ensures
        exists|digits: Seq<char>|
            {
                &&& lost_warning(number) == "Lost connection with subscriber "@ + digits
                    + ", dropping subscription!"@
                &&& #[trigger] text::is_numeral(digits)
                &&& text::numeral_value(digits) == number
                &&& digits[0] == '0' ==> digits.len() == 1
            },
{
    text::law_decimal(number as nat);
    let digits = text::decimal(number as nat);
    assert(text::is_numeral(digits));
}

} // verus!

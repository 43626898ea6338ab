//! Shared runtime state: the single source of truth that the host thread and
//! the guest engine's thread both touch. It owns the queued tasks, the
//! pending one-shot task waiters, the bounded user channels, the monotonic id
//! allocator and the current generation's lifecycle event slot.
//!
//! Every value is scoped to one generation: `reset` drops all of them and
//! starts the allocator again at zero.

use std::collections::VecDeque;
use vstd::hash_map::HashMapWithView;
use vstd::prelude::*;

verus! {

broadcast use vstd::std_specs::hash::group_hash_axioms;

/// A task request as the guest issues it: a target name for the host to
/// execute and an optional JSON argument value.
pub struct TaskRequest {
    pub target: String,
    pub args: Option<serde_json::Value>,
}

/// A queued task: a request that has been given an id and waits in the queue
/// until the host drains it.
pub struct Task {
    pub id: u64,
    pub target: String,
    pub args: Option<serde_json::Value>,
}

/// The host's answer to one task, addressed by the task's id.
pub struct TaskResult {
    pub id: u64,
    pub result: TaskResultValue,
}

/// The payload of a task result: a successful value (possibly absent) or an
/// error message for the guest call site.
pub enum TaskResultValue {
    Success(Option<serde_json::Value>),
    Error(String),
}

/// The direction of a user channel: `ToLua` carries messages from the guest
/// toward the host, `FromLua` carries messages from the host toward the
/// guest. Only a `FromLua` channel accepts host sends, and only a `FromLua`
/// channel can be waited on by the guest.
#[derive(Clone, Copy, Debug, PartialEq, Eq, Structural)]
pub enum UserChannelDirection {
    ToLua,
    FromLua,
}

/// A bounded, ordered, direction-typed message queue between host and guest.
pub struct UserChannel {
    pub direction: UserChannelDirection,
    pub capacity: usize,
    pub queue: VecDeque<serde_json::Value>,
}

/// A singleton lifecycle signal driving the supervisor's state machine.
#[derive(Clone, Copy, Debug, PartialEq, Eq, Structural)]
pub enum GlobalEvent {
    Loaded,
    MissionEnd,
    Reload,
}

/// The one-shot completion handle of a queued task. It is `Pending` from the
/// moment the task is enqueued, becomes `Fulfilled` when the host delivers
/// the matching result, and is removed when the originating suspended guest
/// call takes the result (or when the generation resets).
pub enum WaiterState {
    Pending,
    Fulfilled(TaskResultValue),
}

/// Immutable per-process configuration, copied into each generation's guest
/// bootstrap.
#[derive(Clone, Debug)]
pub struct Config {
    pub write_dir: Option<String>,
    pub sdk_path: Option<String>,
    pub development: bool,
    pub debugging: bool,
    pub scripts: Vec<String>,
    pub break_on_first_statement: Option<bool>,
}

impl Default for Config {
    fn default() -> (c: Config)
        ensures
            c.write_dir is None,
            c.sdk_path is None,
            !c.development,
            !c.debugging,
            c.scripts@ == Seq::<String>::empty(),
            c.break_on_first_statement is None,
    {
        Config {
            write_dir: None,
            sdk_path: None,
            development: false,
            debugging: false,
            scripts: Vec::new(),
            break_on_first_statement: None,
        }
    }
}

/// The mathematical model of one user channel: its direction, its bound and
/// the messages it currently buffers, oldest first.
#[verifier::ext_equal]
pub ghost struct ChannelModel {
    pub direction: UserChannelDirection,
    pub capacity: usize,
    pub messages: Seq<serde_json::Value>,
}

impl ChannelModel {
    /// A channel never buffers more messages than its capacity.
    pub open spec fn wf(self) -> bool {
        self.messages.len() <= self.capacity
    }
}

impl View for UserChannel {
    type V = ChannelModel;

    open spec fn view(&self) -> ChannelModel {
        ChannelModel {
            direction: self.direction,
            capacity: self.capacity,
            messages: self.queue@,
        }
    }
}

/// The mathematical model of the whole shared runtime state.
///
/// `events` is `None` while no generation's event sender is installed;
/// otherwise it holds the single slot of the capacity-one lifecycle event
/// channel.
#[verifier::ext_equal]
pub ghost struct StateModel {
    pub next_id: u64,
    pub tasks: Seq<Task>,
    pub waiters: Map<u64, WaiterState>,
    pub channels: Map<u64, ChannelModel>,
    pub events: Option<Option<GlobalEvent>>,
    pub config: Option<Config>,
}

impl StateModel {
    /// Well-formedness: every id ever handed out is below the allocator's
    /// next value, queued task ids strictly increase (FIFO enqueue order),
    /// and every channel respects its bound.
    pub open spec fn wf(self) -> bool {
        &&& forall|i: int|
            0 <= i < self.tasks.len() ==> (#[trigger] self.tasks[i].id) < self.next_id
        &&& forall|i: int, j: int|
            0 <= i < j < self.tasks.len() ==> self.tasks[i].id < self.tasks[j].id
        &&& forall|k: u64| #[trigger] self.waiters.contains_key(k) ==> k < self.next_id
        &&& forall|k: u64| #[trigger]
            self.channels.contains_key(k) ==> k < self.next_id && self.channels[k].wf()
    }
}

/// The private slot of the current generation's capacity-one lifecycle event
/// channel.
#[derive(Clone, Copy)]
struct EventSlot {
    pending: Option<GlobalEvent>,
}

/// Shared runtime state. All cross-thread mutable state of the bridge lives
/// here; the embedding is expected to guard the whole value by one
/// mutual-exclusion lock and keep every critical section short.
pub struct Runtime {
    task_queue: VecDeque<Task>,
    task_waiters: HashMapWithView<u64, WaiterState>,
    user_channels: HashMapWithView<u64, UserChannel>,
    id: u64,
    config: Option<Config>,
    global_events: Option<EventSlot>,
}

impl View for Runtime {
    type V = StateModel;

    closed spec fn view(&self) -> StateModel {
        StateModel {
            next_id: self.id,
            tasks: self.task_queue@,
            waiters: self.task_waiters@,
            channels: Map::new(
                |k: u64| self.user_channels@.contains_key(k),
                |k: u64| self.user_channels@[k]@,
            ),
            events: match self.global_events {
                Some(slot) => Some(slot.pending),
                None => None,
            },
            config: self.config,
        }
    }
}

/// The model of a freshly reset generation: nothing queued, no waiters, no
/// channels, allocator at zero, a fresh empty event slot installed; the
/// configuration is kept.
pub open spec fn spec_reset(m: StateModel) -> StateModel {
    StateModel {
        next_id: 0,
        tasks: Seq::<Task>::empty(),
        waiters: Map::<u64, WaiterState>::empty(),
        channels: Map::<u64, ChannelModel>::empty(),
        events: Some(None::<GlobalEvent>),
        config: m.config,
    }
}

/// Enqueueing a task: the next id is allocated, the task goes to the tail of
/// the queue, and a fresh pending waiter is registered under the new id,
/// which is returned.
pub open spec fn spec_enqueue(
    m: StateModel,
    target: String,
    args: Option<serde_json::Value>,
) -> (StateModel, u64) {
    (
        StateModel {
            next_id: (m.next_id + 1) as u64,
            tasks: m.tasks.push(Task { id: m.next_id, target, args }),
            waiters: m.waiters.insert(m.next_id, WaiterState::Pending),
            ..m
        },
        m.next_id,
    )
}

/// Draining the queue: it becomes empty, and its prior contents come back in
/// FIFO order, or nothing when it already was empty.
pub open spec fn spec_drain(m: StateModel) -> (StateModel, Option<Seq<Task>>) {
    (
        StateModel { tasks: Seq::<Task>::empty(), ..m },
        if m.tasks.len() == 0 {
            None
        } else {
            Some(m.tasks)
        },
    )
}

/// Completing a task: the pending waiter registered under the result's id, if
/// there is one, becomes fulfilled with the result's payload; in every other
/// case nothing changes (completing an unknown or already fulfilled id is a
/// silent no-op).
pub open spec fn spec_complete(m: StateModel, result: TaskResult) -> StateModel {
    if m.waiters.contains_key(result.id) && m.waiters[result.id] is Pending {
        StateModel {
            waiters: m.waiters.insert(result.id, WaiterState::Fulfilled(result.result)),
            ..m
        }
    } else {
        m
    }
}

/// The originating guest call taking a delivered result: a fulfilled waiter
/// is removed and its payload handed out; a pending or absent waiter yields
/// nothing and changes nothing.
pub open spec fn spec_take_result(m: StateModel, id: u64) -> (StateModel, Option<
    TaskResultValue,
>) {
    if m.waiters.contains_key(id) && m.waiters[id] is Fulfilled {
        (StateModel { waiters: m.waiters.remove(id), ..m }, Some(m.waiters[id]->0))
    } else {
        (m, None)
    }
}

/// What a guest-side wait observes when it polls a channel.
pub enum ChannelWaitOutcome {
    /// The oldest buffered message, removed from the queue.
    Message(serde_json::Value),
    /// No message is buffered yet; the caller may suspend and poll again.
    NoMessage,
    /// The guest holds the sending half of this channel; waiting on it is a
    /// programming error and fails immediately.
    WrongDirection,
    /// No channel is registered under this id.
    UnknownChannel,
}

/// Creating a channel: the next id is allocated and an empty bounded queue
/// with the given direction and capacity is registered under it.
pub open spec fn spec_create_channel(
    m: StateModel,
    direction: UserChannelDirection,
    capacity: usize,
) -> (StateModel, u64) {
    (
        StateModel {
            next_id: (m.next_id + 1) as u64,
            channels: m.channels.insert(
                m.next_id,
                ChannelModel { direction, capacity, messages: Seq::<serde_json::Value>::empty() },
            ),
            ..m
        },
        m.next_id,
    )
}

/// A host-side send: accepted exactly when the channel exists, carries
/// messages toward the guest and still has room; an accepted message goes to
/// the tail of the queue, a refused send changes nothing.
pub open spec fn spec_send(m: StateModel, id: u64, message: serde_json::Value) -> (
    StateModel,
    bool,
) {
    if m.channels.contains_key(id) && m.channels[id].direction is FromLua
        && m.channels[id].messages.len() < m.channels[id].capacity {
        (
            StateModel {
                channels: m.channels.insert(
                    id,
                    ChannelModel { messages: m.channels[id].messages.push(message), ..m.channels[id] },
                ),
                ..m
            },
            true,
        )
    } else {
        (m, false)
    }
}

/// A guest-side wait step: an unknown id fails, a channel whose sending half
/// the guest holds fails immediately, an empty queue yields no message (the
/// caller may suspend), and otherwise the oldest message leaves the queue.
pub open spec fn spec_receive(m: StateModel, id: u64) -> (StateModel, ChannelWaitOutcome) {
    if !m.channels.contains_key(id) {
        (m, ChannelWaitOutcome::UnknownChannel)
    } else if m.channels[id].direction is ToLua {
        (m, ChannelWaitOutcome::WrongDirection)
    } else if m.channels[id].messages.len() == 0 {
        (m, ChannelWaitOutcome::NoMessage)
    } else {
        (
            StateModel {
                channels: m.channels.insert(
                    id,
                    ChannelModel {
                        messages: m.channels[id].messages.subrange(
                            1,
                            m.channels[id].messages.len() as int,
                        ),
                        ..m.channels[id]
                    },
                ),
                ..m
            },
            ChannelWaitOutcome::Message(m.channels[id].messages[0]),
        )
    }
}

/// Removing a channel: its entry disappears; removing an unknown id changes
/// nothing.
pub open spec fn spec_remove_channel(m: StateModel, id: u64) -> StateModel {
    StateModel { channels: m.channels.remove(id), ..m }
}

/// Dispatching a lifecycle event: accepted exactly when a generation's event
/// slot is installed and empty; a second event before the supervisor consumed
/// the first is refused, as is any event while no generation's sender exists.
pub open spec fn spec_dispatch(m: StateModel, event: GlobalEvent) -> (StateModel, bool) {
    match m.events {
        None => (m, false),
        Some(slot) => match slot {
            Some(_) => (m, false),
            None => (StateModel { events: Some(Some(event)), ..m }, true),
        },
    }
}

/// The supervisor consuming the pending lifecycle event, if any.
pub open spec fn spec_take_event(m: StateModel) -> (StateModel, Option<GlobalEvent>) {
    match m.events {
        Some(Some(event)) => (StateModel { events: Some(None::<GlobalEvent>), ..m }, Some(event)),
        _ => (m, None),
    }
}

impl Runtime {
    /// Well-formedness of the state behind this handle.
    pub open spec fn wf(self) -> bool {
        self@.wf()
    }

    /// A fresh runtime: no tasks, no waiters, no channels, allocator at zero,
    /// no generation's event sender installed yet.
    pub fn new(config: Config) -> (r: Runtime)
        ensures
            r.wf(),
            r@ == (StateModel {
                next_id: 0,
                tasks: Seq::<Task>::empty(),
                waiters: Map::<u64, WaiterState>::empty(),
                channels: Map::<u64, ChannelModel>::empty(),
                events: None::<Option<GlobalEvent>>,
                config: Some(config),
            }),
    {
        let task_queue: VecDeque<Task> = VecDeque::new();
        let task_waiters: HashMapWithView<u64, WaiterState> = HashMapWithView::new();
        let user_channels: HashMapWithView<u64, UserChannel> = HashMapWithView::new();
        let r = Runtime {
            task_queue,
            task_waiters,
            user_channels,
            id: 0,
            config: Some(config),
            global_events: None,
        };
        proof {
            assert(r@.channels =~= Map::<u64, ChannelModel>::empty());
        }
        r
    }

    /// The id the allocator will hand out next. Ids are allocated one by one,
    /// so a caller can check that another one is available.
    pub fn next_id(&self) -> (r: u64)
        ensures
            r == self@.next_id,
    {
        self.id
    }

    /// Starts a fresh generation: drops every queued task, every waiter
    /// (without fulfilling it) and every channel, resets the id allocator to
    /// zero and installs a fresh, empty lifecycle event slot.
    pub fn reset(&mut self)
        ensures
            final(self).wf(),
            final(self)@ == spec_reset(old(self)@),
    {
        self.id = 0;
        self.task_queue.clear();
        self.task_waiters.clear();
        self.user_channels.clear();
        self.global_events = Some(EventSlot { pending: None });
        proof {
            assert(self@.channels =~= Map::<u64, ChannelModel>::empty());
            assert(self@ =~= spec_reset(old(self)@));
        }
    }

    /// Queues a guest-issued task request: allocates the next id, appends the
    /// task to the tail of the queue and registers a fresh pending waiter
    /// under that id, which is returned to the guest.
    pub fn add_queued_task(&mut self, request: TaskRequest) -> (id: u64)
        requires
            old(self).wf(),
            old(self)@.next_id < u64::MAX,
        ensures
            final(self).wf(),
            final(self)@ == spec_enqueue(old(self)@, request.target, request.args).0,
            id == spec_enqueue(old(self)@, request.target, request.args).1,
            id == old(self)@.next_id,
    {
        let id = self.id;
        self.id = id + 1;
        let TaskRequest { target, args } = request;
        self.task_queue.push_back(Task { id, target, args });
        self.task_waiters.insert(id, WaiterState::Pending);
        proof {
            assert(self@ =~= spec_enqueue(old(self)@, request.target, request.args).0);
        }
        id
    }

    /// Atomically empties the task queue and returns its prior contents in
    /// FIFO order; returns nothing when the queue already was empty.
    pub fn get_queued_tasks(&mut self) -> (r: Option<VecDeque<Task>>)
        requires
            old(self).wf(),
        ensures
            final(self).wf(),
            final(self)@ == spec_drain(old(self)@).0,
            (match r {
                Some(tasks) => spec_drain(old(self)@).1 == Some(tasks@),
                None => spec_drain(old(self)@).1 is None,
            }),
    {
        if self.task_queue.len() == 0 {
            proof {
                assert(self@ =~= spec_drain(old(self)@).0);
            }
            return None;
        }
        let mut drained: VecDeque<Task> = VecDeque::new();
        core::mem::swap(&mut drained, &mut self.task_queue);
        proof {
            assert(self@ =~= spec_drain(old(self)@).0);
        }
        Some(drained)
    }

    /// Delivers the host's result for one task: the pending waiter under the
    /// result's id, if any, is fulfilled with the payload. Completing an
    /// unknown or already fulfilled id changes nothing.
    pub fn complete_task(&mut self, result: TaskResult)
        requires
            old(self).wf(),
        ensures
            final(self).wf(),
            final(self)@ == spec_complete(old(self)@, result),
    {
        let TaskResult { id, result: value } = result;
        let pending = match self.task_waiters.get(&id) {
            Some(WaiterState::Pending) => true,
            _ => false,
        };
        if pending {
            self.task_waiters.insert(id, WaiterState::Fulfilled(value));
        }
        proof {
            assert(self@ =~= spec_complete(old(self)@, result));
        }
    }

    /// The guest side of the task bridge: takes the delivered result for the
    /// given task id if one has arrived. A pending or unknown id yields
    /// nothing; a fulfilled waiter is removed, so a result is handed out at
    /// most once.
    pub fn take_task_result(&mut self, id: u64) -> (r: Option<TaskResultValue>)
        requires
            old(self).wf(),
        ensures
            final(self).wf(),
            final(self)@ == spec_take_result(old(self)@, id).0,
            r == spec_take_result(old(self)@, id).1,
    {
        match self.task_waiters.remove(&id) {
            None => None,
            Some(WaiterState::Pending) => {
                self.task_waiters.insert(id, WaiterState::Pending);
                proof {
                    assert(self@.waiters =~= old(self)@.waiters);
                    assert(self@ =~= old(self)@);
                }
                None
            },
            Some(WaiterState::Fulfilled(value)) => {
                proof {
                    assert(self@ =~= spec_take_result(old(self)@, id).0);
                }
                Some(value)
            },
        }
    }

    /// Registers a new bounded user channel and returns its id.
    pub fn add_user_channel(
        &mut self,
        direction: UserChannelDirection,
        capacity: usize,
    ) -> (id: u64)
        requires
            old(self).wf(),
            old(self)@.next_id < u64::MAX,
        ensures
            final(self).wf(),
            final(self)@ == spec_create_channel(old(self)@, direction, capacity).0,
            id == spec_create_channel(old(self)@, direction, capacity).1,
            id == old(self)@.next_id,
    {
        let id = self.id;
        self.id = id + 1;
        let queue: VecDeque<serde_json::Value> = VecDeque::new();
        self.user_channels.insert(id, UserChannel { direction, capacity, queue });
        proof {
            assert(self@ =~= spec_create_channel(old(self)@, direction, capacity).0);
        }
        id
    }

    /// The host-side, non-blocking channel send. Returns whether the message
    /// was accepted: it is refused, and nothing changes, when the channel is
    /// unknown, does not carry messages toward the guest, or is full.
    pub fn send_user_channel_message(&mut self, id: u64, message: serde_json::Value) -> (accepted:
        bool)
        requires
            old(self).wf(),
        ensures
            final(self).wf(),
            final(self)@ == spec_send(old(self)@, id, message).0,
            accepted == spec_send(old(self)@, id, message).1,
    {
        match self.user_channels.remove(&id) {
            None => {
                proof {
                    assert(self@ =~= old(self)@);
                }
                false
            },
            Some(mut channel) => {
                let accepted = channel.direction == UserChannelDirection::FromLua
                    && channel.queue.len() < channel.capacity;
                if accepted {
                    channel.queue.push_back(message);
                }
                self.user_channels.insert(id, channel);
                proof {
                    assert(self@ =~= spec_send(old(self)@, id, message).0);
                }
                accepted
            },
        }
    }

    /// The guest-side wait step: polls the channel once, without suspending.
    /// An unknown id or a channel whose sending half the guest holds fails;
    /// an empty queue reports that no message is buffered yet; otherwise the
    /// oldest message is removed and returned.
    pub fn receive_user_channel_message(&mut self, id: u64) -> (outcome: ChannelWaitOutcome)
        requires
            old(self).wf(),
        ensures
            final(self).wf(),
            final(self)@ == spec_receive(old(self)@, id).0,
            outcome == spec_receive(old(self)@, id).1,
    {
        match self.user_channels.remove(&id) {
            None => {
                proof {
                    assert(self@ =~= old(self)@);
                }
                ChannelWaitOutcome::UnknownChannel
            },
            Some(mut channel) => {
                let outcome = if channel.direction == UserChannelDirection::ToLua {
                    ChannelWaitOutcome::WrongDirection
                } else {
                    match channel.queue.pop_front() {
                        None => ChannelWaitOutcome::NoMessage,
                        Some(message) => ChannelWaitOutcome::Message(message),
                    }
                };
                self.user_channels.insert(id, channel);
                proof {
                    assert(self@ =~= spec_receive(old(self)@, id).0);
                }
                outcome
            },
        }
    }

    /// Deletes the channel entry; safe to call on an unknown id.
    pub fn remove_user_channel(&mut self, id: u64)
        requires
            old(self).wf(),
        ensures
            final(self).wf(),
            final(self)@ == spec_remove_channel(old(self)@, id),
    {
        self.user_channels.remove(&id);
        proof {
            assert(self@ =~= spec_remove_channel(old(self)@, id));
        }
    }

    /// Dispatches a lifecycle event toward the supervisor. Returns whether it
    /// was accepted: the event slot holds at most one undelivered event, and
    /// nothing is accepted before the first generation installs a sender.
    pub fn dispatch_global_event(&mut self, event: GlobalEvent) -> (accepted: bool)
        requires
            old(self).wf(),
        ensures
            final(self).wf(),
            final(self)@ == spec_dispatch(old(self)@, event).0,
            accepted == spec_dispatch(old(self)@, event).1,
    {
        match self.global_events {
            None => false,
            Some(slot) => match slot.pending {
                Some(_) => false,
                None => {
                    self.global_events = Some(EventSlot { pending: Some(event) });
                    proof {
                        assert(self@ =~= spec_dispatch(old(self)@, event).0);
                    }
                    true
                },
            },
        }
    }

    /// The supervisor's side of the lifecycle event channel: consumes the
    /// pending event, if any.
    pub fn take_global_event(&mut self) -> (event: Option<GlobalEvent>)
        requires
            old(self).wf(),
        ensures
            final(self).wf(),
            final(self)@ == spec_take_event(old(self)@).0,
            event == spec_take_event(old(self)@).1,
    {
        match self.global_events {
            Some(slot) => match slot.pending {
                Some(event) => {
                    self.global_events = Some(EventSlot { pending: None });
                    proof {
                        assert(self@ =~= spec_take_event(old(self)@).0);
                    }
                    Some(event)
                },
                None => None,
            },
            None => None,
        }
    }
}

impl TaskResult {
    /// Builds the result to deliver for one task from the outcome of decoding
    /// the host's raw payload: a well-formed payload passes through, a
    /// malformed one becomes an error result carrying the diagnostic, so one
    /// bad entry never aborts the batch it arrived in.
    pub fn from_decoded(id: u64, decoded: Result<TaskResultValue, String>) -> (r: TaskResult)
        ensures
            r.id == id,
            r.result == (match decoded {
                Ok(value) => value,
                Err(message) => TaskResultValue::Error(message),
            }),
    {
        match decoded {
            Ok(value) => TaskResult { id, result: value },
            Err(message) => TaskResult { id, result: TaskResultValue::Error(message) },
        }
    }
}

impl UserChannelDirection {
    /// Decodes the guest's numeric encoding of a direction: 1 is `ToLua`,
    /// 2 is `FromLua`, anything else is unknown.
    pub fn from_u8(value: u8) -> (r: Option<UserChannelDirection>)
        ensures
            r == (if value == 1 {
                Some(UserChannelDirection::ToLua)
            } else if value == 2 {
                Some(UserChannelDirection::FromLua)
            } else {
                None::<UserChannelDirection>
            }),
    {
        match value {
            1 => Some(UserChannelDirection::ToLua),
            2 => Some(UserChannelDirection::FromLua),
            _ => None,
        }
    }
}

/// A string with a trailing line break (`"\n"` or `"\r\n"`) removed; any
/// other string is unchanged.
pub open spec fn spec_trim_newline(s: Seq<char>) -> Seq<char> {
    if s.len() > 0 && s.last() == '\n' {
        let t = s.drop_last();
        if t.len() > 0 && t.last() == '\r' {
            t.drop_last()
        } else {
            t
        }
    } else {
        s
    }
}

/// Relies on str::ends_with with a char pattern: whether the string's last
/// character is the given one.
#[verifier::external_body]
fn ends_with_char(s: &String, c: char) -> (r: bool)
    ensures
        r == (s@.len() > 0 && s@.last() == c),
{
    s.as_str().ends_with(c)
}

/// Relies on String::pop: removes the string's last character and returns
/// it, or returns nothing when the string is empty.
#[verifier::external_body]
fn pop_char(s: &mut String) -> (r: Option<char>)
    ensures
        old(s)@.len() == 0 ==> r is None && final(s)@ == old(s)@,
        old(s)@.len() > 0 ==> r == Some(old(s)@.last()) && final(s)@ == old(s)@.drop_last(),
{
    s.pop()
}

/// Removes one trailing line break (`"\n"` or `"\r\n"`) from a diagnostic
/// line before it is forwarded to the process log.
pub fn trim_newline(s: &mut String)
    ensures
        final(s)@ == spec_trim_newline(old(s)@),
{
    if ends_with_char(s, '\n') {
        let _ = pop_char(s);
        if ends_with_char(s, '\r') {
            let _ = pop_char(s);
        }
    }
}

} // verus!

//! Domain messages carried across the native boundary.
//!
//! The adapter never interprets these messages; it only moves them across the
//! boundary intact. Each type therefore holds, as plain values, exactly what
//! crosses the wire: identifier and text fields as byte strings, counts as
//! integers. Every type has a mathematical view over `Seq<u8>` that the
//! marshalling contracts are stated against.

use vstd::prelude::*;

verus! {

/// Identifier of a framework, assigned by the engine at registration.
#[derive(Clone, Debug, PartialEq, Eq)]
pub struct FrameworkId {
    pub value: Vec<u8>,
}

#[verifier::ext_equal]
pub struct FrameworkIdView {
    pub value: Seq<u8>,
}

impl View for FrameworkId {
    type V = FrameworkIdView;

    open spec fn view(&self) -> FrameworkIdView {
        FrameworkIdView { value: self.value@ }
    }
}

/// Identifier of a resource offer.
#[derive(Clone, Debug, PartialEq, Eq)]
pub struct OfferId {
    pub value: Vec<u8>,
}

#[verifier::ext_equal]
pub struct OfferIdView {
    pub value: Seq<u8>,
}

impl View for OfferId {
    type V = OfferIdView;

    open spec fn view(&self) -> OfferIdView {
        OfferIdView { value: self.value@ }
    }
}

/// Identifier of a task.
#[derive(Clone, Debug, PartialEq, Eq)]
pub struct TaskId {
    pub value: Vec<u8>,
}

#[verifier::ext_equal]
pub struct TaskIdView {
    pub value: Seq<u8>,
}

impl View for TaskId {
    type V = TaskIdView;

    open spec fn view(&self) -> TaskIdView {
        TaskIdView { value: self.value@ }
    }
}

/// Identifier of an executor.
#[derive(Clone, Debug, PartialEq, Eq)]
pub struct ExecutorId {
    pub value: Vec<u8>,
}

#[verifier::ext_equal]
pub struct ExecutorIdView {
    pub value: Seq<u8>,
}

impl View for ExecutorId {
    type V = ExecutorIdView;

    open spec fn view(&self) -> ExecutorIdView {
        ExecutorIdView { value: self.value@ }
    }
}

/// Identifier of a slave node.
#[derive(Clone, Debug, PartialEq, Eq)]
pub struct SlaveId {
    pub value: Vec<u8>,
}

#[verifier::ext_equal]
pub struct SlaveIdView {
    pub value: Seq<u8>,
}

impl View for SlaveId {
    type V = SlaveIdView;

    open spec fn view(&self) -> SlaveIdView {
        SlaveIdView { value: self.value@ }
    }
}

/// Descriptor of the framework handed to the engine at initialization.
#[derive(Clone, Debug, PartialEq, Eq)]
pub struct FrameworkInfo {
    pub name: Vec<u8>,
    pub user: Vec<u8>,
}

#[verifier::ext_equal]
pub struct FrameworkInfoView {
    pub name: Seq<u8>,
    pub user: Seq<u8>,
}

impl View for FrameworkInfo {
    type V = FrameworkInfoView;

    open spec fn view(&self) -> FrameworkInfoView {
        FrameworkInfoView { name: self.name@, user: self.user@ }
    }
}

impl FrameworkInfo {
    /// An empty descriptor, to be filled in by the setters.
    pub fn new() -> (r: FrameworkInfo)
        ensures
            r@.name == Seq::<u8>::empty(),
            r@.user == Seq::<u8>::empty(),
    {
        FrameworkInfo { name: Vec::new(), user: Vec::new() }
    }

    pub fn set_name(&mut self, name: Vec<u8>)
        ensures
            final(self)@ == (FrameworkInfoView { name: name@, ..old(self)@ }),
    {
        self.name = name;
    }

    pub fn set_user(&mut self, user: Vec<u8>)
        ensures
            final(self)@ == (FrameworkInfoView { user: user@, ..old(self)@ }),
    {
        self.user = user;
    }
}

/// Description of the master the framework registered with.
#[derive(Clone, Debug, PartialEq, Eq)]
pub struct MasterInfo {
    pub id: Vec<u8>,
    pub address: Vec<u8>,
}

#[verifier::ext_equal]
pub struct MasterInfoView {
    pub id: Seq<u8>,
    pub address: Seq<u8>,
}

impl View for MasterInfo {
    type V = MasterInfoView;

    open spec fn view(&self) -> MasterInfoView {
        MasterInfoView { id: self.id@, address: self.address@ }
    }
}

/// A resource offer made to the framework.
#[derive(Clone, Debug, PartialEq, Eq)]
pub struct Offer {
    pub id: OfferId,
    pub framework_id: FrameworkId,
    pub slave_id: SlaveId,
    pub hostname: Vec<u8>,
}

#[verifier::ext_equal]
pub struct OfferView {
    pub id: OfferIdView,
    pub framework_id: FrameworkIdView,
    pub slave_id: SlaveIdView,
    pub hostname: Seq<u8>,
}

impl View for Offer {
    type V = OfferView;

    open spec fn view(&self) -> OfferView {
        OfferView {
            id: self.id@,
            framework_id: self.framework_id@,
            slave_id: self.slave_id@,
            hostname: self.hostname@,
        }
    }
}

/// Description of a task to launch on an offered slave.
#[derive(Clone, Debug, PartialEq, Eq)]
pub struct TaskInfo {
    pub name: Vec<u8>,
    pub task_id: TaskId,
    pub slave_id: SlaveId,
    pub data: Vec<u8>,
}

#[verifier::ext_equal]
pub struct TaskInfoView {
    pub name: Seq<u8>,
    pub task_id: TaskIdView,
    pub slave_id: SlaveIdView,
    pub data: Seq<u8>,
}

impl View for TaskInfo {
    type V = TaskInfoView;

    open spec fn view(&self) -> TaskInfoView {
        TaskInfoView {
            name: self.name@,
            task_id: self.task_id@,
            slave_id: self.slave_id@,
            data: self.data@,
        }
    }
}

/// The lifecycle state a task reported in a status update.
#[derive(Clone, Copy, Debug, PartialEq, Eq, Structural)]
pub enum TaskState {
    Staging,
    Starting,
    Running,
    Finished,
    Failed,
    Killed,
    Lost,
}

/// The wire code of a task state.
pub open spec fn spec_state_code(s: TaskState) -> u8 {
    match s {
        TaskState::Staging => 0,
        TaskState::Starting => 1,
        TaskState::Running => 2,
        TaskState::Finished => 3,
        TaskState::Failed => 4,
        TaskState::Killed => 5,
        TaskState::Lost => 6,
    }
}

/// The task state a wire code stands for, if any.
pub open spec fn spec_state_from_code(c: u8) -> Option<TaskState> {
    if c == 0 {
        Some(TaskState::Staging)
    } else if c == 1 {
        Some(TaskState::Starting)
    } else if c == 2 {
        Some(TaskState::Running)
    } else if c == 3 {
        Some(TaskState::Finished)
    } else if c == 4 {
        Some(TaskState::Failed)
    } else if c == 5 {
        Some(TaskState::Killed)
    } else if c == 6 {
        Some(TaskState::Lost)
    } else {
        None
    }
}

pub fn state_code(s: TaskState) -> (c: u8)
    ensures
        c == spec_state_code(s),
{
    match s {
        TaskState::Staging => 0,
        TaskState::Starting => 1,
        TaskState::Running => 2,
        TaskState::Finished => 3,
        TaskState::Failed => 4,
        TaskState::Killed => 5,
        TaskState::Lost => 6,
    }
}

pub fn state_from_code(c: u8) -> (s: Option<TaskState>)
    ensures
        s == spec_state_from_code(c),
{
    if c == 0 {
        Some(TaskState::Staging)
    } else if c == 1 {
        Some(TaskState::Starting)
    } else if c == 2 {
        Some(TaskState::Running)
    } else if c == 3 {
        Some(TaskState::Finished)
    } else if c == 4 {
        Some(TaskState::Failed)
    } else if c == 5 {
        Some(TaskState::Killed)
    } else if c == 6 {
        Some(TaskState::Lost)
    } else {
        None
    }
}

/// Decoding a task state code written by the encoder recovers the state.
pub proof fn lemma_state_code_round_trip(s: TaskState)
    ensures
        spec_state_from_code(spec_state_code(s)) == Some(s),
{
}

/// A status update for one task.
#[derive(Clone, Debug, PartialEq, Eq)]
pub struct TaskStatus {
    pub task_id: TaskId,
    pub state: TaskState,
    pub message: Vec<u8>,
}

#[verifier::ext_equal]
pub struct TaskStatusView {
    pub task_id: TaskIdView,
    pub state: TaskState,
    pub message: Seq<u8>,
}

impl View for TaskStatus {
    type V = TaskStatusView;

    open spec fn view(&self) -> TaskStatusView {
        TaskStatusView { task_id: self.task_id@, state: self.state, message: self.message@ }
    }
}

/// Filters attached to an offer decline or a task launch.
#[derive(Clone, Debug, PartialEq, Eq)]
pub struct Filters {
    /// How long, in seconds, declined resources need not be re-offered.
    pub refuse_seconds: u64,
}

#[verifier::ext_equal]
pub struct FiltersView {
    pub refuse_seconds: u64,
}

impl View for Filters {
    type V = FiltersView;

    open spec fn view(&self) -> FiltersView {
        FiltersView { refuse_seconds: self.refuse_seconds }
    }
}

/// A resource request addressed to one slave.
#[derive(Clone, Debug, PartialEq, Eq)]
pub struct Request {
    pub slave_id: SlaveId,
}

#[verifier::ext_equal]
pub struct RequestView {
    pub slave_id: SlaveIdView,
}

impl View for Request {
    type V = RequestView;

    open spec fn view(&self) -> RequestView {
        RequestView { slave_id: self.slave_id@ }
    }
}

/// Any domain message the adapter moves across the native boundary.
#[derive(Clone, Debug, PartialEq, Eq)]
pub enum Message {
    FrameworkId(FrameworkId),
    OfferId(OfferId),
    TaskId(TaskId),
    ExecutorId(ExecutorId),
    SlaveId(SlaveId),
    FrameworkInfo(FrameworkInfo),
    MasterInfo(MasterInfo),
    Offer(Offer),
    TaskInfo(TaskInfo),
    TaskStatus(TaskStatus),
    Filters(Filters),
    Request(Request),
}

#[verifier::ext_equal]
pub enum MessageView {
    FrameworkId(FrameworkIdView),
    OfferId(OfferIdView),
    TaskId(TaskIdView),
    ExecutorId(ExecutorIdView),
    SlaveId(SlaveIdView),
    FrameworkInfo(FrameworkInfoView),
    MasterInfo(MasterInfoView),
    Offer(OfferView),
    TaskInfo(TaskInfoView),
    TaskStatus(TaskStatusView),
    Filters(FiltersView),
    Request(RequestView),
}

impl View for Message {
    type V = MessageView;

    open spec fn view(&self) -> MessageView {
        match self {
            Message::FrameworkId(m) => MessageView::FrameworkId(m@),
            Message::OfferId(m) => MessageView::OfferId(m@),
            Message::TaskId(m) => MessageView::TaskId(m@),
            Message::ExecutorId(m) => MessageView::ExecutorId(m@),
            Message::SlaveId(m) => MessageView::SlaveId(m@),
            Message::FrameworkInfo(m) => MessageView::FrameworkInfo(m@),
            Message::MasterInfo(m) => MessageView::MasterInfo(m@),
            Message::Offer(m) => MessageView::Offer(m@),
            Message::TaskInfo(m) => MessageView::TaskInfo(m@),
            Message::TaskStatus(m) => MessageView::TaskStatus(m@),
            Message::Filters(m) => MessageView::Filters(m@),
            Message::Request(m) => MessageView::Request(m@),
        }
    }
}

impl MessageView {
    /// Every variable-length field is small enough for its length to be
    /// framed as a u64. Values built in executable code always satisfy this.
    pub open spec fn wf(self) -> bool {
        match self {
            MessageView::FrameworkId(m) => m.value.len() <= u64::MAX,
            MessageView::OfferId(m) => m.value.len() <= u64::MAX,
            MessageView::TaskId(m) => m.value.len() <= u64::MAX,
            MessageView::ExecutorId(m) => m.value.len() <= u64::MAX,
            MessageView::SlaveId(m) => m.value.len() <= u64::MAX,
            MessageView::FrameworkInfo(m) => m.name.len() <= u64::MAX && m.user.len()
                <= u64::MAX,
            MessageView::MasterInfo(m) => m.id.len() <= u64::MAX && m.address.len() <= u64::MAX,
            MessageView::Offer(m) => m.id.value.len() <= u64::MAX && m.framework_id.value.len()
                <= u64::MAX && m.slave_id.value.len() <= u64::MAX && m.hostname.len()
                <= u64::MAX,
            MessageView::TaskInfo(m) => m.name.len() <= u64::MAX && m.task_id.value.len()
                <= u64::MAX && m.slave_id.value.len() <= u64::MAX && m.data.len() <= u64::MAX,
            MessageView::TaskStatus(m) => m.task_id.value.len() <= u64::MAX && m.message.len()
                <= u64::MAX,
            MessageView::Filters(_) => true,
            MessageView::Request(m) => m.slave_id.value.len() <= u64::MAX,
        }
    }
}

} // verus!

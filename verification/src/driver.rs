//! The driver facade: lifecycle state machine and data-plane operations.
//!
//! The facade decides; the unverified embedding acts. Every native call the
//! facade decides to issue is appended to its outbox as a [`NativeRequest`]
//! holding the already-marshalled argument buffers; the embedding drains the
//! outbox with [`MesosSchedulerDriver::take_requests`], performs each call
//! against the native engine, and feeds outcomes back (`complete_init`,
//! `on_terminated`, `record_status`). An operation issued in the wrong
//! lifecycle state fails with [`AdapterError::Precondition`] and appends
//! nothing, so it can never reach the native side. Native status codes are
//! never interpreted: the embedding relays each one back verbatim, and the
//! facade only stores them.

use crate::errors::AdapterError;
use crate::marshal::{
    spec_encode, spec_encode_stream, task_messages, request_messages, encode_task_collection,
    encode_request_collection, to_native, ProtobufObj,
};
use crate::messages::{
    ExecutorId, Filters, FrameworkInfo, Message, MessageView, OfferId, Request, SlaveId, TaskId,
    TaskInfo,
};
use crate::registry::{Registry, Token};
use vstd::prelude::*;

verus! {

/// The lifecycle states of the facade.
#[derive(Clone, Copy, Debug, PartialEq, Eq, Structural)]
pub enum Lifecycle {
    Uninitialized,
    Initialized,
    Running,
    Stopped,
    Aborted,
    Destroyed,
}

/// The pair of opaque handles the native side allocates at initialization:
/// one identifying the native scheduler shim, one the native driver. Held as
/// plain machine words and never interpreted here.
#[derive(Clone, Copy, Debug, PartialEq, Eq, Structural)]
pub struct SchedulerPtrPair {
    pub scheduler: u64,
    pub driver: u64,
}

/// One native call the facade has decided to issue, with its arguments
/// already marshalled. The embedding performs these in outbox order.
#[derive(Clone, Debug, PartialEq, Eq)]
pub enum NativeRequest {
    /// Allocate the native handle pair, registering the callbacks under the
    /// given context token and handing over the serialized framework
    /// descriptor and the master address.
    Init { framework: ProtobufObj, master: Vec<u8>, token: Token },
    /// Start the native driver.
    Start,
    /// Block until the native driver terminates.
    Join,
    /// Request native shutdown. With `failover` the native side preserves
    /// task state for a later reconnection instead of orphaning tasks.
    Stop { failover: bool },
    /// Decline one offer.
    DeclineOffer { offer_id: ProtobufObj, filters: ProtobufObj },
    /// Launch tasks on one offer; `tasks` is the length-prefixed stream of
    /// the encoded task descriptors.
    LaunchTasks { offer_id: ProtobufObj, tasks: ProtobufObj, filters: ProtobufObj },
    /// Kill one task.
    KillTask { task_id: ProtobufObj },
    /// Revive offers previously filtered out.
    ReviveOffers,
    /// Request resources; `requests` is the length-prefixed stream of the
    /// encoded requests.
    RequestResources { requests: ProtobufObj },
    /// Send one framework message to an executor.
    SendFrameworkMessage { executor_id: ProtobufObj, slave_id: ProtobufObj, data: Vec<u8> },
    /// Release the native handle pair. Emitted exactly once per facade.
    Destroy { pair: SchedulerPtrPair },
}

/// The driver facade the embedder drives. It owns the framework descriptor
/// and the master address, tracks the lifecycle state, and holds the native
/// handle pair from successful initialization until teardown.
pub struct MesosSchedulerDriver {
    pub framework_info: FrameworkInfo,
    pub master: Vec<u8>,
    pub lifecycle: Lifecycle,
    pub native_ptr_pair: Option<SchedulerPtrPair>,
    pub token: Option<Token>,
    pub outbox: Vec<NativeRequest>,
    /// The native status code of each performed call, relayed back by the
    /// embedding verbatim, in performance order.
    pub native_statuses: Vec<i32>,
    /// The status the native join terminated with, once it has.
    pub termination_status: Option<i32>,
}

/// Both states agree on the descriptor, the master address, and the
/// relayed native statuses.
pub open spec fn same_identity(pre: MesosSchedulerDriver, post: MesosSchedulerDriver) -> bool {
    &&& post.framework_info == pre.framework_info
    &&& post.master == pre.master
    &&& post.native_statuses == pre.native_statuses
    &&& post.termination_status == pre.termination_status
}

/// Both states hold the same fields outside the outbox.
pub open spec fn same_but_outbox(pre: MesosSchedulerDriver, post: MesosSchedulerDriver) -> bool {
    &&& same_identity(pre, post)
    &&& post.lifecycle == pre.lifecycle
    &&& post.native_ptr_pair == pre.native_ptr_pair
    &&& post.token == pre.token
}

/// The step emitted exactly one new request and changed nothing else.
pub open spec fn emits_one(pre: MesosSchedulerDriver, post: MesosSchedulerDriver) -> bool {
    &&& same_but_outbox(pre, post)
    &&& post.outbox@.len() == pre.outbox@.len() + 1
    &&& post.outbox@.drop_last() == pre.outbox@
}

impl MesosSchedulerDriver {
    /// Data-plane operations are valid once initialized and until the
    /// facade is destroyed: exactly while the native handle pair is held.
    pub open spec fn ready(self) -> bool {
        &&& self.native_ptr_pair is Some
        &&& {
            ||| self.lifecycle is Initialized
            ||| self.lifecycle is Running
            ||| self.lifecycle is Stopped
            ||| self.lifecycle is Aborted
        }
    }

    fn is_ready(&self) -> (b: bool)
        ensures
            b == self.ready(),
    {
        self.native_ptr_pair.is_some() && match self.lifecycle {
            Lifecycle::Initialized => true,
            Lifecycle::Running => true,
            Lifecycle::Stopped => true,
            Lifecycle::Aborted => true,
            _ => false,
        }
    }

    /// A fresh facade: uninitialized, no native handles, nothing emitted.
    pub fn new(framework_info: FrameworkInfo, master: Vec<u8>) -> (r: Box<MesosSchedulerDriver>)
        ensures
            r.framework_info == framework_info,
            r.master == master,
            r.lifecycle is Uninitialized,
            r.native_ptr_pair is None,
            r.token is None,
            r.outbox@ == Seq::<NativeRequest>::empty(),
            r.native_statuses@ == Seq::<i32>::empty(),
            r.termination_status is None,
    {
        Box::new(
            MesosSchedulerDriver {
                framework_info,
                master,
                lifecycle: Lifecycle::Uninitialized,
                native_ptr_pair: None,
                token: None,
                outbox: Vec::new(),
                native_statuses: Vec::new(),
                termination_status: None,
            },
        )
    }

    /// Begin initialization: install `entry` as the active registry entry
    /// and emit the native init request, which carries the serialized
    /// framework descriptor, the master address, and the fresh context
    /// token. Valid exactly once, on an uninitialized facade.
    pub fn init<T>(&mut self, registry: &mut Registry<T>, entry: T) -> (r: Result<
        (),
        AdapterError,
    >)
        ensures
            r is Ok <==> old(self).lifecycle is Uninitialized && old(self).token is None,
            r is Err ==> {
                &&& r == Err::<(), AdapterError>(AdapterError::Precondition)
                &&& *final(self) == *old(self)
                &&& *final(registry) == *old(registry)
            },
            r is Ok ==> {
                &&& final(self).token matches Some(t)
                &&& final(registry).live(t)
                &&& final(registry).entry_of(t) == entry
                &&& !old(registry).live(t)
                &&& (forall|u: Token| u != t ==> final(registry).live(u) == old(registry).live(u))
                &&& (forall|u: Token|
                    u != t && old(registry).live(u) ==> final(registry).entry_of(u) == old(
                        registry,
                    ).entry_of(u))
                &&& final(self).outbox@.len() == old(self).outbox@.len() + 1
                &&& final(self).outbox@.drop_last() == old(self).outbox@
                &&& (final(self).outbox@.last() matches NativeRequest::Init {
                    framework,
                    master,
                    token,
                } && framework@ == spec_encode(
                    MessageView::FrameworkInfo(old(self).framework_info@),
                ) && master@ == old(self).master@ && token == t)
                &&& same_identity(*old(self), *final(self))
                &&& final(self).lifecycle == old(self).lifecycle
                &&& final(self).native_ptr_pair == old(self).native_ptr_pair
            },
    {
        let proceed = match self.lifecycle {
            Lifecycle::Uninitialized => self.token.is_none(),
            _ => false,
        };
        if !proceed {
            return Err(AdapterError::Precondition);
        }
        let t = registry.activate(entry);
        self.token = Some(t);
        let framework = to_native(&Message::FrameworkInfo(clone_framework_info(
            &self.framework_info,
        )));
        let master = clone_bytes(&self.master);
        self.outbox.push(NativeRequest::Init { framework, master, token: t });
        proof {
            assert(self.outbox@.drop_last() =~= old(self).outbox@);
        }
        Ok(())
    }

    /// Finish initialization with the outcome of the native init call: the
    /// status it returned and the handle pair it allocated. A zero status
    /// stores the pair and enters `Initialized`; a non-zero status is
    /// surfaced as `Init` and leaves the facade unusable but safe to drop,
    /// since no handles are held.
    pub fn complete_init(&mut self, status: i32, pair: SchedulerPtrPair) -> (r: Result<
        (),
        AdapterError,
    >)
        ensures
            r is Ok <==> old(self).lifecycle is Uninitialized && old(self).token is Some && old(
                self,
            ).native_ptr_pair is None && status == 0,
            r is Ok ==> {
                &&& final(self).lifecycle is Initialized
                &&& final(self).native_ptr_pair == Some(pair)
                &&& same_identity(*old(self), *final(self))
                &&& final(self).token == old(self).token
                &&& final(self).outbox == old(self).outbox
            },
            r is Err ==> *final(self) == *old(self),
            (old(self).lifecycle is Uninitialized && old(self).token is Some && old(
                self,
            ).native_ptr_pair is None && status != 0) ==> r == Err::<(), AdapterError>(
                (AdapterError::Init { status }),
            ),
            !(old(self).lifecycle is Uninitialized && old(self).token is Some && old(
                self,
            ).native_ptr_pair is None) ==> r == Err::<(), AdapterError>(
                AdapterError::Precondition,
            ),
    {
        let proceed = match self.lifecycle {
            Lifecycle::Uninitialized => self.token.is_some() && self.native_ptr_pair.is_none(),
            _ => false,
        };
        if !proceed {
            return Err(AdapterError::Precondition);
        }
        if status != 0 {
            return Err(AdapterError::Init { status });
        }
        self.lifecycle = Lifecycle::Initialized;
        self.native_ptr_pair = Some(pair);
        Ok(())
    }

    /// Enter `Running`: emit the native start request and the join request
    /// on which the embedding blocks until the native driver terminates.
    /// Valid exactly on an initialized facade.
    pub fn run(&mut self) -> (r: Result<(), AdapterError>)
        ensures
            r is Ok <==> old(self).lifecycle is Initialized && old(self).native_ptr_pair is Some,
            r is Err ==> r == Err::<(), AdapterError>(AdapterError::Precondition) && *final(self)
                == *old(self),
            r is Ok ==> {
                &&& final(self).outbox@ == old(self).outbox@ + seq![
                    NativeRequest::Start,
                    NativeRequest::Join,
                ]
                &&& final(self).lifecycle is Running
                &&& same_identity(*old(self), *final(self))
                &&& final(self).native_ptr_pair == old(self).native_ptr_pair
                &&& final(self).token == old(self).token
            },
    {
        let proceed = match self.lifecycle {
            Lifecycle::Initialized => self.native_ptr_pair.is_some(),
            _ => false,
        };
        if !proceed {
            return Err(AdapterError::Precondition);
        }
        self.lifecycle = Lifecycle::Running;
        self.outbox.push(NativeRequest::Start);
        self.outbox.push(NativeRequest::Join);
        proof {
            assert(self.outbox@ =~= old(self).outbox@ + seq![
                NativeRequest::Start,
                NativeRequest::Join,
            ]);
        }
        Ok(())
    }

    /// Record native termination, reported by the embedding when the join
    /// returns, keeping the numeric status verbatim. A running facade
    /// leaves `Running` for `Stopped` on a zero status and `Aborted`
    /// otherwise; a facade already `Stopped` by an explicit stop request
    /// stays `Stopped` and still keeps the status. In any other state
    /// nothing changes.
    pub fn on_terminated(&mut self, status: i32)
        ensures
            old(self).lifecycle is Running ==> final(self).lifecycle == (if status == 0 {
                Lifecycle::Stopped
            } else {
                Lifecycle::Aborted
            }),
            old(self).lifecycle is Stopped ==> final(self).lifecycle is Stopped,
            (old(self).lifecycle is Running || old(self).lifecycle is Stopped) ==> {
                &&& final(self).termination_status == Some(status)
                &&& final(self).framework_info == old(self).framework_info
                &&& final(self).master == old(self).master
                &&& final(self).native_statuses == old(self).native_statuses
                &&& final(self).native_ptr_pair == old(self).native_ptr_pair
                &&& final(self).token == old(self).token
                &&& final(self).outbox == old(self).outbox
            },
            !(old(self).lifecycle is Running || old(self).lifecycle is Stopped) ==> *final(self)
                == *old(self),
    {
        match self.lifecycle {
            Lifecycle::Running => {
                self.termination_status = Some(status);
                if status == 0 {
                    self.lifecycle = Lifecycle::Stopped;
                } else {
                    self.lifecycle = Lifecycle::Aborted;
                }
            },
            Lifecycle::Stopped => {
                self.termination_status = Some(status);
            },
            _ => {},
        }
    }

    /// Relay the native status code of one performed call back to the
    /// facade, verbatim and in performance order. The adapter classifies no
    /// status itself; interpretation is left to the embedder.
    pub fn record_status(&mut self, status: i32)
        ensures
            final(self).native_statuses@ == old(self).native_statuses@.push(status),
            final(self).framework_info == old(self).framework_info,
            final(self).master == old(self).master,
            final(self).termination_status == old(self).termination_status,
            final(self).lifecycle == old(self).lifecycle,
            final(self).native_ptr_pair == old(self).native_ptr_pair,
            final(self).token == old(self).token,
            final(self).outbox == old(self).outbox,
    {
        self.native_statuses.push(status);
    }

    /// Request native shutdown while running. With `failover` the native
    /// side preserves task state for a later reconnection.
    pub fn stop(&mut self, failover: bool) -> (r: Result<(), AdapterError>)
        ensures
            r is Ok <==> old(self).lifecycle is Running && old(self).native_ptr_pair is Some,
            r is Err ==> r == Err::<(), AdapterError>(AdapterError::Precondition) && *final(self)
                == *old(self),
            r is Ok ==> {
                &&& final(self).outbox@ == old(self).outbox@.push(
                    (NativeRequest::Stop { failover }),
                )
                &&& final(self).lifecycle is Stopped
                &&& same_identity(*old(self), *final(self))
                &&& final(self).native_ptr_pair == old(self).native_ptr_pair
                &&& final(self).token == old(self).token
            },
    {
        let proceed = match self.lifecycle {
            Lifecycle::Running => self.native_ptr_pair.is_some(),
            _ => false,
        };
        if !proceed {
            return Err(AdapterError::Precondition);
        }
        self.lifecycle = Lifecycle::Stopped;
        self.outbox.push(NativeRequest::Stop { failover });
        Ok(())
    }

    /// Decline one offer. Valid while ready; otherwise fails with
    /// `Precondition` and emits nothing, so the native side is never
    /// reached.
    pub fn decline_offer(&mut self, offer_id: &OfferId, filters: &Filters) -> (r: Result<
        (),
        AdapterError,
    >)
        ensures
            r is Ok <==> old(self).ready(),
            r is Err ==> r == Err::<(), AdapterError>(AdapterError::Precondition) && *final(self)
                == *old(self),
            r is Ok ==> emits_one(*old(self), *final(self)) && (final(self).outbox@.last()
                matches NativeRequest::DeclineOffer { offer_id: o, filters: f } && o@
                == spec_encode(MessageView::OfferId(offer_id@)) && f@ == spec_encode(
                MessageView::Filters(filters@),
            )),
    {
        if !self.is_ready() {
            return Err(AdapterError::Precondition);
        }
        let o = to_native(&Message::OfferId(OfferId { value: clone_bytes(&offer_id.value) }));
        let f = to_native(&Message::Filters(Filters { refuse_seconds: filters.refuse_seconds }));
        self.outbox.push(NativeRequest::DeclineOffer { offer_id: o, filters: f });
        proof {
            assert(self.outbox@.drop_last() =~= old(self).outbox@);
        }
        Ok(())
    }

    /// Launch tasks on one offer. The task descriptors cross the boundary
    /// as one flattened byte region in the length-prefixed collection
    /// framing.
    pub fn launch_tasks(
        &mut self,
        offer_id: &OfferId,
        tasks: &Vec<TaskInfo>,
        filters: &Filters,
    ) -> (r: Result<(), AdapterError>)
        ensures
            r is Ok <==> old(self).ready(),
            r is Err ==> r == Err::<(), AdapterError>(AdapterError::Precondition) && *final(self)
                == *old(self),
            r is Ok ==> emits_one(*old(self), *final(self)) && (final(self).outbox@.last()
                matches NativeRequest::LaunchTasks { offer_id: o, tasks: t, filters: f } && o@
                == spec_encode(MessageView::OfferId(offer_id@)) && t@ == spec_encode_stream(
                task_messages(tasks@),
            ) && f@ == spec_encode(MessageView::Filters(filters@))),
    {
        if !self.is_ready() {
            return Err(AdapterError::Precondition);
        }
        let o = to_native(&Message::OfferId(OfferId { value: clone_bytes(&offer_id.value) }));
        let t = ProtobufObj::from_vec(encode_task_collection(tasks));
        let f = to_native(&Message::Filters(Filters { refuse_seconds: filters.refuse_seconds }));
        self.outbox.push(NativeRequest::LaunchTasks { offer_id: o, tasks: t, filters: f });
        proof {
            assert(self.outbox@.drop_last() =~= old(self).outbox@);
        }
        Ok(())
    }

    /// Kill one task.
    pub fn kill_task(&mut self, task_id: &TaskId) -> (r: Result<(), AdapterError>)
        ensures
            r is Ok <==> old(self).ready(),
            r is Err ==> r == Err::<(), AdapterError>(AdapterError::Precondition) && *final(self)
                == *old(self),
            r is Ok ==> emits_one(*old(self), *final(self)) && (final(self).outbox@.last()
                matches NativeRequest::KillTask { task_id: t } && t@ == spec_encode(
                MessageView::TaskId(task_id@),
            )),
    {
        if !self.is_ready() {
            return Err(AdapterError::Precondition);
        }
        let t = to_native(&Message::TaskId(TaskId { value: clone_bytes(&task_id.value) }));
        self.outbox.push(NativeRequest::KillTask { task_id: t });
        proof {
            assert(self.outbox@.drop_last() =~= old(self).outbox@);
        }
        Ok(())
    }

    /// Revive offers previously filtered out.
    pub fn revive_offers(&mut self) -> (r: Result<(), AdapterError>)
        ensures
            r is Ok <==> old(self).ready(),
            r is Err ==> r == Err::<(), AdapterError>(AdapterError::Precondition) && *final(self)
                == *old(self),
            r is Ok ==> {
                &&& final(self).outbox@ == old(self).outbox@.push(NativeRequest::ReviveOffers)
                &&& same_but_outbox(*old(self), *final(self))
            },
    {
        if !self.is_ready() {
            return Err(AdapterError::Precondition);
        }
        self.outbox.push(NativeRequest::ReviveOffers);
        Ok(())
    }

    /// Request resources. The requests cross the boundary as one flattened
    /// byte region in the length-prefixed collection framing.
    pub fn request_resources(&mut self, requests: &Vec<Request>) -> (r: Result<(), AdapterError>)
        ensures
            r is Ok <==> old(self).ready(),
            r is Err ==> r == Err::<(), AdapterError>(AdapterError::Precondition) && *final(self)
                == *old(self),
            r is Ok ==> emits_one(*old(self), *final(self)) && (final(self).outbox@.last()
                matches NativeRequest::RequestResources { requests: q } && q@
                == spec_encode_stream(request_messages(requests@))),
    {
        if !self.is_ready() {
            return Err(AdapterError::Precondition);
        }
        let q = ProtobufObj::from_vec(encode_request_collection(requests));
        self.outbox.push(NativeRequest::RequestResources { requests: q });
        proof {
            assert(self.outbox@.drop_last() =~= old(self).outbox@);
        }
        Ok(())
    }

    /// Send one framework message to an executor on a slave.
    pub fn send_framework_message(
        &mut self,
        executor_id: &ExecutorId,
        slave_id: &SlaveId,
        data: &Vec<u8>,
    ) -> (r: Result<(), AdapterError>)
        ensures
            r is Ok <==> old(self).ready(),
            r is Err ==> r == Err::<(), AdapterError>(AdapterError::Precondition) && *final(self)
                == *old(self),
            r is Ok ==> emits_one(*old(self), *final(self)) && (final(self).outbox@.last()
                matches NativeRequest::SendFrameworkMessage { executor_id: e, slave_id: s, data: d }
                && e@ == spec_encode(MessageView::ExecutorId(executor_id@)) && s@ == spec_encode(
                MessageView::SlaveId(slave_id@),
            ) && d@ == data@),
    {
        if !self.is_ready() {
            return Err(AdapterError::Precondition);
        }
        let e = to_native(
            &Message::ExecutorId(ExecutorId { value: clone_bytes(&executor_id.value) }),
        );
        let s = to_native(&Message::SlaveId(SlaveId { value: clone_bytes(&slave_id.value) }));
        let d = clone_bytes(data);
        self.outbox.push(
            NativeRequest::SendFrameworkMessage { executor_id: e, slave_id: s, data: d },
        );
        proof {
            assert(self.outbox@.drop_last() =~= old(self).outbox@);
        }
        Ok(())
    }

    /// Tear down. The facade's registry entry is cleared whenever a token
    /// is held — also after a failed initialization, where no handles exist
    /// — so no stale token can resolve to a destroyed facade. The native
    /// destroy request is emitted exactly when the handle pair is held,
    /// hence exactly once per facade; the return value says whether it was.
    /// Further calls find nothing to clear and change nothing.
    pub fn destroy<T>(&mut self, registry: &mut Registry<T>) -> (r: bool)
        ensures
            r == (old(self).native_ptr_pair is Some),
            final(self).lifecycle is Destroyed,
            final(self).native_ptr_pair is None,
            final(self).token is None,
            same_identity(*old(self), *final(self)),
            r ==> final(self).outbox@ == old(self).outbox@.push(
                (NativeRequest::Destroy { pair: old(self).native_ptr_pair->Some_0 }),
            ),
            !r ==> final(self).outbox == old(self).outbox,
            old(self).token matches Some(t) ==> {
                &&& !final(registry).live(t)
                &&& (forall|u: Token| u != t ==> final(registry).live(u) == old(registry).live(u))
                &&& (forall|u: Token|
                    u != t && old(registry).live(u) ==> final(registry).entry_of(u) == old(
                        registry,
                    ).entry_of(u))
            },
            old(self).token is None ==> *final(registry) == *old(registry),
    {
        match self.token {
            Some(t) => {
                let _cleared = registry.deactivate(t);
            },
            None => {},
        }
        self.token = None;
        self.lifecycle = Lifecycle::Destroyed;
        match self.native_ptr_pair {
            Some(pair) => {
                self.native_ptr_pair = None;
                self.outbox.push(NativeRequest::Destroy { pair });
                true
            },
            None => false,
        }
    }

    /// Hand the embedding everything emitted so far, in order, leaving the
    /// outbox empty and the rest of the facade untouched.
    pub fn take_requests(&mut self) -> (r: Vec<NativeRequest>)
        ensures
            r == old(self).outbox,
            final(self).outbox@ == Seq::<NativeRequest>::empty(),
            same_but_outbox(*old(self), *final(self)),
    {
        let mut out: Vec<NativeRequest> = Vec::new();
        core::mem::swap(&mut out, &mut self.outbox);
        out
    }
}


/// Copy a byte buffer.
fn clone_bytes(v: &Vec<u8>) -> (r: Vec<u8>)
    ensures
        r@ == v@,
{
    vstd::slice::slice_to_vec(v.as_slice())
}

/// Copy a framework descriptor.
fn clone_framework_info(v: &FrameworkInfo) -> (r: FrameworkInfo)
    ensures
        r@ == v@,
{
    FrameworkInfo { name: clone_bytes(&v.name), user: clone_bytes(&v.user) }
}

} // verus!

//! Callback trampolines: one adapter per event type.
//!
//! The native side hands each adapter raw byte buffers and, for
//! collections, one buffer per element. An adapter deserializes every
//! payload, and only then invokes the matching policy method, passing the
//! driver facade so the policy can issue data-plane operations reentrantly.
//! A decode failure is fatal to that single callback invocation alone: the
//! adapter returns [`AdapterError::Decode`], the policy is not invoked, and
//! the driver facade is left untouched, so one malformed event is dropped
//! without corrupting anything. The native interface expects no return
//! value from a callback, so the embedding can only log the error.
//!
//! Before any of these run, the embedding resolves the context token the
//! native side echoed back through [`crate::registry::Registry::resolve`]
//! to recover the active policy and facade.

use crate::driver::MesosSchedulerDriver;
use crate::errors::AdapterError;
use crate::marshal::{from_native, spec_decode, ProtobufObj};
use crate::messages::{
    ExecutorId, FrameworkId, MasterInfo, Message, MessageView, Offer, OfferId, SlaveId,
    TaskStatus,
};
use crate::scheduler::Scheduler;
use vstd::prelude::*;

verus! {

/// Decode a buffer that must hold a framework id.
pub fn expect_framework_id(p: &ProtobufObj) -> (r: Result<FrameworkId, AdapterError>)
    ensures
        r is Ok <==> (spec_decode(p@) matches Some(m) && m is FrameworkId),
        r matches Ok(v) ==> spec_decode(p@) == Some(MessageView::FrameworkId(v@)),
        r is Err ==> r == Err::<FrameworkId, AdapterError>(AdapterError::Decode),
{
    match from_native(p) {
        Ok(Message::FrameworkId(v)) => Ok(v),
        Ok(_) => Err(AdapterError::Decode),
        Err(_) => Err(AdapterError::Decode),
    }
}

/// Decode a buffer that must hold a master description.
pub fn expect_master_info(p: &ProtobufObj) -> (r: Result<MasterInfo, AdapterError>)
    ensures
        r is Ok <==> (spec_decode(p@) matches Some(m) && m is MasterInfo),
        r matches Ok(v) ==> spec_decode(p@) == Some(MessageView::MasterInfo(v@)),
        r is Err ==> r == Err::<MasterInfo, AdapterError>(AdapterError::Decode),
{
    match from_native(p) {
        Ok(Message::MasterInfo(v)) => Ok(v),
        Ok(_) => Err(AdapterError::Decode),
        Err(_) => Err(AdapterError::Decode),
    }
}

/// Decode a buffer that must hold an offer.
pub fn expect_offer(p: &ProtobufObj) -> (r: Result<Offer, AdapterError>)
    ensures
        r is Ok <==> (spec_decode(p@) matches Some(m) && m is Offer),
        r matches Ok(v) ==> spec_decode(p@) == Some(MessageView::Offer(v@)),
        r is Err ==> r == Err::<Offer, AdapterError>(AdapterError::Decode),
{
    match from_native(p) {
        Ok(Message::Offer(v)) => Ok(v),
        Ok(_) => Err(AdapterError::Decode),
        Err(_) => Err(AdapterError::Decode),
    }
}

/// Decode a buffer that must hold a task status.
pub fn expect_task_status(p: &ProtobufObj) -> (r: Result<TaskStatus, AdapterError>)
    ensures
        r is Ok <==> (spec_decode(p@) matches Some(m) && m is TaskStatus),
        r matches Ok(v) ==> spec_decode(p@) == Some(MessageView::TaskStatus(v@)),
        r is Err ==> r == Err::<TaskStatus, AdapterError>(AdapterError::Decode),
{
    match from_native(p) {
        Ok(Message::TaskStatus(v)) => Ok(v),
        Ok(_) => Err(AdapterError::Decode),
        Err(_) => Err(AdapterError::Decode),
    }
}

/// Decode a buffer that must hold an offer id.
pub fn expect_offer_id(p: &ProtobufObj) -> (r: Result<OfferId, AdapterError>)
    ensures
        r is Ok <==> (spec_decode(p@) matches Some(m) && m is OfferId),
        r matches Ok(v) ==> spec_decode(p@) == Some(MessageView::OfferId(v@)),
        r is Err ==> r == Err::<OfferId, AdapterError>(AdapterError::Decode),
{
    match from_native(p) {
        Ok(Message::OfferId(v)) => Ok(v),
        Ok(_) => Err(AdapterError::Decode),
        Err(_) => Err(AdapterError::Decode),
    }
}

/// Decode a buffer that must hold an executor id.
pub fn expect_executor_id(p: &ProtobufObj) -> (r: Result<ExecutorId, AdapterError>)
    ensures
        r is Ok <==> (spec_decode(p@) matches Some(m) && m is ExecutorId),
        r matches Ok(v) ==> spec_decode(p@) == Some(MessageView::ExecutorId(v@)),
        r is Err ==> r == Err::<ExecutorId, AdapterError>(AdapterError::Decode),
{
    match from_native(p) {
        Ok(Message::ExecutorId(v)) => Ok(v),
        Ok(_) => Err(AdapterError::Decode),
        Err(_) => Err(AdapterError::Decode),
    }
}

/// Decode a buffer that must hold a slave id.
pub fn expect_slave_id(p: &ProtobufObj) -> (r: Result<SlaveId, AdapterError>)
    ensures
        r is Ok <==> (spec_decode(p@) matches Some(m) && m is SlaveId),
        r matches Ok(v) ==> spec_decode(p@) == Some(MessageView::SlaveId(v@)),
        r is Err ==> r == Err::<SlaveId, AdapterError>(AdapterError::Decode),
{
    match from_native(p) {
        Ok(Message::SlaveId(v)) => Ok(v),
        Ok(_) => Err(AdapterError::Decode),
        Err(_) => Err(AdapterError::Decode),
    }
}

/// Decode every buffer of an inbound offer collection, preserving order:
/// the `i`-th offer returned is decoded from the `i`-th buffer.
pub fn decode_offers(bufs: &Vec<ProtobufObj>) -> (r: Result<Vec<Offer>, AdapterError>)
    ensures
        r is Ok <==> (forall|i: int|
            0 <= i < bufs@.len() ==> ((#[trigger] spec_decode(bufs@[i]@)) matches Some(m)
                && m is Offer)),
        r matches Ok(v) ==> v@.len() == bufs@.len() && (forall|i: int|
            0 <= i < v@.len() ==> #[trigger] spec_decode(bufs@[i]@) == Some(
                MessageView::Offer(v@[i]@),
            )),
        r is Err ==> r == Err::<Vec<Offer>, AdapterError>(AdapterError::Decode),
{
    let mut out: Vec<Offer> = Vec::new();
    let mut i: usize = 0;
    while i < bufs.len()
        invariant
            i <= bufs.len(),
            out@.len() == i,
            forall|j: int|
                0 <= j < i as int ==> #[trigger] spec_decode(bufs@[j]@) == Some(
                    MessageView::Offer(out@[j]@),
                ),
        decreases bufs.len() - i,
    {
        match expect_offer(&bufs[i]) {
            Ok(o) => {
                out.push(o);
                i = i + 1;
            },
            Err(_) => {
                return Err(AdapterError::Decode);
            },
        }
    }
    Ok(out)
}

/// Registration event: decode the framework id and the master description,
/// then hand both to the policy.
pub fn trampoline_registered<S: Scheduler>(
    scheduler: &S,
    driver: &mut MesosSchedulerDriver,
    framework_id: &ProtobufObj,
    master_info: &ProtobufObj,
) -> (r: Result<(), AdapterError>)
    ensures
        r is Ok <==> (spec_decode(framework_id@) matches Some(m) && m is FrameworkId) && (
        spec_decode(master_info@) matches Some(m) && m is MasterInfo),
        r is Err ==> r == Err::<(), AdapterError>(AdapterError::Decode) && *final(driver) == *old(
            driver,
        ),
{
    let fid = match expect_framework_id(framework_id) {
        Ok(v) => v,
        Err(_) => {
            return Err(AdapterError::Decode);
        },
    };
    let mi = match expect_master_info(master_info) {
        Ok(v) => v,
        Err(_) => {
            return Err(AdapterError::Decode);
        },
    };
    scheduler.registered(driver, &fid, &mi);
    Ok(())
}

/// Re-registration event: decode the master description, then hand it to
/// the policy.
pub fn trampoline_reregistered<S: Scheduler>(
    scheduler: &S,
    driver: &mut MesosSchedulerDriver,
    master_info: &ProtobufObj,
) -> (r: Result<(), AdapterError>)
    ensures
        r is Ok <==> (spec_decode(master_info@) matches Some(m) && m is MasterInfo),
        r is Err ==> r == Err::<(), AdapterError>(AdapterError::Decode) && *final(driver) == *old(
            driver,
        ),
{
    let mi = match expect_master_info(master_info) {
        Ok(v) => v,
        Err(_) => {
            return Err(AdapterError::Decode);
        },
    };
    scheduler.reregistered(driver, &mi);
    Ok(())
}

/// Resource-offers event: decode every offer buffer, then hand the offers
/// to the policy in delivery order. One undecodable buffer drops the whole
/// event and the policy sees none of it.
pub fn trampoline_resource_offers<S: Scheduler>(
    scheduler: &S,
    driver: &mut MesosSchedulerDriver,
    offers: &Vec<ProtobufObj>,
) -> (r: Result<(), AdapterError>)
    ensures
        r is Ok <==> (forall|i: int|
            0 <= i < offers@.len() ==> ((#[trigger] spec_decode(offers@[i]@)) matches Some(m)
                && m is Offer)),
        r is Err ==> r == Err::<(), AdapterError>(AdapterError::Decode) && *final(driver) == *old(
            driver,
        ),
{
    let decoded = match decode_offers(offers) {
        Ok(v) => v,
        Err(_) => {
            return Err(AdapterError::Decode);
        },
    };
    scheduler.resource_offers(driver, decoded);
    Ok(())
}

/// Status-update event: decode the task status, then hand it to the
/// policy. A corrupted buffer drops the event: the policy is not invoked
/// and the driver is untouched.
pub fn trampoline_status_update<S: Scheduler>(
    scheduler: &S,
    driver: &mut MesosSchedulerDriver,
    task_status: &ProtobufObj,
) -> (r: Result<(), AdapterError>)
    ensures
        r is Ok <==> (spec_decode(task_status@) matches Some(m) && m is TaskStatus),
        r is Err ==> r == Err::<(), AdapterError>(AdapterError::Decode) && *final(driver) == *old(
            driver,
        ),
{
    let ts = match expect_task_status(task_status) {
        Ok(v) => v,
        Err(_) => {
            return Err(AdapterError::Decode);
        },
    };
    scheduler.status_update(driver, &ts);
    Ok(())
}

/// Disconnection event: no payload to decode; the policy is always invoked.
pub fn trampoline_disconnected<S: Scheduler>(scheduler: &S, driver: &mut MesosSchedulerDriver) {
    scheduler.disconnected(driver);
}

/// Offer-rescinded event: decode the offer id, then hand it to the policy.
pub fn trampoline_offer_rescinded<S: Scheduler>(
    scheduler: &S,
    driver: &mut MesosSchedulerDriver,
    offer_id: &ProtobufObj,
) -> (r: Result<(), AdapterError>)
    ensures
        r is Ok <==> (spec_decode(offer_id@) matches Some(m) && m is OfferId),
        r is Err ==> r == Err::<(), AdapterError>(AdapterError::Decode) && *final(driver) == *old(
            driver,
        ),
{
    let oid = match expect_offer_id(offer_id) {
        Ok(v) => v,
        Err(_) => {
            return Err(AdapterError::Decode);
        },
    };
    scheduler.offer_rescinded(driver, &oid);
    Ok(())
}

/// Framework-message event: decode the executor and slave ids; the message
/// body is passed through as plain bytes.
pub fn trampoline_framework_message<S: Scheduler>(
    scheduler: &S,
    driver: &mut MesosSchedulerDriver,
    executor_id: &ProtobufObj,
    slave_id: &ProtobufObj,
    data: &Vec<u8>,
) -> (r: Result<(), AdapterError>)
    ensures
        r is Ok <==> (spec_decode(executor_id@) matches Some(m) && m is ExecutorId) && (
        spec_decode(slave_id@) matches Some(m) && m is SlaveId),
        r is Err ==> r == Err::<(), AdapterError>(AdapterError::Decode) && *final(driver) == *old(
            driver,
        ),
{
    let eid = match expect_executor_id(executor_id) {
        Ok(v) => v,
        Err(_) => {
            return Err(AdapterError::Decode);
        },
    };
    let sid = match expect_slave_id(slave_id) {
        Ok(v) => v,
        Err(_) => {
            return Err(AdapterError::Decode);
        },
    };
    scheduler.framework_message(driver, &eid, &sid, data);
    Ok(())
}

/// Slave-lost event: decode the slave id, then hand it to the policy.
pub fn trampoline_slave_lost<S: Scheduler>(
    scheduler: &S,
    driver: &mut MesosSchedulerDriver,
    slave_id: &ProtobufObj,
) -> (r: Result<(), AdapterError>)
    ensures
        r is Ok <==> (spec_decode(slave_id@) matches Some(m) && m is SlaveId),
        r is Err ==> r == Err::<(), AdapterError>(AdapterError::Decode) && *final(driver) == *old(
            driver,
        ),
{
    let sid = match expect_slave_id(slave_id) {
        Ok(v) => v,
        Err(_) => {
            return Err(AdapterError::Decode);
        },
    };
    scheduler.slave_lost(driver, &sid);
    Ok(())
}

/// Executor-lost event: decode the executor and slave ids; the native exit
/// status is passed through unchanged.
pub fn trampoline_executor_lost<S: Scheduler>(
    scheduler: &S,
    driver: &mut MesosSchedulerDriver,
    executor_id: &ProtobufObj,
    slave_id: &ProtobufObj,
    status: i32,
) -> (r: Result<(), AdapterError>)
    ensures
        r is Ok <==> (spec_decode(executor_id@) matches Some(m) && m is ExecutorId) && (
        spec_decode(slave_id@) matches Some(m) && m is SlaveId),
        r is Err ==> r == Err::<(), AdapterError>(AdapterError::Decode) && *final(driver) == *old(
            driver,
        ),
{
    let eid = match expect_executor_id(executor_id) {
        Ok(v) => v,
        Err(_) => {
            return Err(AdapterError::Decode);
        },
    };
    let sid = match expect_slave_id(slave_id) {
        Ok(v) => v,
        Err(_) => {
            return Err(AdapterError::Decode);
        },
    };
    scheduler.executor_lost(driver, &eid, &sid, status);
    Ok(())
}

/// Error event: the message is plain text from the native side, passed
/// through as bytes; the policy is always invoked.
pub fn trampoline_error<S: Scheduler>(
    scheduler: &S,
    driver: &mut MesosSchedulerDriver,
    message: &Vec<u8>,
) {
    scheduler.error(driver, message);
}

} // verus!

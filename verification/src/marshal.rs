//! Marshalling of domain messages to and from native byte buffers.
//!
//! `to_native` serializes one message into an owned byte buffer; the native
//! side only ever sees a borrowed view of it, so the buffer outlives every
//! native call it is handed to. `from_native` is its inverse on buffers
//! received from the native side. Collections are framed as a flat stream of
//! length-prefixed records ([`encode_collection`], [`decode_collection`]),
//! since the native interface has no generic repeated-buffer parameter; the
//! framing is symmetric between encode and decode, and proved so.

use crate::codec::{
    append_record, lemma_read_record_of_record, lemma_read_record_shift, read_record_at,
    read_u64_at, spec_read_record, spec_read_u64, spec_record,
};
use crate::errors::AdapterError;
use crate::messages::{
    spec_state_code, spec_state_from_code, state_code, state_from_code, ExecutorId,
    ExecutorIdView, Filters, FiltersView, FrameworkId, FrameworkIdView, FrameworkInfo,
    FrameworkInfoView, MasterInfo, MasterInfoView, Message, MessageView, Offer, OfferId,
    OfferIdView, OfferView, Request, RequestView, SlaveId, SlaveIdView, TaskId, TaskIdView,
    TaskInfo, TaskInfoView, TaskState, TaskStatus, TaskStatusView,
};
use vstd::bytes::{lemma_auto_spec_u64_to_from_le_bytes, spec_u64_to_le_bytes, u64_to_le_bytes};
use vstd::prelude::*;

verus! {

pub const TAG_FRAMEWORK_ID: u8 = 1;

pub const TAG_OFFER_ID: u8 = 2;

pub const TAG_TASK_ID: u8 = 3;

pub const TAG_EXECUTOR_ID: u8 = 4;

pub const TAG_SLAVE_ID: u8 = 5;

pub const TAG_FRAMEWORK_INFO: u8 = 6;

pub const TAG_MASTER_INFO: u8 = 7;

pub const TAG_OFFER: u8 = 8;

pub const TAG_TASK_INFO: u8 = 9;

pub const TAG_TASK_STATUS: u8 = 10;

pub const TAG_FILTERS: u8 = 11;

pub const TAG_REQUEST: u8 = 12;

/// The byte encoding of a message: a tag byte naming the variant, then each
/// field in declaration order, variable-length fields framed as records.
pub open spec fn spec_encode(m: MessageView) -> Seq<u8> {
    match m {
        MessageView::FrameworkId(v) => seq![TAG_FRAMEWORK_ID] + spec_record(v.value),
        MessageView::OfferId(v) => seq![TAG_OFFER_ID] + spec_record(v.value),
        MessageView::TaskId(v) => seq![TAG_TASK_ID] + spec_record(v.value),
        MessageView::ExecutorId(v) => seq![TAG_EXECUTOR_ID] + spec_record(v.value),
        MessageView::SlaveId(v) => seq![TAG_SLAVE_ID] + spec_record(v.value),
        MessageView::FrameworkInfo(v) => seq![TAG_FRAMEWORK_INFO] + spec_record(v.name)
            + spec_record(v.user),
        MessageView::MasterInfo(v) => seq![TAG_MASTER_INFO] + spec_record(v.id) + spec_record(
            v.address,
        ),
        MessageView::Offer(v) => seq![TAG_OFFER] + spec_record(v.id.value) + spec_record(
            v.framework_id.value,
        ) + spec_record(v.slave_id.value) + spec_record(v.hostname),
        MessageView::TaskInfo(v) => seq![TAG_TASK_INFO] + spec_record(v.name) + spec_record(
            v.task_id.value,
        ) + spec_record(v.slave_id.value) + spec_record(v.data),
        MessageView::TaskStatus(v) => seq![TAG_TASK_STATUS] + spec_record(v.task_id.value)
            + seq![spec_state_code(v.state)] + spec_record(v.message),
        MessageView::Filters(v) => seq![TAG_FILTERS] + spec_u64_to_le_bytes(v.refuse_seconds),
        MessageView::Request(v) => seq![TAG_REQUEST] + spec_record(v.slave_id.value),
    }
}

/// Decode a message body that consists of one record after the tag.
pub open spec fn spec_dec_value(b: Seq<u8>) -> Option<Seq<u8>> {
    match spec_read_record(b, 1) {
        Some((v, i)) => {
            if i == b.len() {
                Some(v)
            } else {
                None
            }
        },
        None => None,
    }
}

/// Decode a message body that consists of two records after the tag.
pub open spec fn spec_dec_two(b: Seq<u8>) -> Option<(Seq<u8>, Seq<u8>)> {
    match spec_read_record(b, 1) {
        Some((v1, i)) => match spec_read_record(b, i) {
            Some((v2, j)) => {
                if j == b.len() {
                    Some((v1, v2))
                } else {
                    None
                }
            },
            None => None,
        },
        None => None,
    }
}

/// Decode a message body that consists of four records after the tag.
pub open spec fn spec_dec_four(b: Seq<u8>) -> Option<(Seq<u8>, Seq<u8>, Seq<u8>, Seq<u8>)> {
    match spec_read_record(b, 1) {
        Some((v1, i)) => match spec_read_record(b, i) {
            Some((v2, j)) => match spec_read_record(b, j) {
                Some((v3, k)) => match spec_read_record(b, k) {
                    Some((v4, l)) => {
                        if l == b.len() {
                            Some((v1, v2, v3, v4))
                        } else {
                            None
                        }
                    },
                    None => None,
                },
                None => None,
            },
            None => None,
        },
        None => None,
    }
}

/// Decode a status body: a record, one task-state byte, and a record.
pub open spec fn spec_dec_status(b: Seq<u8>) -> Option<(Seq<u8>, TaskState, Seq<u8>)> {
    match spec_read_record(b, 1) {
        Some((tid, i)) => {
            if i < b.len() {
                match spec_state_from_code(b[i]) {
                    Some(st) => match spec_read_record(b, i + 1) {
                        Some((msg, j)) => {
                            if j == b.len() {
                                Some((tid, st, msg))
                            } else {
                                None
                            }
                        },
                        None => None,
                    },
                    None => None,
                }
            } else {
                None
            }
        },
        None => None,
    }
}

/// Decode a message body that consists of one u64 field after the tag.
pub open spec fn spec_dec_u64(b: Seq<u8>) -> Option<u64> {
    match spec_read_u64(b, 1) {
        Some((x, i)) => {
            if i == b.len() {
                Some(x)
            } else {
                None
            }
        },
        None => None,
    }
}

/// The message a byte buffer encodes, or `None` where the buffer is not a
/// complete, exact encoding of any message.
pub open spec fn spec_decode(b: Seq<u8>) -> Option<MessageView> {
    if b.len() < 1 {
        None
    } else {
        let tag = b[0];
        if tag == TAG_FRAMEWORK_ID {
            match spec_dec_value(b) {
                Some(value) => Some(MessageView::FrameworkId(FrameworkIdView { value })),
                None => None,
            }
        } else if tag == TAG_OFFER_ID {
            match spec_dec_value(b) {
                Some(value) => Some(MessageView::OfferId(OfferIdView { value })),
                None => None,
            }
        } else if tag == TAG_TASK_ID {
            match spec_dec_value(b) {
                Some(value) => Some(MessageView::TaskId(TaskIdView { value })),
                None => None,
            }
        } else if tag == TAG_EXECUTOR_ID {
            match spec_dec_value(b) {
                Some(value) => Some(MessageView::ExecutorId(ExecutorIdView { value })),
                None => None,
            }
        } else if tag == TAG_SLAVE_ID {
            match spec_dec_value(b) {
                Some(value) => Some(MessageView::SlaveId(SlaveIdView { value })),
                None => None,
            }
        } else if tag == TAG_FRAMEWORK_INFO {
            match spec_dec_two(b) {
                Some((name, user)) => Some(
                    MessageView::FrameworkInfo(FrameworkInfoView { name, user }),
                ),
                None => None,
            }
        } else if tag == TAG_MASTER_INFO {
            match spec_dec_two(b) {
                Some((id, address)) => Some(MessageView::MasterInfo(MasterInfoView { id, address })),
                None => None,
            }
        } else if tag == TAG_OFFER {
            match spec_dec_four(b) {
                Some((id, framework_id, slave_id, hostname)) => Some(
                    MessageView::Offer(
                        OfferView {
                            id: OfferIdView { value: id },
                            framework_id: FrameworkIdView { value: framework_id },
                            slave_id: SlaveIdView { value: slave_id },
                            hostname,
                        },
                    ),
                ),
                None => None,
            }
        } else if tag == TAG_TASK_INFO {
            match spec_dec_four(b) {
                Some((name, task_id, slave_id, data)) => Some(
                    MessageView::TaskInfo(
                        TaskInfoView {
                            name,
                            task_id: TaskIdView { value: task_id },
                            slave_id: SlaveIdView { value: slave_id },
                            data,
                        },
                    ),
                ),
                None => None,
            }
        } else if tag == TAG_TASK_STATUS {
            match spec_dec_status(b) {
                Some((task_id, state, message)) => Some(
                    MessageView::TaskStatus(
                        TaskStatusView { task_id: TaskIdView { value: task_id }, state, message },
                    ),
                ),
                None => None,
            }
        } else if tag == TAG_FILTERS {
            match spec_dec_u64(b) {
                Some(refuse_seconds) => Some(MessageView::Filters(FiltersView { refuse_seconds })),
                None => None,
            }
        } else if tag == TAG_REQUEST {
            match spec_dec_value(b) {
                Some(value) => Some(
                    MessageView::Request(RequestView { slave_id: SlaveIdView { value } }),
                ),
                None => None,
            }
        } else {
            None
        }
    }
}

/// An owned byte buffer holding one serialized message. The native side is
/// only ever handed a borrowed view of the bytes, so the owning storage
/// outlives every native call that reads it.
#[derive(Clone, Debug, PartialEq, Eq)]
pub struct ProtobufObj {
    pub data: Vec<u8>,
}

impl View for ProtobufObj {
    type V = Seq<u8>;

    open spec fn view(&self) -> Seq<u8> {
        self.data@
    }
}

impl ProtobufObj {
    /// Serialize a message into a fresh buffer.
    pub fn from_message(m: &Message) -> (r: ProtobufObj)
        ensures
            r@ == spec_encode(m@),
    {
        to_native(m)
    }

    /// Wrap already-serialized bytes.
    pub fn from_vec(data: Vec<u8>) -> (r: ProtobufObj)
        ensures
            r@ == data@,
    {
        ProtobufObj { data }
    }

    /// The serialized bytes.
    pub fn to_bytes(&self) -> (r: &Vec<u8>)
        ensures
            r@ == self@,
    {
        &self.data
    }

    /// The number of serialized bytes.
    pub fn size(&self) -> (n: usize)
        ensures
            n == self@.len(),
    {
        self.data.len()
    }
}

/// Serialize one message. The buffer's bytes are exactly the encoding of the
/// message, so the caller may hand the native side a view of them.
pub fn to_native(m: &Message) -> (r: ProtobufObj)
    ensures
        r@ == spec_encode(m@),
{
    let mut data: Vec<u8> = Vec::new();
    match m {
        Message::FrameworkId(v) => {
            data.push(TAG_FRAMEWORK_ID);
            append_record(&mut data, &v.value);
            proof {
                assert(Seq::<u8>::empty().push(TAG_FRAMEWORK_ID) =~= seq![TAG_FRAMEWORK_ID]);
            }
        },
        Message::OfferId(v) => {
            data.push(TAG_OFFER_ID);
            append_record(&mut data, &v.value);
            proof {
                assert(Seq::<u8>::empty().push(TAG_OFFER_ID) =~= seq![TAG_OFFER_ID]);
            }
        },
        Message::TaskId(v) => {
            data.push(TAG_TASK_ID);
            append_record(&mut data, &v.value);
            proof {
                assert(Seq::<u8>::empty().push(TAG_TASK_ID) =~= seq![TAG_TASK_ID]);
            }
        },
        Message::ExecutorId(v) => {
            data.push(TAG_EXECUTOR_ID);
            append_record(&mut data, &v.value);
            proof {
                assert(Seq::<u8>::empty().push(TAG_EXECUTOR_ID) =~= seq![TAG_EXECUTOR_ID]);
            }
        },
        Message::SlaveId(v) => {
            data.push(TAG_SLAVE_ID);
            append_record(&mut data, &v.value);
            proof {
                assert(Seq::<u8>::empty().push(TAG_SLAVE_ID) =~= seq![TAG_SLAVE_ID]);
            }
        },
        Message::FrameworkInfo(v) => {
            data.push(TAG_FRAMEWORK_INFO);
            append_record(&mut data, &v.name);
            append_record(&mut data, &v.user);
            proof {
                assert(Seq::<u8>::empty().push(TAG_FRAMEWORK_INFO) =~= seq![TAG_FRAMEWORK_INFO]);
            }
        },
        Message::MasterInfo(v) => {
            data.push(TAG_MASTER_INFO);
            append_record(&mut data, &v.id);
            append_record(&mut data, &v.address);
            proof {
                assert(Seq::<u8>::empty().push(TAG_MASTER_INFO) =~= seq![TAG_MASTER_INFO]);
            }
        },
        Message::Offer(v) => {
            data.push(TAG_OFFER);
            append_record(&mut data, &v.id.value);
            append_record(&mut data, &v.framework_id.value);
            append_record(&mut data, &v.slave_id.value);
            append_record(&mut data, &v.hostname);
            proof {
                assert(Seq::<u8>::empty().push(TAG_OFFER) =~= seq![TAG_OFFER]);
            }
        },
        Message::TaskInfo(v) => {
            data.push(TAG_TASK_INFO);
            append_record(&mut data, &v.name);
            append_record(&mut data, &v.task_id.value);
            append_record(&mut data, &v.slave_id.value);
            append_record(&mut data, &v.data);
            proof {
                assert(Seq::<u8>::empty().push(TAG_TASK_INFO) =~= seq![TAG_TASK_INFO]);
            }
        },
        Message::TaskStatus(v) => {
            data.push(TAG_TASK_STATUS);
            append_record(&mut data, &v.task_id.value);
            data.push(state_code(v.state));
            append_record(&mut data, &v.message);
            proof {
                assert(seq![TAG_TASK_STATUS] + spec_record(v.task_id@.value) + seq![
                    spec_state_code(v@.state),
                ] =~= (Seq::<u8>::empty().push(TAG_TASK_STATUS) + spec_record(
                    v.task_id@.value,
                )).push(spec_state_code(v@.state)));
            }
        },
        Message::Filters(v) => {
            data.push(TAG_FILTERS);
            let mut field = u64_to_le_bytes(v.refuse_seconds);
            data.append(&mut field);
            proof {
                assert(Seq::<u8>::empty().push(TAG_FILTERS) =~= seq![TAG_FILTERS]);
            }
        },
        Message::Request(v) => {
            data.push(TAG_REQUEST);
            append_record(&mut data, &v.slave_id.value);
            proof {
                assert(Seq::<u8>::empty().push(TAG_REQUEST) =~= seq![TAG_REQUEST]);
            }
        },
    }
    ProtobufObj { data }
}

/// Read the one-record body of a message.
fn dec_value(b: &Vec<u8>) -> (r: Result<Vec<u8>, AdapterError>)
    ensures
        r is Ok <==> spec_dec_value(b@) is Some,
        r is Err ==> r == Err::<Vec<u8>, AdapterError>(AdapterError::Decode),
        r matches Ok(v) ==> spec_dec_value(b@)->Some_0 == v@,
{
    match read_record_at(b, 1) {
        Some((v, i)) => {
            if i == b.len() {
                Ok(v)
            } else {
                Err(AdapterError::Decode)
            }
        },
        None => Err(AdapterError::Decode),
    }
}

/// Read the two-record body of a message.
fn dec_two(b: &Vec<u8>) -> (r: Result<(Vec<u8>, Vec<u8>), AdapterError>)
    ensures
        r is Ok <==> spec_dec_two(b@) is Some,
        r is Err ==> r == Err::<(Vec<u8>, Vec<u8>), AdapterError>(AdapterError::Decode),
        r matches Ok((v1, v2)) ==> spec_dec_two(b@)->Some_0.0 == v1@ && spec_dec_two(
            b@,
        )->Some_0.1 == v2@,
{
    match read_record_at(b, 1) {
        Some((v1, i)) => match read_record_at(b, i) {
            Some((v2, j)) => {
                if j == b.len() {
                    Ok((v1, v2))
                } else {
                    Err(AdapterError::Decode)
                }
            },
            None => Err(AdapterError::Decode),
        },
        None => Err(AdapterError::Decode),
    }
}

/// Read the four-record body of a message.
fn dec_four(b: &Vec<u8>) -> (r: Result<(Vec<u8>, Vec<u8>, Vec<u8>, Vec<u8>), AdapterError>)
    ensures
        r is Ok <==> spec_dec_four(b@) is Some,
        r is Err ==> r == Err::<(Vec<u8>, Vec<u8>, Vec<u8>, Vec<u8>), AdapterError>(AdapterError::Decode),
        r matches Ok((v1, v2, v3, v4)) ==> {
            &&& spec_dec_four(b@)->Some_0.0 == v1@
            &&& spec_dec_four(b@)->Some_0.1 == v2@
            &&& spec_dec_four(b@)->Some_0.2 == v3@
            &&& spec_dec_four(b@)->Some_0.3 == v4@
        },
{
    match read_record_at(b, 1) {
        Some((v1, i)) => match read_record_at(b, i) {
            Some((v2, j)) => match read_record_at(b, j) {
                Some((v3, k)) => match read_record_at(b, k) {
                    Some((v4, l)) => {
                        if l == b.len() {
                            Ok((v1, v2, v3, v4))
                        } else {
                            Err(AdapterError::Decode)
                        }
                    },
                    None => Err(AdapterError::Decode),
                },
                None => Err(AdapterError::Decode),
            },
            None => Err(AdapterError::Decode),
        },
        None => Err(AdapterError::Decode),
    }
}

/// Read the body of a status update: a record, a state byte, and a record.
fn dec_status(b: &Vec<u8>) -> (r: Result<(Vec<u8>, TaskState, Vec<u8>), AdapterError>)
    ensures
        r is Ok <==> spec_dec_status(b@) is Some,
        r is Err ==> r == Err::<(Vec<u8>, TaskState, Vec<u8>), AdapterError>(AdapterError::Decode),
        r matches Ok((tid, st, msg)) ==> {
            &&& spec_dec_status(b@)->Some_0.0 == tid@
            &&& spec_dec_status(b@)->Some_0.1 == st
            &&& spec_dec_status(b@)->Some_0.2 == msg@
        },
{
    match read_record_at(b, 1) {
        Some((tid, i)) => {
            if i < b.len() {
                match state_from_code(b[i]) {
                    Some(st) => match read_record_at(b, i + 1) {
                        Some((msg, j)) => {
                            if j == b.len() {
                                Ok((tid, st, msg))
                            } else {
                                Err(AdapterError::Decode)
                            }
                        },
                        None => Err(AdapterError::Decode),
                    },
                    None => Err(AdapterError::Decode),
                }
            } else {
                Err(AdapterError::Decode)
            }
        },
        None => Err(AdapterError::Decode),
    }
}

/// Read the one-u64 body of a message.
fn dec_u64(b: &Vec<u8>) -> (r: Result<u64, AdapterError>)
    ensures
        r is Ok <==> spec_dec_u64(b@) is Some,
        r is Err ==> r == Err::<u64, AdapterError>(AdapterError::Decode),
        r matches Ok(x) ==> spec_dec_u64(b@) == Some(x),
{
    match read_u64_at(b, 1) {
        Some((x, i)) => {
            if i == b.len() {
                Ok(x)
            } else {
                Err(AdapterError::Decode)
            }
        },
        None => Err(AdapterError::Decode),
    }
}

/// Deserialize a buffer received from the native side. Succeeds exactly on
/// the buffers that are a complete encoding of some message, and then
/// returns that message.
pub fn from_native(p: &ProtobufObj) -> (r: Result<Message, AdapterError>)
    ensures
        r is Ok <==> spec_decode(p@) is Some,
        r matches Ok(m) ==> spec_decode(p@) == Some(m@),
        r is Err ==> r == Err::<Message, AdapterError>(AdapterError::Decode),
{
    decode_message(&p.data)
}

/// Deserialize one message from raw bytes.
pub fn decode_message(b: &Vec<u8>) -> (r: Result<Message, AdapterError>)
    ensures
        r is Ok <==> spec_decode(b@) is Some,
        r matches Ok(m) ==> spec_decode(b@) == Some(m@),
        r is Err ==> r == Err::<Message, AdapterError>(AdapterError::Decode),
{
    if b.len() < 1 {
        return Err(AdapterError::Decode);
    }
    let tag = b[0];
    if tag == TAG_FRAMEWORK_ID {
        match dec_value(b) {
            Ok(value) => Ok(Message::FrameworkId(FrameworkId { value })),
            Err(e) => Err(e),
        }
    } else if tag == TAG_OFFER_ID {
        match dec_value(b) {
            Ok(value) => Ok(Message::OfferId(OfferId { value })),
            Err(e) => Err(e),
        }
    } else if tag == TAG_TASK_ID {
        match dec_value(b) {
            Ok(value) => Ok(Message::TaskId(TaskId { value })),
            Err(e) => Err(e),
        }
    } else if tag == TAG_EXECUTOR_ID {
        match dec_value(b) {
            Ok(value) => Ok(Message::ExecutorId(ExecutorId { value })),
            Err(e) => Err(e),
        }
    } else if tag == TAG_SLAVE_ID {
        match dec_value(b) {
            Ok(value) => Ok(Message::SlaveId(SlaveId { value })),
            Err(e) => Err(e),
        }
    } else if tag == TAG_FRAMEWORK_INFO {
        match dec_two(b) {
            Ok((name, user)) => Ok(Message::FrameworkInfo(FrameworkInfo { name, user })),
            Err(e) => Err(e),
        }
    } else if tag == TAG_MASTER_INFO {
        match dec_two(b) {
            Ok((id, address)) => Ok(Message::MasterInfo(MasterInfo { id, address })),
            Err(e) => Err(e),
        }
    } else if tag == TAG_OFFER {
        match dec_four(b) {
            Ok((id, framework_id, slave_id, hostname)) => Ok(
                Message::Offer(
                    Offer {
                        id: OfferId { value: id },
                        framework_id: FrameworkId { value: framework_id },
                        slave_id: SlaveId { value: slave_id },
                        hostname,
                    },
                ),
            ),
            Err(e) => Err(e),
        }
    } else if tag == TAG_TASK_INFO {
        match dec_four(b) {
            Ok((name, task_id, slave_id, data)) => Ok(
                Message::TaskInfo(
                    TaskInfo {
                        name,
                        task_id: TaskId { value: task_id },
                        slave_id: SlaveId { value: slave_id },
                        data,
                    },
                ),
            ),
            Err(e) => Err(e),
        }
    } else if tag == TAG_TASK_STATUS {
        match dec_status(b) {
            Ok((task_id, state, message)) => Ok(
                Message::TaskStatus(
                    TaskStatus { task_id: TaskId { value: task_id }, state, message },
                ),
            ),
            Err(e) => Err(e),
        }
    } else if tag == TAG_FILTERS {
        match dec_u64(b) {
            Ok(refuse_seconds) => Ok(Message::Filters(Filters { refuse_seconds })),
            Err(e) => Err(e),
        }
    } else if tag == TAG_REQUEST {
        match dec_value(b) {
            Ok(value) => Ok(Message::Request(Request { slave_id: SlaveId { value } })),
            Err(e) => Err(e),
        }
    } else {
        Err(AdapterError::Decode)
    }
}

/// Decoding the one-record body of an encoded message recovers the field.
proof fn lemma_dec_value_encoded(tag: u8, v: Seq<u8>)
    requires
        v.len() <= u64::MAX,
    ensures
        (seq![tag] + spec_record(v)).len() == 9 + v.len(),
        (seq![tag] + spec_record(v))[0] == tag,
        spec_dec_value(seq![tag] + spec_record(v)) is Some,
        spec_dec_value(seq![tag] + spec_record(v))->Some_0 == v,
{
    lemma_auto_spec_u64_to_from_le_bytes();
    let b = seq![tag] + spec_record(v);
    lemma_read_record_of_record(seq![tag], v, Seq::empty());
    assert(seq![tag] + spec_record(v) + Seq::<u8>::empty() =~= b);
}

/// Decoding the two-record body of an encoded message recovers both fields.
proof fn lemma_dec_two_encoded(tag: u8, v1: Seq<u8>, v2: Seq<u8>)
    requires
        v1.len() <= u64::MAX,
        v2.len() <= u64::MAX,
    ensures
        (seq![tag] + spec_record(v1) + spec_record(v2)).len() == 17 + v1.len() + v2.len(),
        (seq![tag] + spec_record(v1) + spec_record(v2))[0] == tag,
        spec_dec_two(seq![tag] + spec_record(v1) + spec_record(v2)) is Some,
        spec_dec_two(seq![tag] + spec_record(v1) + spec_record(v2))->Some_0.0 == v1,
        spec_dec_two(seq![tag] + spec_record(v1) + spec_record(v2))->Some_0.1 == v2,
{
    lemma_auto_spec_u64_to_from_le_bytes();
    let b = seq![tag] + spec_record(v1) + spec_record(v2);
    lemma_read_record_of_record(seq![tag], v1, spec_record(v2));
    lemma_read_record_of_record(seq![tag] + spec_record(v1), v2, Seq::empty());
    assert(seq![tag] + spec_record(v1) + spec_record(v2) + Seq::<u8>::empty() =~= b);
}

/// Decoding the four-record body of an encoded message recovers all fields.
proof fn lemma_dec_four_encoded(tag: u8, v1: Seq<u8>, v2: Seq<u8>, v3: Seq<u8>, v4: Seq<u8>)
    requires
        v1.len() <= u64::MAX,
        v2.len() <= u64::MAX,
        v3.len() <= u64::MAX,
        v4.len() <= u64::MAX,
    ensures
        ({
            let b = seq![tag] + spec_record(v1) + spec_record(v2) + spec_record(v3)
                + spec_record(v4);
            &&& b.len() == 33 + v1.len() + v2.len() + v3.len() + v4.len()
            &&& b[0] == tag
            &&& spec_dec_four(b) is Some
            &&& spec_dec_four(b)->Some_0.0 == v1
            &&& spec_dec_four(b)->Some_0.1 == v2
            &&& spec_dec_four(b)->Some_0.2 == v3
            &&& spec_dec_four(b)->Some_0.3 == v4
        }),
{
    lemma_auto_spec_u64_to_from_le_bytes();
    let b = seq![tag] + spec_record(v1) + spec_record(v2) + spec_record(v3) + spec_record(v4);
    lemma_read_record_of_record(seq![tag], v1, spec_record(v2) + spec_record(v3) + spec_record(v4));
    assert(seq![tag] + spec_record(v1) + (spec_record(v2) + spec_record(v3) + spec_record(v4))
        =~= b);
    lemma_read_record_of_record(
        seq![tag] + spec_record(v1),
        v2,
        spec_record(v3) + spec_record(v4),
    );
    assert(seq![tag] + spec_record(v1) + spec_record(v2) + (spec_record(v3) + spec_record(v4))
        =~= b);
    lemma_read_record_of_record(
        seq![tag] + spec_record(v1) + spec_record(v2),
        v3,
        spec_record(v4),
    );
    lemma_read_record_of_record(
        seq![tag] + spec_record(v1) + spec_record(v2) + spec_record(v3),
        v4,
        Seq::empty(),
    );
    assert(seq![tag] + spec_record(v1) + spec_record(v2) + spec_record(v3) + spec_record(v4)
        + Seq::<u8>::empty() =~= b);
}

/// Decoding the body of an encoded status update recovers its fields.
proof fn lemma_dec_status_encoded(tag: u8, tid: Seq<u8>, st: TaskState, msg: Seq<u8>)
    requires
        tid.len() <= u64::MAX,
        msg.len() <= u64::MAX,
    ensures
        ({
            let b = seq![tag] + spec_record(tid) + seq![spec_state_code(st)] + spec_record(msg);
            &&& b.len() == 18 + tid.len() + msg.len()
            &&& b[0] == tag
            &&& spec_dec_status(b) is Some
            &&& spec_dec_status(b)->Some_0.0 == tid
            &&& spec_dec_status(b)->Some_0.1 == st
            &&& spec_dec_status(b)->Some_0.2 == msg
        }),
{
    lemma_auto_spec_u64_to_from_le_bytes();
    let code = spec_state_code(st);
    let b = seq![tag] + spec_record(tid) + seq![code] + spec_record(msg);
    lemma_read_record_of_record(seq![tag], tid, seq![code] + spec_record(msg));
    assert(seq![tag] + spec_record(tid) + (seq![code] + spec_record(msg)) =~= b);
    let i = 9 + tid.len() as int;
    assert(b[i] == code);
    crate::messages::lemma_state_code_round_trip(st);
    lemma_read_record_of_record(seq![tag] + spec_record(tid) + seq![code], msg, Seq::empty());
    assert(seq![tag] + spec_record(tid) + seq![code] + spec_record(msg) + Seq::<u8>::empty()
        =~= b);
}

/// Decoding the one-u64 body of an encoded message recovers the field.
proof fn lemma_dec_u64_encoded(tag: u8, x: u64)
    ensures
        (seq![tag] + spec_u64_to_le_bytes(x)).len() == 9,
        (seq![tag] + spec_u64_to_le_bytes(x))[0] == tag,
        spec_dec_u64(seq![tag] + spec_u64_to_le_bytes(x)) == Some(x),
{
    lemma_auto_spec_u64_to_from_le_bytes();
    let b = seq![tag] + spec_u64_to_le_bytes(x);
    assert(b.subrange(1, 9) =~= spec_u64_to_le_bytes(x));
}

/// Round-trip law for single messages: decoding the encoding of any message
/// gives back exactly that message. Values built in executable code always
/// satisfy `wf`.
pub proof fn lemma_message_round_trip(m: MessageView)
    requires
        m.wf(),
    ensures
        spec_decode(spec_encode(m)) == Some(m),
{
    let e = spec_encode(m);
    match m {
        MessageView::FrameworkId(v) => {
            lemma_dec_value_encoded(TAG_FRAMEWORK_ID, v.value);
            assert(spec_decode(e)->Some_0 =~= m);
        },
        MessageView::OfferId(v) => {
            lemma_dec_value_encoded(TAG_OFFER_ID, v.value);
            assert(spec_decode(e)->Some_0 =~= m);
        },
        MessageView::TaskId(v) => {
            lemma_dec_value_encoded(TAG_TASK_ID, v.value);
            assert(spec_decode(e)->Some_0 =~= m);
        },
        MessageView::ExecutorId(v) => {
            lemma_dec_value_encoded(TAG_EXECUTOR_ID, v.value);
            assert(spec_decode(e)->Some_0 =~= m);
        },
        MessageView::SlaveId(v) => {
            lemma_dec_value_encoded(TAG_SLAVE_ID, v.value);
            assert(spec_decode(e)->Some_0 =~= m);
        },
        MessageView::FrameworkInfo(v) => {
            lemma_dec_two_encoded(TAG_FRAMEWORK_INFO, v.name, v.user);
            assert(spec_decode(e)->Some_0 =~= m);
        },
        MessageView::MasterInfo(v) => {
            lemma_dec_two_encoded(TAG_MASTER_INFO, v.id, v.address);
            assert(spec_decode(e)->Some_0 =~= m);
        },
        MessageView::Offer(v) => {
            lemma_dec_four_encoded(
                TAG_OFFER,
                v.id.value,
                v.framework_id.value,
                v.slave_id.value,
                v.hostname,
            );
            assert(spec_decode(e)->Some_0 =~= m);
        },
        MessageView::TaskInfo(v) => {
            lemma_dec_four_encoded(
                TAG_TASK_INFO,
                v.name,
                v.task_id.value,
                v.slave_id.value,
                v.data,
            );
            assert(spec_decode(e)->Some_0 =~= m);
        },
        MessageView::TaskStatus(v) => {
            lemma_dec_status_encoded(TAG_TASK_STATUS, v.task_id.value, v.state, v.message);
            assert(spec_decode(e)->Some_0 =~= m);
        },
        MessageView::Filters(v) => {
            lemma_dec_u64_encoded(TAG_FILTERS, v.refuse_seconds);
            assert(spec_decode(e)->Some_0 =~= m);
        },
        MessageView::Request(v) => {
            lemma_dec_value_encoded(TAG_REQUEST, v.slave_id.value);
            assert(spec_decode(e)->Some_0 =~= m);
        },
    }
}

/// The views of a sequence of messages.
pub open spec fn views_of(s: Seq<Message>) -> Seq<MessageView> {
    s.map_values(|m: Message| m@)
}

/// The flat byte stream framing a collection: each element encoded, then
/// written as one length-prefixed record, in order.
pub open spec fn spec_encode_stream(ms: Seq<MessageView>) -> Seq<u8>
    decreases ms.len(),
{
    if ms.len() == 0 {
        Seq::empty()
    } else {
        spec_record(spec_encode(ms[0])) + spec_encode_stream(ms.drop_first())
    }
}

/// The collection a flat byte stream frames, or `None` where the stream is
/// not an exact sequence of records each encoding a message.
pub open spec fn spec_decode_stream(b: Seq<u8>) -> Option<Seq<MessageView>>
    decreases b.len(),
{
    if b.len() == 0 {
        Some(Seq::empty())
    } else {
        match spec_read_record(b, 0) {
            Some((rec, next)) => match spec_decode(rec) {
                Some(m) => match spec_decode_stream(b.subrange(next, b.len() as int)) {
                    Some(rest) => Some(seq![m] + rest),
                    None => None,
                },
                None => None,
            },
            None => None,
        }
    }
}

/// Appending one element to a collection appends its record to the framing.
proof fn lemma_encode_stream_push(ms: Seq<MessageView>, m: MessageView)
    ensures
        spec_encode_stream(ms.push(m)) == spec_encode_stream(ms) + spec_record(spec_encode(m)),
    decreases ms.len(),
{
    if ms.len() == 0 {
        assert(ms.push(m)[0] == m);
        assert(ms.push(m).drop_first() =~= Seq::<MessageView>::empty());
        assert(spec_encode_stream(Seq::<MessageView>::empty()) == Seq::<u8>::empty());
        assert(Seq::<u8>::empty() + spec_record(spec_encode(m)) =~= spec_record(spec_encode(m))
            + Seq::<u8>::empty());
    } else {
        assert(ms.push(m)[0] == ms[0]);
        assert(ms.push(m).drop_first() =~= ms.drop_first().push(m));
        lemma_encode_stream_push(ms.drop_first(), m);
        assert(spec_record(spec_encode(ms[0])) + (spec_encode_stream(ms.drop_first())
            + spec_record(spec_encode(m))) =~= (spec_record(spec_encode(ms[0]))
            + spec_encode_stream(ms.drop_first())) + spec_record(spec_encode(m)));
    }
}

/// Round-trip law for collections: decoding the framed stream of any
/// sequence of messages, empty or not, gives back exactly that sequence, in
/// the same order. Values built in executable code always satisfy the
/// premise: their encodings are real buffers, so their lengths fit.
pub proof fn lemma_stream_round_trip(ms: Seq<MessageView>)
    requires
        forall|i: int|
            0 <= i < ms.len() ==> (#[trigger] ms[i]).wf() && spec_encode(ms[i]).len()
                <= u64::MAX,
    ensures
        spec_decode_stream(spec_encode_stream(ms)) == Some(ms),
    decreases ms.len(),
{
    lemma_auto_spec_u64_to_from_le_bytes();
    if ms.len() == 0 {
        assert(ms =~= Seq::<MessageView>::empty());
    } else {
        let head = ms[0];
        let rest = ms.drop_first();
        let e = spec_encode(head);
        let tail = spec_encode_stream(rest);
        let b = spec_encode_stream(ms);
        lemma_read_record_of_record(Seq::empty(), e, tail);
        assert(Seq::<u8>::empty() + spec_record(e) + tail =~= b);
        lemma_message_round_trip(head);
        assert(b.subrange(8 + e.len() as int, b.len() as int) =~= tail);
        assert forall|i: int| 0 <= i < rest.len() implies (#[trigger] rest[i]).wf()
            && spec_encode(rest[i]).len() <= u64::MAX by {
            assert(rest[i] == ms[i + 1]);
        }
        lemma_stream_round_trip(rest);
        assert(seq![head] + rest =~= ms);
    }
}

/// Frame a collection of messages as one flat byte region, each element
/// encoded and length-prefixed, in order.
pub fn encode_collection(msgs: &Vec<Message>) -> (r: Vec<u8>)
    ensures
        r@ == spec_encode_stream(views_of(msgs@)),
{
    let mut out: Vec<u8> = Vec::new();
    let mut i: usize = 0;
    proof {
        assert(views_of(msgs@.subrange(0, 0)) =~= Seq::<MessageView>::empty());
    }
    while i < msgs.len()
        invariant
            i <= msgs.len(),
            out@ == spec_encode_stream(views_of(msgs@.subrange(0, i as int))),
        decreases msgs.len() - i,
    {
        let enc = to_native(&msgs[i]);
        proof {
            lemma_encode_stream_push(views_of(msgs@.subrange(0, i as int)), msgs@[i as int]@);
            assert(views_of(msgs@.subrange(0, i + 1)) =~= views_of(
                msgs@.subrange(0, i as int),
            ).push(msgs@[i as int]@));
        }
        append_record(&mut out, &enc.data);
        i = i + 1;
    }
    proof {
        assert(msgs@.subrange(0, msgs@.len() as int) =~= msgs@);
    }
    out
}

/// Split a flat byte region back into the collection it frames. Succeeds
/// exactly on the regions that are a whole number of records each encoding a
/// message, and then returns the messages in stream order.
pub fn decode_collection(b: &Vec<u8>) -> (r: Result<Vec<Message>, AdapterError>)
    ensures
        r is Ok <==> spec_decode_stream(b@) is Some,
        r matches Ok(v) ==> spec_decode_stream(b@) == Some(views_of(v@)),
        r is Err ==> r == Err::<Vec<Message>, AdapterError>(AdapterError::Decode),
{
    let mut out: Vec<Message> = Vec::new();
    let mut pos: usize = 0;
    proof {
        assert(views_of(out@) =~= Seq::<MessageView>::empty());
        assert(b@.subrange(0, b@.len() as int) =~= b@);
        match spec_decode_stream(b@) {
            Some(rest) => {
                assert(Seq::<MessageView>::empty() + rest =~= rest);
            },
            None => {},
        }
    }
    while pos < b.len()
        invariant
            pos <= b.len(),
            ({
                match spec_decode_stream(b@.subrange(pos as int, b@.len() as int)) {
                    Some(rest) => spec_decode_stream(b@) == Some(views_of(out@) + rest),
                    None => spec_decode_stream(b@) is None,
                }
            }),
        decreases b@.len() - pos,
    {
        let ghost suffix = b@.subrange(pos as int, b@.len() as int);
        match read_record_at(b, pos) {
            Some((rec, next)) => {
                proof {
                    lemma_read_record_shift(b@, pos as int);
                }
                match decode_message(&rec) {
                    Ok(m) => {
                        proof {
                            assert(suffix.subrange(next - pos, suffix.len() as int)
                                =~= b@.subrange(next as int, b@.len() as int));
                            assert(views_of(out@.push(m)) =~= views_of(out@) + seq![m@]);
                            match spec_decode_stream(b@.subrange(next as int, b@.len() as int)) {
                                Some(rp) => {
                                    assert(views_of(out@) + (seq![m@] + rp) =~= views_of(
                                        out@.push(m),
                                    ) + rp);
                                },
                                None => {},
                            }
                        }
                        out.push(m);
                        pos = next;
                    },
                    Err(_) => {
                        proof {
                            assert(spec_decode_stream(
                                b@.subrange(pos as int, b@.len() as int),
                            ) is None);
                        }
                        return Err(AdapterError::Decode);
                    },
                }
            },
            None => {
                proof {
                    lemma_read_record_shift(b@, pos as int);
                    assert(spec_decode_stream(b@.subrange(pos as int, b@.len() as int)) is None);
                }
                return Err(AdapterError::Decode);
            },
        }
    }
    proof {
        assert(b@.subrange(pos as int, b@.len() as int) =~= Seq::<u8>::empty());
        assert(views_of(out@) + Seq::<MessageView>::empty() =~= views_of(out@));
    }
    Ok(out)
}

/// The messages of a task collection, in order.
pub open spec fn task_messages(s: Seq<TaskInfo>) -> Seq<MessageView> {
    s.map_values(|t: TaskInfo| MessageView::TaskInfo(t@))
}

/// The messages of a request collection, in order.
pub open spec fn request_messages(s: Seq<Request>) -> Seq<MessageView> {
    s.map_values(|q: Request| MessageView::Request(q@))
}

/// Serialize one task descriptor.
fn encode_task(t: &TaskInfo) -> (r: Vec<u8>)
    ensures
        r@ == spec_encode(MessageView::TaskInfo(t@)),
{
    let mut data: Vec<u8> = Vec::new();
    data.push(TAG_TASK_INFO);
    append_record(&mut data, &t.name);
    append_record(&mut data, &t.task_id.value);
    append_record(&mut data, &t.slave_id.value);
    append_record(&mut data, &t.data);
    proof {
        assert(Seq::<u8>::empty().push(TAG_TASK_INFO) =~= seq![TAG_TASK_INFO]);
    }
    data
}

/// Serialize one resource request.
fn encode_request(q: &Request) -> (r: Vec<u8>)
    ensures
        r@ == spec_encode(MessageView::Request(q@)),
{
    let mut data: Vec<u8> = Vec::new();
    data.push(TAG_REQUEST);
    append_record(&mut data, &q.slave_id.value);
    proof {
        assert(Seq::<u8>::empty().push(TAG_REQUEST) =~= seq![TAG_REQUEST]);
    }
    data
}

/// Frame a collection of task descriptors as one flat byte region.
pub fn encode_task_collection(tasks: &Vec<TaskInfo>) -> (r: Vec<u8>)
    ensures
        r@ == spec_encode_stream(task_messages(tasks@)),
{
    let mut out: Vec<u8> = Vec::new();
    let mut i: usize = 0;
    proof {
        assert(task_messages(tasks@.subrange(0, 0)) =~= Seq::<MessageView>::empty());
    }
    while i < tasks.len()
        invariant
            i <= tasks.len(),
            out@ == spec_encode_stream(task_messages(tasks@.subrange(0, i as int))),
        decreases tasks.len() - i,
    {
        let enc = encode_task(&tasks[i]);
        proof {
            lemma_encode_stream_push(
                task_messages(tasks@.subrange(0, i as int)),
                MessageView::TaskInfo(tasks@[i as int]@),
            );
            assert(task_messages(tasks@.subrange(0, i + 1)) =~= task_messages(
                tasks@.subrange(0, i as int),
            ).push(MessageView::TaskInfo(tasks@[i as int]@)));
        }
        append_record(&mut out, &enc);
        i = i + 1;
    }
    proof {
        assert(tasks@.subrange(0, tasks@.len() as int) =~= tasks@);
    }
    out
}

/// Frame a collection of resource requests as one flat byte region.
pub fn encode_request_collection(requests: &Vec<Request>) -> (r: Vec<u8>)
    ensures
        r@ == spec_encode_stream(request_messages(requests@)),
{
    let mut out: Vec<u8> = Vec::new();
    let mut i: usize = 0;
    proof {
        assert(request_messages(requests@.subrange(0, 0)) =~= Seq::<MessageView>::empty());
    }
    while i < requests.len()
        invariant
            i <= requests.len(),
            out@ == spec_encode_stream(request_messages(requests@.subrange(0, i as int))),
        decreases requests.len() - i,
    {
        let enc = encode_request(&requests[i]);
        proof {
            lemma_encode_stream_push(
                request_messages(requests@.subrange(0, i as int)),
                MessageView::Request(requests@[i as int]@),
            );
            assert(request_messages(requests@.subrange(0, i + 1)) =~= request_messages(
                requests@.subrange(0, i as int),
            ).push(MessageView::Request(requests@[i as int]@)));
        }
        append_record(&mut out, &enc);
        i = i + 1;
    }
    proof {
        assert(requests@.subrange(0, requests@.len() as int) =~= requests@);
    }
    out
}

} // verus!

use mesos::errors::AdapterError;
use mesos::marshal::{
    decode_collection, encode_collection, from_native, to_native, ProtobufObj,
};
use mesos::messages::{
    ExecutorId, Filters, FrameworkId, FrameworkInfo, MasterInfo, Message, Offer, OfferId,
    Request, SlaveId, TaskId, TaskInfo, TaskState, TaskStatus,
};

#[test]
fn protobufobj_message_translation() {
    let mut fi = FrameworkInfo::new();
    fi.set_name(b"foo".to_vec());
    fi.set_user(b"bar".to_vec());

    let pb = ProtobufObj::from_message(&Message::FrameworkInfo(fi.clone()));

    let fi2 = match from_native(&pb).unwrap() {
        Message::FrameworkInfo(v) => v,
        other => panic!("decoded the wrong message shape: {:?}", other),
    };

    assert_eq!(fi, fi2);
}

fn offer(id: &[u8]) -> Offer {
    Offer {
        id: OfferId { value: id.to_vec() },
        framework_id: FrameworkId { value: b"fw".to_vec() },
        slave_id: SlaveId { value: b"s1".to_vec() },
        hostname: b"node-a".to_vec(),
    }
}

fn task(name: &[u8]) -> TaskInfo {
    TaskInfo {
        name: name.to_vec(),
        task_id: TaskId { value: b"t-7".to_vec() },
        slave_id: SlaveId { value: b"s1".to_vec() },
        data: b"payload".to_vec(),
    }
}

#[test]
fn round_trip_every_message_shape() {
    let messages = vec![
        Message::FrameworkId(FrameworkId { value: b"fw-1".to_vec() }),
        Message::OfferId(OfferId { value: b"o1".to_vec() }),
        Message::TaskId(TaskId { value: b"t1".to_vec() }),
        Message::ExecutorId(ExecutorId { value: b"e1".to_vec() }),
        Message::SlaveId(SlaveId { value: b"s1".to_vec() }),
        Message::FrameworkInfo(FrameworkInfo { name: b"fw".to_vec(), user: b"root".to_vec() }),
        Message::MasterInfo(MasterInfo {
            id: b"master-1".to_vec(),
            address: b"localhost:5050".to_vec(),
        }),
        Message::Offer(offer(b"o1")),
        Message::TaskInfo(task(b"job")),
        Message::TaskStatus(TaskStatus {
            task_id: TaskId { value: b"t1".to_vec() },
            state: TaskState::Running,
            message: b"ok".to_vec(),
        }),
        Message::Filters(Filters { refuse_seconds: 5 }),
        Message::Request(Request { slave_id: SlaveId { value: b"s1".to_vec() } }),
    ];
    for m in messages {
        let encoded = to_native(&m);
        let decoded = from_native(&encoded).unwrap();
        assert_eq!(m, decoded);
    }
}

#[test]
fn round_trip_empty_fields() {
    let m = Message::FrameworkInfo(FrameworkInfo { name: Vec::new(), user: Vec::new() });
    let decoded = from_native(&to_native(&m)).unwrap();
    assert_eq!(m, decoded);
}

#[test]
fn encoding_is_the_documented_framing() {
    // Tag byte, then the field length as eight little-endian bytes, then the
    // field bytes.
    let m = Message::OfferId(OfferId { value: b"ab".to_vec() });
    let encoded = to_native(&m);
    assert_eq!(
        encoded.to_bytes().as_slice(),
        &[2u8, 2, 0, 0, 0, 0, 0, 0, 0, 97, 98]
    );
    assert_eq!(encoded.size(), 11);
}

#[test]
fn filters_encode_the_refusal_seconds_verbatim() {
    let m = Message::Filters(Filters { refuse_seconds: 0x0102030405060708 });
    let encoded = to_native(&m);
    assert_eq!(
        encoded.to_bytes().as_slice(),
        &[11u8, 8, 7, 6, 5, 4, 3, 2, 1]
    );
}

#[test]
fn corrupted_buffer_is_a_decode_error() {
    // Empty buffer.
    assert_eq!(
        from_native(&ProtobufObj::from_vec(Vec::new())),
        Err(AdapterError::Decode)
    );
    // Unknown tag.
    assert_eq!(
        from_native(&ProtobufObj::from_vec(vec![200, 1, 2, 3])),
        Err(AdapterError::Decode)
    );
    // Valid tag, truncated length field.
    assert_eq!(
        from_native(&ProtobufObj::from_vec(vec![2, 9, 0, 0])),
        Err(AdapterError::Decode)
    );
    // Valid tag, length field promising more bytes than are there.
    assert_eq!(
        from_native(&ProtobufObj::from_vec(vec![2, 9, 0, 0, 0, 0, 0, 0, 0, 1])),
        Err(AdapterError::Decode)
    );
    // Trailing garbage after a complete message.
    let mut bytes = to_native(&Message::OfferId(OfferId { value: b"o".to_vec() }))
        .to_bytes()
        .clone();
    bytes.push(0);
    assert_eq!(
        from_native(&ProtobufObj::from_vec(bytes)),
        Err(AdapterError::Decode)
    );
}

#[test]
fn collection_framing_round_trips_empty() {
    let msgs: Vec<Message> = Vec::new();
    let stream = encode_collection(&msgs);
    assert!(stream.is_empty());
    assert_eq!(decode_collection(&stream).unwrap(), msgs);
}

#[test]
fn collection_framing_round_trips_one() {
    let msgs = vec![Message::Offer(offer(b"o1"))];
    let stream = encode_collection(&msgs);
    assert_eq!(decode_collection(&stream).unwrap(), msgs);
}

#[test]
fn collection_framing_round_trips_many_in_order() {
    let msgs = vec![
        Message::Offer(offer(b"o1")),
        Message::Offer(offer(b"o2")),
        Message::Offer(offer(b"o3")),
        Message::TaskInfo(task(b"job")),
    ];
    let stream = encode_collection(&msgs);
    let decoded = decode_collection(&stream).unwrap();
    assert_eq!(decoded, msgs);
}

#[test]
fn collection_framing_rejects_truncated_streams() {
    let msgs = vec![Message::Offer(offer(b"o1")), Message::Offer(offer(b"o2"))];
    let mut stream = encode_collection(&msgs);
    stream.pop();
    assert_eq!(decode_collection(&stream), Err(AdapterError::Decode));
}

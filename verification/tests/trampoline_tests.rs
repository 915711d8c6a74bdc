use std::cell::RefCell;

use mesos::driver::{MesosSchedulerDriver, NativeRequest, SchedulerPtrPair};
use mesos::errors::AdapterError;
use mesos::marshal::{to_native, ProtobufObj};
use mesos::messages::{
    ExecutorId, Filters, FrameworkId, FrameworkInfo, MasterInfo, Message, Offer, OfferId,
    SlaveId, TaskId, TaskState, TaskStatus,
};
use mesos::registry::Registry;
use mesos::scheduler::Scheduler;
use mesos::trampoline::{
    trampoline_disconnected, trampoline_error, trampoline_executor_lost,
    trampoline_framework_message, trampoline_offer_rescinded, trampoline_registered,
    trampoline_reregistered, trampoline_resource_offers, trampoline_slave_lost,
    trampoline_status_update,
};

/// A policy that records what it was invoked with.
#[derive(Default)]
struct RecordingScheduler {
    offer_ids: RefCell<Vec<Vec<u8>>>,
    registered_with: RefCell<Vec<(Vec<u8>, Vec<u8>)>>,
    status_updates: RefCell<Vec<(Vec<u8>, TaskState)>>,
    events: RefCell<Vec<&'static str>>,
    decline_from_callback: bool,
}

impl Scheduler for RecordingScheduler {
    fn registered(
        &self,
        _driver: &mut MesosSchedulerDriver,
        framework_id: &FrameworkId,
        master_info: &MasterInfo,
    ) {
        self.registered_with
            .borrow_mut()
            .push((framework_id.value.clone(), master_info.address.clone()));
        self.events.borrow_mut().push("registered");
    }

    fn reregistered(&self, _driver: &mut MesosSchedulerDriver, _master_info: &MasterInfo) {
        self.events.borrow_mut().push("reregistered");
    }

    fn resource_offers(&self, driver: &mut MesosSchedulerDriver, offers: Vec<Offer>) {
        for offer in &offers {
            self.offer_ids.borrow_mut().push(offer.id.value.clone());
        }
        if self.decline_from_callback {
            for offer in &offers {
                driver
                    .decline_offer(&offer.id, &Filters { refuse_seconds: 1 })
                    .unwrap();
            }
        }
        self.events.borrow_mut().push("resource_offers");
    }

    fn status_update(&self, _driver: &mut MesosSchedulerDriver, task_status: &TaskStatus) {
        self.status_updates
            .borrow_mut()
            .push((task_status.task_id.value.clone(), task_status.state));
        self.events.borrow_mut().push("status_update");
    }

    fn disconnected(&self, _driver: &mut MesosSchedulerDriver) {
        self.events.borrow_mut().push("disconnected");
    }

    fn offer_rescinded(&self, _driver: &mut MesosSchedulerDriver, _offer_id: &OfferId) {
        self.events.borrow_mut().push("offer_rescinded");
    }

    fn framework_message(
        &self,
        _driver: &mut MesosSchedulerDriver,
        _executor_id: &ExecutorId,
        _slave_id: &SlaveId,
        _data: &Vec<u8>,
    ) {
        self.events.borrow_mut().push("framework_message");
    }

    fn slave_lost(&self, _driver: &mut MesosSchedulerDriver, _slave_id: &SlaveId) {
        self.events.borrow_mut().push("slave_lost");
    }

    fn executor_lost(
        &self,
        _driver: &mut MesosSchedulerDriver,
        _executor_id: &ExecutorId,
        _slave_id: &SlaveId,
        _status: i32,
    ) {
        self.events.borrow_mut().push("executor_lost");
    }

    fn error(&self, _driver: &mut MesosSchedulerDriver, _message: &Vec<u8>) {
        self.events.borrow_mut().push("error");
    }
}

fn ready_driver(registry: &mut Registry<u32>) -> Box<MesosSchedulerDriver> {
    let mut driver = MesosSchedulerDriver::new(
        FrameworkInfo { name: b"fw-1".to_vec(), user: b"root".to_vec() },
        b"localhost:5050".to_vec(),
    );
    driver.init(registry, 1).unwrap();
    driver
        .complete_init(0, SchedulerPtrPair { scheduler: 1, driver: 2 })
        .unwrap();
    driver.take_requests();
    driver
}

fn offer_buffer(id: &[u8]) -> ProtobufObj {
    to_native(&Message::Offer(Offer {
        id: OfferId { value: id.to_vec() },
        framework_id: FrameworkId { value: b"fw-1".to_vec() },
        slave_id: SlaveId { value: b"s1".to_vec() },
        hostname: b"node-a".to_vec(),
    }))
}

#[test]
fn resource_offers_arrive_in_order() {
    let mut registry: Registry<u32> = Registry::new();
    let mut driver = ready_driver(&mut registry);
    let scheduler = RecordingScheduler::default();
    let buffers = vec![offer_buffer(b"o1"), offer_buffer(b"o2"), offer_buffer(b"o3")];

    trampoline_resource_offers(&scheduler, &mut driver, &buffers).unwrap();

    assert_eq!(
        *scheduler.offer_ids.borrow(),
        vec![b"o1".to_vec(), b"o2".to_vec(), b"o3".to_vec()]
    );
}

#[test]
fn policy_can_issue_operations_from_within_a_callback() {
    let mut registry: Registry<u32> = Registry::new();
    let mut driver = ready_driver(&mut registry);
    let scheduler = RecordingScheduler {
        decline_from_callback: true,
        ..RecordingScheduler::default()
    };
    let buffers = vec![offer_buffer(b"o1"), offer_buffer(b"o2")];

    trampoline_resource_offers(&scheduler, &mut driver, &buffers).unwrap();

    let requests = driver.take_requests();
    assert_eq!(requests.len(), 2);
    assert!(requests
        .iter()
        .all(|r| matches!(r, NativeRequest::DeclineOffer { .. })));
}

#[test]
fn one_bad_offer_drops_the_whole_event() {
    let mut registry: Registry<u32> = Registry::new();
    let mut driver = ready_driver(&mut registry);
    let scheduler = RecordingScheduler::default();
    let buffers = vec![
        offer_buffer(b"o1"),
        ProtobufObj::from_vec(vec![255, 255]),
        offer_buffer(b"o3"),
    ];

    let result = trampoline_resource_offers(&scheduler, &mut driver, &buffers);

    assert_eq!(result, Err(AdapterError::Decode));
    assert!(scheduler.offer_ids.borrow().is_empty());
    assert!(scheduler.events.borrow().is_empty());
}

#[test]
fn corrupted_status_update_is_contained() {
    let mut registry: Registry<u32> = Registry::new();
    let mut driver = ready_driver(&mut registry);
    let token = driver.token.unwrap();
    let scheduler = RecordingScheduler::default();
    let garbage = ProtobufObj::from_vec(vec![0, 1, 2, 3, 4]);

    let result = trampoline_status_update(&scheduler, &mut driver, &garbage);

    // The event is dropped: the policy saw nothing.
    assert_eq!(result, Err(AdapterError::Decode));
    assert!(scheduler.status_updates.borrow().is_empty());
    assert!(scheduler.events.borrow().is_empty());
    // The dispatch registry is not corrupted and the driver is untouched.
    assert_eq!(registry.resolve(token), Ok(&1));
    assert!(driver.take_requests().is_empty());

    // The next, well-formed event goes through.
    let good = to_native(&Message::TaskStatus(TaskStatus {
        task_id: TaskId { value: b"t1".to_vec() },
        state: TaskState::Running,
        message: Vec::new(),
    }));
    trampoline_status_update(&scheduler, &mut driver, &good).unwrap();
    assert_eq!(
        *scheduler.status_updates.borrow(),
        vec![(b"t1".to_vec(), TaskState::Running)]
    );
}

#[test]
fn wrong_message_shape_is_a_decode_error() {
    let mut registry: Registry<u32> = Registry::new();
    let mut driver = ready_driver(&mut registry);
    let scheduler = RecordingScheduler::default();
    // A perfectly valid buffer, but of the wrong shape for this callback.
    let offer_id = to_native(&Message::OfferId(OfferId { value: b"o1".to_vec() }));

    let result = trampoline_status_update(&scheduler, &mut driver, &offer_id);

    assert_eq!(result, Err(AdapterError::Decode));
    assert!(scheduler.events.borrow().is_empty());
}

#[test]
fn registered_event_reaches_the_policy_decoded() {
    let mut registry: Registry<u32> = Registry::new();
    let mut driver = ready_driver(&mut registry);
    let scheduler = RecordingScheduler::default();
    let framework_id = to_native(&Message::FrameworkId(FrameworkId { value: b"fw-1".to_vec() }));
    let master_info = to_native(&Message::MasterInfo(MasterInfo {
        id: b"m1".to_vec(),
        address: b"localhost:5050".to_vec(),
    }));

    trampoline_registered(&scheduler, &mut driver, &framework_id, &master_info).unwrap();

    assert_eq!(
        *scheduler.registered_with.borrow(),
        vec![(b"fw-1".to_vec(), b"localhost:5050".to_vec())]
    );
}

#[test]
fn every_event_kind_dispatches_to_its_method() {
    let mut registry: Registry<u32> = Registry::new();
    let mut driver = ready_driver(&mut registry);
    let scheduler = RecordingScheduler::default();

    let master_info = to_native(&Message::MasterInfo(MasterInfo {
        id: b"m1".to_vec(),
        address: b"localhost:5050".to_vec(),
    }));
    let offer_id = to_native(&Message::OfferId(OfferId { value: b"o1".to_vec() }));
    let executor_id = to_native(&Message::ExecutorId(ExecutorId { value: b"e1".to_vec() }));
    let slave_id = to_native(&Message::SlaveId(SlaveId { value: b"s1".to_vec() }));

    trampoline_reregistered(&scheduler, &mut driver, &master_info).unwrap();
    trampoline_disconnected(&scheduler, &mut driver);
    trampoline_offer_rescinded(&scheduler, &mut driver, &offer_id).unwrap();
    trampoline_framework_message(
        &scheduler,
        &mut driver,
        &executor_id,
        &slave_id,
        &b"note".to_vec(),
    )
    .unwrap();
    trampoline_slave_lost(&scheduler, &mut driver, &slave_id).unwrap();
    trampoline_executor_lost(&scheduler, &mut driver, &executor_id, &slave_id, 137).unwrap();
    trampoline_error(&scheduler, &mut driver, &b"boom".to_vec());

    assert_eq!(
        *scheduler.events.borrow(),
        vec![
            "reregistered",
            "disconnected",
            "offer_rescinded",
            "framework_message",
            "slave_lost",
            "executor_lost",
            "error",
        ]
    );
}

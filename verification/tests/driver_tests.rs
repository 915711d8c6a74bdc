use mesos::driver::{
    Lifecycle, MesosSchedulerDriver, NativeRequest, SchedulerPtrPair,
};
use mesos::errors::AdapterError;
use mesos::marshal::{decode_collection, from_native};
use mesos::messages::{
    ExecutorId, Filters, FrameworkInfo, Message, OfferId, Request, SlaveId, TaskId, TaskInfo,
};
use mesos::registry::{Registry, RegistryError};

fn fresh_driver() -> Box<MesosSchedulerDriver> {
    MesosSchedulerDriver::new(
        FrameworkInfo { name: b"fw-1".to_vec(), user: b"root".to_vec() },
        b"localhost:5050".to_vec(),
    )
}

fn pair() -> SchedulerPtrPair {
    SchedulerPtrPair { scheduler: 0x1000, driver: 0x2000 }
}

/// Drive a facade through successful initialization.
fn initialized(registry: &mut Registry<u32>) -> Box<MesosSchedulerDriver> {
    let mut driver = fresh_driver();
    driver.init(registry, 1).unwrap();
    driver.complete_init(0, pair()).unwrap();
    driver.take_requests();
    driver
}

#[test]
fn data_plane_before_init_is_a_precondition_error() {
    let mut driver = fresh_driver();
    let offer_id = OfferId { value: b"o1".to_vec() };
    let filters = Filters { refuse_seconds: 0 };
    assert_eq!(
        driver.decline_offer(&offer_id, &filters),
        Err(AdapterError::Precondition)
    );
    assert_eq!(
        driver.kill_task(&TaskId { value: b"t1".to_vec() }),
        Err(AdapterError::Precondition)
    );
    assert_eq!(driver.revive_offers(), Err(AdapterError::Precondition));
    assert_eq!(
        driver.launch_tasks(&offer_id, &Vec::new(), &filters),
        Err(AdapterError::Precondition)
    );
    assert_eq!(
        driver.request_resources(&Vec::new()),
        Err(AdapterError::Precondition)
    );
    assert_eq!(
        driver.send_framework_message(
            &ExecutorId { value: b"e1".to_vec() },
            &SlaveId { value: b"s1".to_vec() },
            &b"hello".to_vec(),
        ),
        Err(AdapterError::Precondition)
    );
    // Nothing was emitted: the native side was never reached.
    assert!(driver.take_requests().is_empty());
}

#[test]
fn init_activates_the_registry_and_stores_the_handle_pair() {
    let mut registry: Registry<u32> = Registry::new();
    let mut driver = fresh_driver();

    driver.init(&mut registry, 42).unwrap();
    let token = driver.token.expect("init stores the context token");
    assert_eq!(registry.resolve(token), Ok(&42));

    // The emitted init request carries the serialized descriptor, the
    // master address, and the token.
    let requests = driver.take_requests();
    assert_eq!(requests.len(), 1);
    match &requests[0] {
        NativeRequest::Init { framework, master, token: t } => {
            let decoded = from_native(framework).unwrap();
            assert_eq!(
                decoded,
                Message::FrameworkInfo(FrameworkInfo {
                    name: b"fw-1".to_vec(),
                    user: b"root".to_vec(),
                })
            );
            assert_eq!(master.as_slice(), b"localhost:5050");
            assert_eq!(*t, token);
        }
        other => panic!("expected the init request, got {:?}", other),
    }

    driver.complete_init(0, pair()).unwrap();
    assert_eq!(driver.native_ptr_pair, Some(pair()));
    assert_eq!(driver.lifecycle, Lifecycle::Initialized);
    assert_eq!(registry.resolve(token), Ok(&42));
}

#[test]
fn failed_native_init_leaves_the_facade_without_handles() {
    let mut registry: Registry<u32> = Registry::new();
    let mut driver = fresh_driver();
    driver.init(&mut registry, 1).unwrap();
    let token = driver.token.unwrap();
    assert_eq!(
        driver.complete_init(3, pair()),
        Err(AdapterError::Init { status: 3 })
    );
    assert_eq!(driver.native_ptr_pair, None);
    assert_eq!(driver.lifecycle, Lifecycle::Uninitialized);
    driver.take_requests();

    // Teardown must not attempt a native destroy (no handles are held), but
    // it must still clear the registry entry installed at init: the stale
    // token may no longer resolve to the dead facade.
    assert!(!driver.destroy(&mut registry));
    assert_eq!(driver.lifecycle, Lifecycle::Destroyed);
    assert_eq!(driver.token, None);
    assert_eq!(registry.resolve(token), Err(RegistryError::Inactive));
    assert!(driver.take_requests().is_empty());
}

#[test]
fn init_twice_is_a_precondition_error() {
    let mut registry: Registry<u32> = Registry::new();
    let mut driver = fresh_driver();
    driver.init(&mut registry, 1).unwrap();
    assert_eq!(driver.init(&mut registry, 2), Err(AdapterError::Precondition));
}

#[test]
fn run_before_init_is_a_precondition_error() {
    let mut driver = fresh_driver();
    assert_eq!(driver.run(), Err(AdapterError::Precondition));
    assert!(driver.take_requests().is_empty());
}

#[test]
fn stop_while_running_then_destroy_exactly_once() {
    let mut registry: Registry<u32> = Registry::new();
    let mut driver = initialized(&mut registry);
    let token = driver.token.unwrap();

    driver.run().unwrap();
    assert_eq!(driver.lifecycle, Lifecycle::Running);
    assert_eq!(
        driver.take_requests(),
        vec![NativeRequest::Start, NativeRequest::Join]
    );

    driver.stop(true).unwrap();
    assert_eq!(driver.lifecycle, Lifecycle::Stopped);
    assert_eq!(
        driver.take_requests(),
        vec![NativeRequest::Stop { failover: true }]
    );

    // The embedding's blocked join returns once the native side shut down;
    // the facade keeps the exact status it reported.
    driver.on_terminated(0);
    assert_eq!(driver.lifecycle, Lifecycle::Stopped);
    assert_eq!(driver.termination_status, Some(0));

    // Teardown happens exactly once.
    assert!(driver.destroy(&mut registry));
    assert_eq!(driver.lifecycle, Lifecycle::Destroyed);
    assert_eq!(driver.native_ptr_pair, None);
    assert_eq!(
        driver.take_requests(),
        vec![NativeRequest::Destroy { pair: pair() }]
    );
    assert!(registry.resolve(token).is_err());

    // A second teardown is a no-op, not a second native call.
    assert!(!driver.destroy(&mut registry));
    assert!(driver.take_requests().is_empty());
}

#[test]
fn stop_outside_running_is_a_precondition_error() {
    let mut registry: Registry<u32> = Registry::new();
    let mut driver = initialized(&mut registry);
    assert_eq!(driver.stop(false), Err(AdapterError::Precondition));
}

#[test]
fn native_error_termination_aborts_the_facade() {
    let mut registry: Registry<u32> = Registry::new();
    let mut driver = initialized(&mut registry);
    driver.run().unwrap();
    driver.on_terminated(11);
    assert_eq!(driver.lifecycle, Lifecycle::Aborted);
    assert_eq!(driver.termination_status, Some(11));
}

#[test]
fn native_statuses_are_relayed_verbatim_in_order() {
    let mut registry: Registry<u32> = Registry::new();
    let mut driver = initialized(&mut registry);
    assert!(driver.native_statuses.is_empty());
    driver
        .decline_offer(
            &OfferId { value: b"o1".to_vec() },
            &Filters { refuse_seconds: 0 },
        )
        .unwrap();
    driver.record_status(-3);
    driver.revive_offers().unwrap();
    driver.record_status(7);
    assert_eq!(driver.native_statuses, vec![-3, 7]);
    // The adapter classifies nothing: the termination status is separate.
    assert_eq!(driver.termination_status, None);
}

#[test]
fn decline_offer_emits_the_marshalled_call() {
    let mut registry: Registry<u32> = Registry::new();
    let mut driver = initialized(&mut registry);
    driver
        .decline_offer(
            &OfferId { value: b"o1".to_vec() },
            &Filters { refuse_seconds: 9 },
        )
        .unwrap();
    let requests = driver.take_requests();
    assert_eq!(requests.len(), 1);
    match &requests[0] {
        NativeRequest::DeclineOffer { offer_id, filters } => {
            assert_eq!(
                from_native(offer_id).unwrap(),
                Message::OfferId(OfferId { value: b"o1".to_vec() })
            );
            assert_eq!(
                from_native(filters).unwrap(),
                Message::Filters(Filters { refuse_seconds: 9 })
            );
        }
        other => panic!("expected a decline request, got {:?}", other),
    }
}

#[test]
fn launch_tasks_frames_the_task_collection() {
    let mut registry: Registry<u32> = Registry::new();
    let mut driver = initialized(&mut registry);
    let tasks = vec![
        TaskInfo {
            name: b"a".to_vec(),
            task_id: TaskId { value: b"t1".to_vec() },
            slave_id: SlaveId { value: b"s1".to_vec() },
            data: Vec::new(),
        },
        TaskInfo {
            name: b"b".to_vec(),
            task_id: TaskId { value: b"t2".to_vec() },
            slave_id: SlaveId { value: b"s1".to_vec() },
            data: b"x".to_vec(),
        },
    ];
    driver
        .launch_tasks(
            &OfferId { value: b"o1".to_vec() },
            &tasks,
            &Filters { refuse_seconds: 0 },
        )
        .unwrap();
    let requests = driver.take_requests();
    assert_eq!(requests.len(), 1);
    match &requests[0] {
        NativeRequest::LaunchTasks { offer_id, tasks: framed, filters: _ } => {
            assert_eq!(
                from_native(offer_id).unwrap(),
                Message::OfferId(OfferId { value: b"o1".to_vec() })
            );
            // The flattened region decodes back to the tasks, in order.
            let decoded = decode_collection(framed.to_bytes()).unwrap();
            assert_eq!(
                decoded,
                vec![
                    Message::TaskInfo(tasks[0].clone()),
                    Message::TaskInfo(tasks[1].clone()),
                ]
            );
        }
        other => panic!("expected a launch request, got {:?}", other),
    }
}

#[test]
fn request_resources_frames_the_request_collection() {
    let mut registry: Registry<u32> = Registry::new();
    let mut driver = initialized(&mut registry);
    let requests_in = vec![
        Request { slave_id: SlaveId { value: b"s1".to_vec() } },
        Request { slave_id: SlaveId { value: b"s2".to_vec() } },
    ];
    driver.request_resources(&requests_in).unwrap();
    let emitted = driver.take_requests();
    assert_eq!(emitted.len(), 1);
    match &emitted[0] {
        NativeRequest::RequestResources { requests } => {
            let decoded = decode_collection(requests.to_bytes()).unwrap();
            assert_eq!(
                decoded,
                vec![
                    Message::Request(requests_in[0].clone()),
                    Message::Request(requests_in[1].clone()),
                ]
            );
        }
        other => panic!("expected a resource request, got {:?}", other),
    }
}

#[test]
fn send_framework_message_passes_the_bytes_through() {
    let mut registry: Registry<u32> = Registry::new();
    let mut driver = initialized(&mut registry);
    driver
        .send_framework_message(
            &ExecutorId { value: b"e1".to_vec() },
            &SlaveId { value: b"s1".to_vec() },
            &b"ping".to_vec(),
        )
        .unwrap();
    let requests = driver.take_requests();
    match &requests[0] {
        NativeRequest::SendFrameworkMessage { executor_id, slave_id, data } => {
            assert_eq!(
                from_native(executor_id).unwrap(),
                Message::ExecutorId(ExecutorId { value: b"e1".to_vec() })
            );
            assert_eq!(
                from_native(slave_id).unwrap(),
                Message::SlaveId(SlaveId { value: b"s1".to_vec() })
            );
            assert_eq!(data.as_slice(), b"ping");
        }
        other => panic!("expected a framework message, got {:?}", other),
    }
}

#[test]
fn kill_task_and_revive_offers_emit_their_calls() {
    let mut registry: Registry<u32> = Registry::new();
    let mut driver = initialized(&mut registry);
    driver.kill_task(&TaskId { value: b"t9".to_vec() }).unwrap();
    driver.revive_offers().unwrap();
    let requests = driver.take_requests();
    assert_eq!(requests.len(), 2);
    match &requests[0] {
        NativeRequest::KillTask { task_id } => {
            assert_eq!(
                from_native(task_id).unwrap(),
                Message::TaskId(TaskId { value: b"t9".to_vec() })
            );
        }
        other => panic!("expected a kill request, got {:?}", other),
    }
    assert_eq!(requests[1], NativeRequest::ReviveOffers);
}

#[test]
fn buffers_emitted_for_one_call_are_fresh() {
    // Byte-buffer handles are scoped to exactly one native call: two calls
    // with the same arguments carry distinct, equal buffers.
    let mut registry: Registry<u32> = Registry::new();
    let mut driver = initialized(&mut registry);
    let offer_id = OfferId { value: b"o1".to_vec() };
    let filters = Filters { refuse_seconds: 0 };
    driver.decline_offer(&offer_id, &filters).unwrap();
    driver.decline_offer(&offer_id, &filters).unwrap();
    let requests = driver.take_requests();
    assert_eq!(requests.len(), 2);
    assert_eq!(requests[0], requests[1]);
}

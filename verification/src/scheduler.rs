//! The policy interface the embedder implements.

use crate::driver::MesosSchedulerDriver;
use crate::messages::{
    ExecutorId, FrameworkId, MasterInfo, Offer, OfferId, SlaveId, TaskStatus,
};
use vstd::prelude::*;

verus! {

/// The scheduling policy: one method per event type the engine delivers.
///
/// The adapter borrows the policy for the duration of one callback and never
/// takes ownership. Each method receives the driver facade so the policy can
/// issue data-plane operations reentrantly from within the callback. The
/// native engine never delivers two callbacks for one driver concurrently,
/// but they need not arrive on the same thread.
pub trait Scheduler {
    /// The framework registered with a master.
    fn registered(
        &self,
        driver: &mut MesosSchedulerDriver,
        framework_id: &FrameworkId,
        master_info: &MasterInfo,
    );

    /// The framework re-registered after a master change.
    fn reregistered(&self, driver: &mut MesosSchedulerDriver, master_info: &MasterInfo);

    /// Resources were offered to the framework, in delivery order.
    fn resource_offers(&self, driver: &mut MesosSchedulerDriver, offers: Vec<Offer>);

    /// A task changed state.
    fn status_update(&self, driver: &mut MesosSchedulerDriver, task_status: &TaskStatus);

    /// The driver lost its connection to the master.
    fn disconnected(&self, driver: &mut MesosSchedulerDriver);

    /// A previously delivered offer was withdrawn.
    fn offer_rescinded(&self, driver: &mut MesosSchedulerDriver, offer_id: &OfferId);

    /// An executor sent a message; delivery is best effort.
    fn framework_message(
        &self,
        driver: &mut MesosSchedulerDriver,
        executor_id: &ExecutorId,
        slave_id: &SlaveId,
        data: &Vec<u8>,
    );

    /// A slave was lost.
    fn slave_lost(&self, driver: &mut MesosSchedulerDriver, slave_id: &SlaveId);

    /// An executor was lost; `status` is the native exit status.
    fn executor_lost(
        &self,
        driver: &mut MesosSchedulerDriver,
        executor_id: &ExecutorId,
        slave_id: &SlaveId,
        status: i32,
    );

    /// A fatal error was reported by the engine.
    fn error(&self, driver: &mut MesosSchedulerDriver, message: &Vec<u8>);
}

} // verus!

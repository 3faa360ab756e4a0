use vstd::prelude::*;

use crate::builder::{CallModel, Coin, RemoteCall};
use crate::state::{decimal_bytes, push_decimal, task_tag, Config, TaskId};

verus! {

/// Gas that the scheduler grants one renewal action.
pub const RENEWAL_GAS_LIMIT: u64 = 300000;

/// One action of a scheduled task: a call and the gas it may use.
pub struct ScheduledAction {
    pub call: RemoteCall,
    pub gas_limit: u64,
}

/// A request to the scheduler to run a task on a schedule. It carries no
/// queries, transforms, boundary or cw20 funds: the actions run unconditionally.
pub struct SchedulerRegistration {
    /// The tag under which the scheduler files the task.
    pub tag: String,
    /// The schedule expression, handed over verbatim.
    pub schedule: String,
    pub actions: Vec<ScheduledAction>,
    /// Whether the scheduler drops the task after a failed run.
    pub stop_on_fail: bool,
    /// Native funds attached to pay for the runs.
    pub funding: Vec<Coin>,
}

/// `{"module":{"renew_domain":{"task_id":`
pub open spec fn renew_entry_prefix() -> Seq<u8> {
    seq![123u8, 34u8, 109u8, 111u8, 100u8, 117u8, 108u8, 101u8, 34u8, 58u8, 123u8, 34u8, 114u8, 101u8, 110u8, 101u8, 119u8, 95u8, 100u8, 111u8, 109u8, 97u8, 105u8, 110u8, 34u8, 58u8, 123u8, 34u8, 116u8, 97u8, 115u8, 107u8, 95u8, 105u8, 100u8, 34u8, 58u8]
}

/// The payload of this module's own renewal entry point for task `id`.
pub open spec fn renew_entry_msg(id: u64) -> Seq<u8> {
    renew_entry_prefix() + decimal_bytes(id as nat) + seq![125u8, 125u8, 125u8]
}

/// The self-call that triggers the renewal of task `id` on the module at `module_addr`.
pub open spec fn renew_entry_call(module_addr: Seq<char>, id: u64) -> CallModel {
    CallModel { contract: module_addr, msg: renew_entry_msg(id), funds: Seq::empty() }
}

/// `req` asks the scheduler to call the renewal entry point of the module at
/// `module_addr` for task `id` on `schedule`, with one action, stopping after
/// a failure, funded with the creation amount of `config` in its native denom.
pub open spec fn is_renewal_request(
    req: SchedulerRegistration,
    module_addr: Seq<char>,
    schedule: Seq<char>,
    id: u64,
    config: Config,
) -> bool {
    &&& req.tag@ == task_tag(id)
    &&& req.schedule@ == schedule
    &&& req.actions@.len() == 1
    &&& req.actions@[0].call@ == renew_entry_call(module_addr, id)
    &&& req.actions@[0].gas_limit == RENEWAL_GAS_LIMIT
    &&& req.stop_on_fail
    &&& req.funding@.map_values(|c: Coin| c@) == seq![(config.native_denom@, config.task_creation_amount)]
}

/// The payload of the renewal entry point for `task_id`.
pub fn renew_entry_payload(task_id: TaskId) -> (r: Vec<u8>)
    ensures
        r@ == renew_entry_msg(task_id.0),
{
    let mut out: Vec<u8> = vec![123u8, 34u8, 109u8, 111u8, 100u8, 117u8, 108u8, 101u8, 34u8, 58u8, 123u8, 34u8, 114u8, 101u8, 110u8, 101u8, 119u8, 95u8, 100u8, 111u8, 109u8, 97u8, 105u8, 110u8, 34u8, 58u8, 123u8, 34u8, 116u8, 97u8, 115u8, 107u8, 95u8, 105u8, 100u8, 34u8, 58u8];
    push_decimal(&mut out, task_id.0);
    out.push(125u8);
    out.push(125u8);
    out.push(125u8);
    out
}

/// The request that has the scheduler call this module's renewal entry point
/// for `task_id` on `schedule`, funded with the configured creation amount.
pub fn build_recurring_renewal(
    module_addr: &String,
    schedule: String,
    task_id: TaskId,
    config: &Config,
) -> (r: SchedulerRegistration)
    ensures
        is_renewal_request(r, module_addr@, schedule@, task_id.0, *config),
{
    let call = RemoteCall {
        contract_addr: module_addr.clone(),
        msg: renew_entry_payload(task_id),
        funds: Vec::new(),
    };
    assert(call@.funds =~= Seq::<(Seq<char>, u128)>::empty());
    let funding = vec![Coin { denom: config.native_denom.clone(), amount: config.task_creation_amount }];
    assert(funding@.map_values(|c: Coin| c@) =~= seq![(config.native_denom@, config.task_creation_amount)]);
    SchedulerRegistration {
        tag: task_id.tag(),
        schedule,
        actions: vec![ScheduledAction { call, gas_limit: RENEWAL_GAS_LIMIT }],
        stop_on_fail: true,
        funding,
    }
}

} // verus!

use vstd::prelude::*;

use crate::state::TaskId;

verus! {

/// Setup parameters: the initial counter, the name of the native asset, and
/// the funding amounts for scheduled tasks.
#[derive(Clone, Debug, PartialEq, Eq)]
pub struct AppInstantiateMsg {
    /// Initial count
    pub count: i32,
    pub native_asset: String,
    pub task_creation_amount: u128,
    pub refill_threshold: u128,
}

/// The requests the module executes.
#[derive(Clone, Debug, PartialEq, Eq)]
pub enum AppExecuteMsg {
    /// Increment count by 1
    Increment {},
    /// Admin method - reset count
    Reset {
        /// Count value after reset
        count: i32,
    },
    UpdateConfig {},
    UpdateDefaultID {},
    RegisterDomain { desired_name: String },
    RegisterDomain2 { desired_name: String },
    CreateAutoRenewalTask { frequency: String, domain_name: String },
    RenewDomain { task_id: TaskId },
    /// Not offered: answered with `Unsupported`
    CancelAutoRenewalTask { task_id: TaskId },
}

/// The queries the module answers.
#[derive(Clone, Debug, PartialEq, Eq)]
pub enum AppQueryMsg {
    Config {},
    Count {},
    NameResolution { domain_name: String },
    DefaultId { address: String },
}

#[derive(Clone, Copy, Debug, PartialEq, Eq, Structural)]
pub struct AppMigrateMsg {}

#[derive(Clone, Debug, PartialEq, Eq)]
pub struct ConfigResponse {
    /// Native gas/stake asset that is attached to scheduled tasks
    pub native_asset: String,
    /// Amount in the native asset sent to the scheduler when a task is created
    pub task_creation_amount: u128,
    /// Balance below which a task should be refilled
    pub refill_threshold: u128,
}

#[derive(Clone, Copy, Debug, PartialEq, Eq, Structural)]
pub struct CountResponse {
    pub count: i32,
}

/// The registry's answer to a record query, as the JSON it sent.
#[derive(Clone, Debug, PartialEq, Eq)]
pub struct NameResolutionResponse {
    pub query_resp: Vec<u8>,
}

#[derive(Clone, Debug, PartialEq, Eq)]
pub struct DefaultIdResponse {
    pub default_id: String,
}

} // verus!

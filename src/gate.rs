use vstd::prelude::*;

use crate::registry::TaskError;

verus! {

/// Why a request was refused.
#[derive(Clone, Debug, PartialEq, Eq)]
pub enum AppError {
    /// The caller is not the module's administrator.
    NotAdmin,
    /// The caller is not the executor that the scheduler records for the task.
    NotManager { caller: String, expected: String },
    /// The task registry refused the operation.
    Task(TaskError),
    /// The configured asset is not a native token.
    NotNativeAsset,
    /// The counter would leave the range of `i32`.
    CountOverflow,
    /// No preferred name is stored for the address.
    DefaultIdNotFound,
    /// A renewal arrived without the executor that the scheduler records.
    ExecutorUnknown,
    /// The operation is not offered.
    Unsupported,
}

/// Admits `caller` exactly when it is the executor that the scheduler reports
/// for the task; otherwise a `NotManager` error names both addresses.
pub fn authorize(caller: &String, reported_executor: &String) -> (r: Result<(), AppError>)
    ensures
        caller@ == reported_executor@ <==> r is Ok,
        caller@ != reported_executor@ ==> (r matches Err(AppError::NotManager { caller: c, expected: e })
            && c@ == caller@ && e@ == reported_executor@),
{
    if caller.eq(reported_executor) {
        Ok(())
    } else {
        Err(AppError::NotManager { caller: caller.clone(), expected: reported_executor.clone() })
    }
}

/// Admits `caller` exactly when it is the administrator.
pub fn check_admin(caller: &String, admin: &String) -> (r: Result<(), AppError>)
    ensures
        caller@ == admin@ ==> r is Ok,
        caller@ != admin@ ==> r == Err::<(), AppError>(AppError::NotAdmin),
{
    if caller.eq(admin) {
        Ok(())
    } else {
        Err(AppError::NotAdmin)
    }
}

} // verus!

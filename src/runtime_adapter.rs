//! Refers to the cached methods of the `ServiceRuntimeAdapter` class.
use vstd::prelude::*;

use crate::cache::{check_cache_initialized, JniCache};
use crate::descriptor::MethodKey;

verus! {

/// Returns the cached method handle for `ServiceRuntimeAdapter.initialize()`.
pub fn initialize_id<M: Copy, C>(cache: &JniCache<M, C>) -> (r: M)
    requires
        cache.wf(),
        cache.is_initialized(),
    ensures
        r == cache.spec_method(MethodKey::RuntimeAdapterInitialize),
{
    check_cache_initialized(cache);
    *cache.method(MethodKey::RuntimeAdapterInitialize)
}

/// Returns the cached method handle for `ServiceRuntimeAdapter.deployArtifact()`.
pub fn deploy_artifact_id<M: Copy, C>(cache: &JniCache<M, C>) -> (r: M)
    requires
        cache.wf(),
        cache.is_initialized(),
    ensures
        r == cache.spec_method(MethodKey::RuntimeAdapterDeployArtifact),
{
    check_cache_initialized(cache);
    *cache.method(MethodKey::RuntimeAdapterDeployArtifact)
}

/// Returns the cached method handle for `ServiceRuntimeAdapter.isArtifactDeployed()`.
pub fn is_artifact_deployed_id<M: Copy, C>(cache: &JniCache<M, C>) -> (r: M)
    requires
        cache.wf(),
        cache.is_initialized(),
    ensures
        r == cache.spec_method(MethodKey::RuntimeAdapterIsArtifactDeployed),
{
    check_cache_initialized(cache);
    *cache.method(MethodKey::RuntimeAdapterIsArtifactDeployed)
}

/// Returns the cached method handle for `ServiceRuntimeAdapter.initiateAddingService()`.
pub fn initiate_adding_service_id<M: Copy, C>(cache: &JniCache<M, C>) -> (r: M)
    requires
        cache.wf(),
        cache.is_initialized(),
    ensures
        r == cache.spec_method(MethodKey::RuntimeAdapterInitiateAddingService),
{
    check_cache_initialized(cache);
    *cache.method(MethodKey::RuntimeAdapterInitiateAddingService)
}

/// Returns the cached method handle for `ServiceRuntimeAdapter.initiateResumingService()`.
pub fn initiate_resuming_service_id<M: Copy, C>(cache: &JniCache<M, C>) -> (r: M)
    requires
        cache.wf(),
        cache.is_initialized(),
    ensures
        r == cache.spec_method(MethodKey::RuntimeAdapterInitiateResumingService),
{
    check_cache_initialized(cache);
    *cache.method(MethodKey::RuntimeAdapterInitiateResumingService)
}

/// Returns the cached method handle for `ServiceRuntimeAdapter.updateServiceStatus()`.
pub fn update_service_status_id<M: Copy, C>(cache: &JniCache<M, C>) -> (r: M)
    requires
        cache.wf(),
        cache.is_initialized(),
    ensures
        r == cache.spec_method(MethodKey::RuntimeAdapterUpdateServiceStatus),
{
    check_cache_initialized(cache);
    *cache.method(MethodKey::RuntimeAdapterUpdateServiceStatus)
}

/// Returns the cached method handle for `ServiceRuntimeAdapter.executeTransaction()`.
pub fn execute_tx_id<M: Copy, C>(cache: &JniCache<M, C>) -> (r: M)
    requires
        cache.wf(),
        cache.is_initialized(),
    ensures
        r == cache.spec_method(MethodKey::RuntimeAdapterExecuteTx),
{
    check_cache_initialized(cache);
    *cache.method(MethodKey::RuntimeAdapterExecuteTx)
}

/// Returns the cached method handle for `ServiceRuntimeAdapter.beforeTransactions()`.
pub fn before_transactions_id<M: Copy, C>(cache: &JniCache<M, C>) -> (r: M)
    requires
        cache.wf(),
        cache.is_initialized(),
    ensures
        r == cache.spec_method(MethodKey::RuntimeAdapterBeforeTransactions),
{
    check_cache_initialized(cache);
    *cache.method(MethodKey::RuntimeAdapterBeforeTransactions)
}

/// Returns the cached method handle for `ServiceRuntimeAdapter.afterTransactions()`.
pub fn after_transactions_id<M: Copy, C>(cache: &JniCache<M, C>) -> (r: M)
    requires
        cache.wf(),
        cache.is_initialized(),
    ensures
        r == cache.spec_method(MethodKey::RuntimeAdapterAfterTransactions),
{
    check_cache_initialized(cache);
    *cache.method(MethodKey::RuntimeAdapterAfterTransactions)
}

/// Returns the cached method handle for `ServiceRuntimeAdapter.afterCommit()`.
pub fn after_commit_id<M: Copy, C>(cache: &JniCache<M, C>) -> (r: M)
    requires
        cache.wf(),
        cache.is_initialized(),
    ensures
        r == cache.spec_method(MethodKey::RuntimeAdapterAfterCommit),
{
    check_cache_initialized(cache);
    *cache.method(MethodKey::RuntimeAdapterAfterCommit)
}

/// Returns the cached method handle for `ServiceRuntimeAdapter.shutdown()`.
pub fn shutdown_id<M: Copy, C>(cache: &JniCache<M, C>) -> (r: M)
    requires
        cache.wf(),
        cache.is_initialized(),
    ensures
        r == cache.spec_method(MethodKey::RuntimeAdapterShutdown),
{
    check_cache_initialized(cache);
    *cache.method(MethodKey::RuntimeAdapterShutdown)
}

} // verus!

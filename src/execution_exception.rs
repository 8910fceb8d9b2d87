//! Refers to the cached methods of the `ExecutionException` class.
use vstd::prelude::*;

use crate::cache::{check_cache_initialized, JniCache};
use crate::descriptor::MethodKey;

verus! {

/// Returns the cached method handle for `ExecutionException.getErrorCode()`.
pub fn get_error_code_id<M: Copy, C>(cache: &JniCache<M, C>) -> (r: M)
    requires
        cache.wf(),
        cache.is_initialized(),
    ensures
        r == cache.spec_method(MethodKey::ExecutionExceptionGetErrorCode),
{
    check_cache_initialized(cache);
    *cache.method(MethodKey::ExecutionExceptionGetErrorCode)
}

} // verus!

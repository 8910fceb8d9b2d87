//! Refers to the cached methods of the `java.lang.Throwable` class.
use vstd::prelude::*;

use crate::cache::{check_cache_initialized, JniCache};
use crate::descriptor::MethodKey;

verus! {

/// Returns the cached method handle for `java.lang.Throwable.getMessage()`.
pub fn get_message_id<M: Copy, C>(cache: &JniCache<M, C>) -> (r: M)
    requires
        cache.wf(),
        cache.is_initialized(),
    ensures
        r == cache.spec_method(MethodKey::ThrowableGetMessage),
{
    check_cache_initialized(cache);
    *cache.method(MethodKey::ThrowableGetMessage)
}

/// Returns the cached method handle for `java.lang.Throwable.getCause()`.
pub fn get_cause_id<M: Copy, C>(cache: &JniCache<M, C>) -> (r: M)
    requires
        cache.wf(),
        cache.is_initialized(),
    ensures
        r == cache.spec_method(MethodKey::ThrowableGetCause),
{
    check_cache_initialized(cache);
    *cache.method(MethodKey::ThrowableGetCause)
}

} // verus!

//! Refers to the cached methods of the `java.lang.Object` class.
use vstd::prelude::*;

use crate::cache::{check_cache_initialized, JniCache};
use crate::descriptor::MethodKey;

verus! {

/// Returns the cached method handle for `java.lang.Object.getClass()`.
pub fn get_class_id<M: Copy, C>(cache: &JniCache<M, C>) -> (r: M)
    requires
        cache.wf(),
        cache.is_initialized(),
    ensures
        r == cache.spec_method(MethodKey::ObjectGetClass),
{
    check_cache_initialized(cache);
    *cache.method(MethodKey::ObjectGetClass)
}

} // verus!

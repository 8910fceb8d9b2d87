//! Refers to the cached methods of the `java.lang.Class` class.
use vstd::prelude::*;

use crate::cache::{check_cache_initialized, JniCache};
use crate::descriptor::MethodKey;

verus! {

/// Returns the cached method handle for `java.lang.Class.getName()`.
pub fn get_name_id<M: Copy, C>(cache: &JniCache<M, C>) -> (r: M)
    requires
        cache.wf(),
        cache.is_initialized(),
    ensures
        r == cache.spec_method(MethodKey::ClassGetName),
{
    check_cache_initialized(cache);
    *cache.method(MethodKey::ClassGetName)
}

} // verus!

//! Provides access to the cached class references.
use vstd::prelude::*;

use crate::cache::{check_cache_initialized, JniCache};
use crate::descriptor::ClassKey;

verus! {

/// Returns the cached global reference to the class `java/lang/Error`.
pub fn java_lang_error<M, C>(cache: &JniCache<M, C>) -> (r: &C)
    requires
        cache.wf(),
        cache.is_initialized(),
    ensures
        *r == cache.spec_class(ClassKey::JavaLangError),
{
    check_cache_initialized(cache);
    cache.class(ClassKey::JavaLangError)
}

/// Returns the cached global reference to the class `java/lang/RuntimeException`.
pub fn java_lang_runtime_exception<M, C>(cache: &JniCache<M, C>) -> (r: &C)
    requires
        cache.wf(),
        cache.is_initialized(),
    ensures
        *r == cache.spec_class(ClassKey::JavaLangRuntimeException),
{
    check_cache_initialized(cache);
    cache.class(ClassKey::JavaLangRuntimeException)
}

/// Returns the cached global reference to the class `java/lang/IllegalArgumentException`.
pub fn java_lang_illegal_argument_exception<M, C>(cache: &JniCache<M, C>) -> (r: &C)
    requires
        cache.wf(),
        cache.is_initialized(),
    ensures
        *r == cache.spec_class(ClassKey::JavaLangIllegalArgumentException),
{
    check_cache_initialized(cache);
    cache.class(ClassKey::JavaLangIllegalArgumentException)
}

/// Returns the cached global reference to the class `ExecutionException`.
pub fn execution_exception<M, C>(cache: &JniCache<M, C>) -> (r: &C)
    requires
        cache.wf(),
        cache.is_initialized(),
    ensures
        *r == cache.spec_class(ClassKey::ExecutionException),
{
    check_cache_initialized(cache);
    cache.class(ClassKey::ExecutionException)
}

/// Returns the cached global reference to the class `UnexpectedExecutionException`.
pub fn unexpected_execution_exception<M, C>(cache: &JniCache<M, C>) -> (r: &C)
    requires
        cache.wf(),
        cache.is_initialized(),
    ensures
        *r == cache.spec_class(ClassKey::UnexpectedExecutionException),
{
    check_cache_initialized(cache);
    cache.class(ClassKey::UnexpectedExecutionException)
}

} // verus!

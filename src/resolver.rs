//! Resolution of the cached symbols against a running JVM.
use vstd::prelude::*;

use jni::objects::{GlobalRef, JClass, JMethodID};
use jni::JNIEnv;

use crate::cache::{InitError, JniCache};
use crate::descriptor::{ClassKey, MethodKey, CLASS_COUNT, METHOD_COUNT};
use crate::guard::{begin_step, BeginAction, InitPhase};
use crate::table::resolved_prefix;

verus! {

/// `jni::JNIEnv`: the JNI interface of the current thread, carried opaquely.
#[verifier::external_type_specification]
#[verifier::external_body]
pub struct ExJNIEnv<'local>(JNIEnv<'local>);

/// `jni::objects::JClass`: a local reference to a class, carried opaquely.
#[verifier::external_type_specification]
#[verifier::external_body]
pub struct ExJClass<'local>(JClass<'local>);

/// `jni::objects::JMethodID`: a resolved method handle, carried opaquely.
#[verifier::external_type_specification]
#[verifier::external_body]
pub struct ExJMethodID(JMethodID);

/// `jni::objects::GlobalRef`: a global reference, carried opaquely.
#[verifier::external_type_specification]
#[verifier::external_body]
pub struct ExGlobalRef(GlobalRef);

/// Status returned to the JVM when loading the library failed.
pub const INVALID_JNI_VERSION: i32 = 0;

/// The JNI version that this library asks for on success.
pub const SUPPORTED_JNI_VERSION: i32 = 0x0001_0008;

/// Relies on `jni::sys::JNI_VERSION_1_8`, the JNI 1.8 version code `0x00010008`.
#[verifier::external_body]
fn jni_version_1_8() -> (r: i32)
    ensures
        r == SUPPORTED_JNI_VERSION,
{
    jni::sys::JNI_VERSION_1_8
}

/// Relies on `JNIEnv::get_method_id`: looks up an instance method by class name,
/// method name and signature; any error (class or method not found) becomes
/// `None`. The outcome depends on the classes that the JVM has loaded.
#[verifier::external_body]
fn get_method_id(env: &mut JNIEnv, class: &str, name: &str, sig: &str) -> Option<JMethodID> {
    env.get_method_id(class, name, sig).ok()
}

/// Relies on `JNIEnv::find_class`: finds a class by its internal name; any error
/// becomes `None`. The outcome depends on the classes that the JVM can load.
#[verifier::external_body]
fn find_class<'local>(env: &mut JNIEnv<'local>, name: &str) -> Option<JClass<'local>> {
    env.find_class(name).ok()
}

/// Relies on `JNIEnv::new_global_ref`: makes a global reference, valid across
/// calls and threads, to a class; any error becomes `None`.
#[verifier::external_body]
fn new_global_ref(env: &JNIEnv, class: &JClass) -> Option<GlobalRef> {
    env.new_global_ref(class).ok()
}

/// The shape of lookup results that end at the first failure: at most `n`
/// results, every result but the last present, and fewer than `n` only when
/// the last one is absent.
pub open spec fn stops_at_first_failure<T>(s: Seq<Option<T>>, n: nat) -> bool {
    &&& s.len() <= n
    &&& resolved_prefix(s, (if s.len() == 0 { 0 } else { s.len() - 1 }) as nat)
    &&& s.len() < n ==> (s.len() > 0 && s.last() is None)
}

/// Looks up every cached method, in key order, stopping at the first that does
/// not resolve.
pub fn lookup_methods(env: &mut JNIEnv) -> (r: Vec<Option<JMethodID>>)
    ensures
        stops_at_first_failure(r@, METHOD_COUNT as nat),
{
    let mut out: Vec<Option<JMethodID>> = Vec::new();
    let mut i: usize = 0;
    while i < METHOD_COUNT
        invariant
            i <= METHOD_COUNT,
            out@.len() == i,
            resolved_prefix(out@, i as nat),
        decreases METHOD_COUNT - i,
    {
        let d = MethodKey::at(i).descriptor();
        let id = get_method_id(env, d.class, d.name, d.sig);
        let failed = id.is_none();
        out.push(id);
        if failed {
            return out;
        }
        i = i + 1;
    }
    out
}

/// Looks up every cached class and makes a global reference to it, in key
/// order, stopping at the first that does not resolve.
pub fn lookup_classes(env: &mut JNIEnv) -> (r: Vec<Option<GlobalRef>>)
    ensures
        stops_at_first_failure(r@, CLASS_COUNT as nat),
{
    let mut out: Vec<Option<GlobalRef>> = Vec::new();
    let mut i: usize = 0;
    while i < CLASS_COUNT
        invariant
            i <= CLASS_COUNT,
            out@.len() == i,
            resolved_prefix(out@, i as nat),
        decreases CLASS_COUNT - i,
    {
        let name = ClassKey::at(i).class_name();
        let global = match find_class(env, name) {
            Some(class) => new_global_ref(env, &class),
            None => None,
        };
        let failed = global.is_none();
        out.push(global);
        if failed {
            return out;
        }
        i = i + 1;
    }
    out
}

/// Initializes `cache` from the JVM of `env`, unless a run has already started.
///
/// Only a caller that finds the cache uninitialized resolves anything: it looks
/// up every method, then every class, in key order, and stops at the first
/// symbol that does not resolve, which aborts the cache for good. A cache that
/// is already initialized is left exactly as it was.
pub fn init_cache(cache: &mut JniCache<JMethodID, GlobalRef>, env: &mut JNIEnv) -> (r: Result<(), InitError>)
    requires
        old(cache).wf(),
    ensures
        final(cache).wf(),
        r is Ok <==> final(cache).is_initialized(),
        old(cache).phase() is Uninitialized ==> (final(cache).phase() is Done || final(cache).phase() is Aborted),
        old(cache).phase() is Uninitialized && r is Err ==> r->Err_0 is Missing,
        !(old(cache).phase() is Uninitialized) ==> *final(cache) == *old(cache),
        old(cache).phase() is Running ==> r == Err::<(), InitError>(InitError::InProgress),
        old(cache).phase() is Aborted ==> r == Err::<(), InitError>(InitError::Aborted),
{
    match cache.begin() {
        BeginAction::Perform => {
            let methods = lookup_methods(env);
            let classes = if methods.len() == METHOD_COUNT && methods[METHOD_COUNT - 1].is_some() {
                lookup_classes(env)
            } else {
                Vec::new()
            };
            cache.finish_with(methods, classes)
        },
        BeginAction::Ready => Ok(()),
        BeginAction::Wait => Err(InitError::InProgress),
        BeginAction::Fatal => Err(InitError::Aborted),
    }
}

/// The status that the library reports to the JVM once loading has ended: the
/// supported JNI version when the cache is initialized, else the failure
/// sentinel.
pub fn load_status(initialized: bool) -> (r: i32)
    ensures
        r == if initialized {
            SUPPORTED_JNI_VERSION
        } else {
            INVALID_JNI_VERSION
        },
{
    if initialized {
        jni_version_1_8()
    } else {
        INVALID_JNI_VERSION
    }
}

/// What the library does when the JVM loads it: initializes `cache` and reports
/// the supported JNI version, or the failure sentinel where the cache did not
/// become readable.
pub fn on_load(cache: &mut JniCache<JMethodID, GlobalRef>, env: &mut JNIEnv) -> (r: i32)
    requires
        old(cache).wf(),
    ensures
        final(cache).wf(),
        r == if final(cache).is_initialized() {
            SUPPORTED_JNI_VERSION
        } else {
            INVALID_JNI_VERSION
        },
        old(cache).phase() is Uninitialized ==> (final(cache).phase() is Done || final(cache).phase() is Aborted),
        !(old(cache).phase() is Uninitialized) ==> *final(cache) == *old(cache),
{
    let r = init_cache(cache, env);
    load_status(r.is_ok())
}

} // verus!

use jni_cache::cache::{check_cache_initialized, is_cache_initialized, InitError, JniCache};
use jni_cache::class::get_name_id;
use jni_cache::classes_refs::{
    execution_exception, java_lang_error, java_lang_illegal_argument_exception,
    java_lang_runtime_exception, unexpected_execution_exception,
};
use jni_cache::descriptor::{ClassKey, MethodKey, CLASS_COUNT, METHOD_COUNT};
use jni_cache::execution_exception::get_error_code_id;
use jni_cache::guard::{begin, step, BeginAction, GuardEvent, InitPhase};
use jni_cache::object::get_class_id;
use jni_cache::resolver::{load_status, INVALID_JNI_VERSION, SUPPORTED_JNI_VERSION};
use jni_cache::runtime_adapter::{
    after_commit_id, after_transactions_id, before_transactions_id, deploy_artifact_id,
    execute_tx_id, initialize_id, initiate_adding_service_id, initiate_resuming_service_id,
    is_artifact_deployed_id, shutdown_id, update_service_status_id,
};
use jni_cache::table::{MissingSymbol, SymbolTable};

fn all_methods() -> Vec<Option<u64>> {
    (0..METHOD_COUNT as u64).map(|i| Some(100 + i)).collect()
}

fn all_classes() -> Vec<Option<u32>> {
    (0..CLASS_COUNT as u32).map(|i| Some(500 + i)).collect()
}

fn initialized_cache() -> JniCache<u64, u32> {
    let mut cache = JniCache::new();
    assert_eq!(cache.begin(), BeginAction::Perform);
    assert_eq!(cache.finish_with(all_methods(), all_classes()), Ok(()));
    cache
}

#[test]
fn full_descriptor_set_loads_and_serves_every_handle() {
    let cache = initialized_cache();
    assert!(is_cache_initialized(&cache));
    check_cache_initialized(&cache);
    assert_eq!(load_status(is_cache_initialized(&cache)), SUPPORTED_JNI_VERSION);
    assert_eq!(SUPPORTED_JNI_VERSION, 0x0001_0008);
    assert_eq!(get_class_id(&cache), 100);
    assert_eq!(get_name_id(&cache), 101);
    assert_eq!(jni_cache::throwable::get_message_id(&cache), 102);
    assert_eq!(jni_cache::throwable::get_cause_id(&cache), 103);
    assert_eq!(get_error_code_id(&cache), 104);
    assert_eq!(initialize_id(&cache), 105);
    assert_eq!(deploy_artifact_id(&cache), 106);
    assert_eq!(is_artifact_deployed_id(&cache), 107);
    assert_eq!(initiate_adding_service_id(&cache), 108);
    assert_eq!(initiate_resuming_service_id(&cache), 109);
    assert_eq!(update_service_status_id(&cache), 110);
    assert_eq!(execute_tx_id(&cache), 111);
    assert_eq!(before_transactions_id(&cache), 112);
    assert_eq!(after_transactions_id(&cache), 113);
    assert_eq!(after_commit_id(&cache), 114);
    assert_eq!(shutdown_id(&cache), 115);
    assert_eq!(*java_lang_error(&cache), 500);
    assert_eq!(*java_lang_runtime_exception(&cache), 501);
    assert_eq!(*java_lang_illegal_argument_exception(&cache), 502);
    assert_eq!(*execution_exception(&cache), 503);
    assert_eq!(*unexpected_execution_exception(&cache), 504);
}

#[test]
fn wrong_shutdown_signature_fails_load() {
    let mut methods = all_methods();
    methods[MethodKey::RuntimeAdapterShutdown.index()] = None;
    let mut cache: JniCache<u64, u32> = JniCache::new();
    assert_eq!(cache.begin(), BeginAction::Perform);
    let r = cache.finish_with(methods, all_classes());
    assert_eq!(
        r,
        Err(InitError::Missing(MissingSymbol::Method(MethodKey::RuntimeAdapterShutdown)))
    );
    assert!(!is_cache_initialized(&cache));
    assert_eq!(load_status(is_cache_initialized(&cache)), INVALID_JNI_VERSION);
    assert_eq!(INVALID_JNI_VERSION, 0);
    assert_eq!(cache.get_phase(), InitPhase::Aborted);
    assert_eq!(cache.begin(), BeginAction::Fatal);
    assert!(!is_cache_initialized(&cache));
}

#[test]
fn shutdown_descriptor_is_void_no_arg() {
    let d = MethodKey::RuntimeAdapterShutdown.descriptor();
    assert_eq!(d.class, "com/exonum/binding/core/runtime/ServiceRuntimeAdapter");
    assert_eq!(d.name, "shutdown");
    assert_eq!(d.sig, "()V");
    let e = MethodKey::RuntimeAdapterExecuteTx.descriptor();
    assert_eq!(e.name, "executeTransaction");
    assert_eq!(e.sig, "(ILjava/lang/String;I[BJI[B[B)V");
    assert_eq!(ClassKey::UnexpectedExecutionException.class_name(),
        "com/exonum/binding/core/runtime/UnexpectedExecutionException");
}

#[test]
fn keys_round_trip_through_their_index() {
    for i in 0..METHOD_COUNT {
        assert_eq!(MethodKey::at(i).index(), i);
    }
    for i in 0..CLASS_COUNT {
        assert_eq!(ClassKey::at(i).index(), i);
    }
    assert_eq!(MethodKey::at(0), MethodKey::ObjectGetClass);
    assert_eq!(ClassKey::at(4), ClassKey::UnexpectedExecutionException);
}

#[test]
fn second_initialization_is_a_no_op() {
    let mut cache = initialized_cache();
    assert_eq!(cache.begin(), BeginAction::Ready);
    assert_eq!(cache.get_phase(), InitPhase::Done);
    assert_eq!(shutdown_id(&cache), 115);
    assert_eq!(*java_lang_error(&cache), 500);
}

#[test]
fn only_first_of_many_callers_performs() {
    let mut cache: JniCache<u64, u32> = JniCache::new();
    let actions: Vec<BeginAction> = (0..8).map(|_| cache.begin()).collect();
    assert_eq!(actions.iter().filter(|a| **a == BeginAction::Perform).count(), 1);
    assert_eq!(actions[0], BeginAction::Perform);
    assert!(actions[1..].iter().all(|a| *a == BeginAction::Wait));
    assert_eq!(cache.finish_with(all_methods(), all_classes()), Ok(()));
    assert_eq!(cache.begin(), BeginAction::Ready);
}

#[test]
fn accessors_unavailable_before_initialization() {
    let mut cache: JniCache<u64, u32> = JniCache::new();
    assert!(!is_cache_initialized(&cache));
    assert_eq!(cache.begin(), BeginAction::Perform);
    assert!(!is_cache_initialized(&cache));
    assert_eq!(cache.get_phase(), InitPhase::Running);
}

#[test]
fn guard_transitions() {
    assert_eq!(begin(InitPhase::Uninitialized), (InitPhase::Running, BeginAction::Perform));
    assert_eq!(begin(InitPhase::Running), (InitPhase::Running, BeginAction::Wait));
    assert_eq!(begin(InitPhase::Done), (InitPhase::Done, BeginAction::Ready));
    assert_eq!(begin(InitPhase::Aborted), (InitPhase::Aborted, BeginAction::Fatal));
    assert_eq!(step(InitPhase::Running, GuardEvent::Succeed), InitPhase::Done);
    assert_eq!(step(InitPhase::Running, GuardEvent::Fail), InitPhase::Aborted);
    assert_eq!(step(InitPhase::Done, GuardEvent::Fail), InitPhase::Done);
    assert_eq!(step(InitPhase::Uninitialized, GuardEvent::Succeed), InitPhase::Uninitialized);
}

#[test]
fn missing_class_is_reported_after_all_methods() {
    let mut classes = all_classes();
    classes[2] = None;
    classes[3] = None;
    let r = SymbolTable::from_lookups(all_methods(), classes);
    assert_eq!(
        r.err(),
        Some(MissingSymbol::Class(ClassKey::JavaLangIllegalArgumentException))
    );
}

#[test]
fn first_missing_method_wins() {
    let mut methods = all_methods();
    methods[7] = None;
    methods[3] = None;
    let r = SymbolTable::<u64, u32>::from_lookups(methods, Vec::new());
    assert_eq!(r.err(), Some(MissingSymbol::Method(MethodKey::ThrowableGetCause)));
}

#[test]
fn short_lookup_list_names_next_key() {
    let methods: Vec<Option<u64>> = vec![Some(1), Some(2)];
    let r = SymbolTable::<u64, u32>::from_lookups(methods, all_classes());
    assert_eq!(r.err(), Some(MissingSymbol::Method(MethodKey::ThrowableGetMessage)));
    let r2 = SymbolTable::<u64, u32>::from_lookups(all_methods(), Vec::new());
    assert_eq!(r2.err(), Some(MissingSymbol::Class(ClassKey::JavaLangError)));
}

#[test]
fn table_keeps_lookup_order() {
    let t = SymbolTable::from_lookups(all_methods(), all_classes()).ok().unwrap();
    assert_eq!(*t.method(MethodKey::RuntimeAdapterAfterCommit), 114);
    assert_eq!(*t.class(ClassKey::ExecutionException), 503);
}

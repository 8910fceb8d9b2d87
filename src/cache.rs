//! The handle cache: a guard and, once initialization is done, a full table.
use vstd::prelude::*;

use crate::descriptor::{ClassKey, MethodKey, CLASS_COUNT, METHOD_COUNT};
use crate::guard::{begin, begin_step, step, lemma_abort_is_terminal, next_phase, run, BeginAction, GuardEvent, InitPhase};
use crate::table::{resolved_prefix, unresolved_at, MissingSymbol, SymbolTable};

verus! {

/// Why a call to initialize did not leave the cache readable.
#[derive(Clone, Copy, Debug, PartialEq, Eq, Structural)]
pub enum InitError {
    /// This run failed: the symbol could not be resolved.
    Missing(MissingSymbol),
    /// Another caller's run has not finished.
    InProgress,
    /// An earlier run failed.
    Aborted,
}

/// The process-wide handle cache, generic over the method handle type `M` and
/// the class reference type `C`.
#[verifier::reject_recursive_types(M)]
#[verifier::reject_recursive_types(C)]
pub struct JniCache<M, C> {
    phase: InitPhase,
    table: Option<SymbolTable<M, C>>,
}

impl<M, C> JniCache<M, C> {
    /// Where initialization stands.
    pub closed spec fn phase(&self) -> InitPhase {
        self.phase
    }

    /// The table, present once initialization is done.
    pub closed spec fn table(&self) -> Option<SymbolTable<M, C>> {
        self.table
    }

    /// A table is held exactly when initialization is done, and it is full.
    pub open spec fn wf(&self) -> bool {
        &&& (self.phase() is Done <==> self.table() is Some)
        &&& (self.table() matches Some(t) ==> t.wf())
    }

    /// Initialization has completed: every accessor may be used.
    pub open spec fn is_initialized(&self) -> bool {
        self.phase() is Done
    }

    /// The handle that the cache serves for method `k`.
    pub open spec fn spec_method(&self, k: MethodKey) -> M {
        self.table()->Some_0.spec_method(k)
    }

    /// The reference that the cache serves for class `k`.
    pub open spec fn spec_class(&self, k: ClassKey) -> C {
        self.table()->Some_0.spec_class(k)
    }

    /// An empty cache that nobody has started to initialize.
    pub fn new() -> (r: Self)
        ensures
            r.wf(),
            r.phase() is Uninitialized,
    {
        JniCache { phase: InitPhase::Uninitialized, table: None }
    }

    /// Where initialization stands.
    pub fn get_phase(&self) -> (r: InitPhase)
        ensures
            r == self.phase(),
    {
        self.phase
    }

    /// A caller asks to initialize: the guard moves as [`begin_step`] says and
    /// tells the caller what to do. The table is left as it was.
    pub fn begin(&mut self) -> (r: BeginAction)
        requires
            old(self).wf(),
        ensures
            final(self).wf(),
            (final(self).phase(), r) == begin_step(old(self).phase()),
            final(self).table() == old(self).table(),
            !(old(self).phase() is Uninitialized) ==> *final(self) == *old(self),
    {
        let (p, a) = begin(self.phase);
        self.phase = p;
        a
    }

    /// Ends the run that this caller was told to perform, with the lookup results
    /// of every method and class in key order (a lookup that was not made may be
    /// left out at the end).
    ///
    /// When every symbol resolved, the cache becomes readable and serves exactly
    /// those handles; otherwise it is aborted for good and the first missing
    /// symbol is returned.
    pub fn finish_with(&mut self, methods: Vec<Option<M>>, classes: Vec<Option<C>>) -> (r: Result<(), InitError>)
        requires
            old(self).wf(),
            old(self).phase() is Running,
        ensures
            final(self).wf(),
            r is Ok <==> (resolved_prefix(methods@, METHOD_COUNT as nat) && resolved_prefix(
                classes@,
                CLASS_COUNT as nat,
            )),
            final(self).phase() == next_phase(
                old(self).phase(),
                if r is Ok {
                    GuardEvent::Succeed
                } else {
                    GuardEvent::Fail
                },
            ),
            r is Ok ==> final(self).table()->Some_0.built_from(methods@, classes@),
            r is Err ==> r->Err_0 is Missing,
            r matches Err(InitError::Missing(MissingSymbol::Method(k))) ==> exists|i: nat|
                i < METHOD_COUNT && k == MethodKey::spec_at(i) && resolved_prefix(methods@, i) && unresolved_at(methods@, i),
            r matches Err(InitError::Missing(MissingSymbol::Class(k))) ==> resolved_prefix(methods@, METHOD_COUNT as nat) && exists|i: nat|
                i < CLASS_COUNT && k == ClassKey::spec_at(i) && resolved_prefix(classes@, i) && unresolved_at(classes@, i),
    {
        match SymbolTable::from_lookups(methods, classes) {
            Ok(t) => {
                self.table = Some(t);
                self.phase = step(self.phase, GuardEvent::Succeed);
                Ok(())
            },
            Err(e) => {
                self.phase = step(self.phase, GuardEvent::Fail);
                Err(InitError::Missing(e))
            },
        }
    }

    /// The handle cached for method `k`.
    pub fn method(&self, k: MethodKey) -> (r: &M)
        requires
            self.wf(),
            self.is_initialized(),
        ensures
            *r == self.spec_method(k),
    {
        self.table.as_ref().unwrap().method(k)
    }

    /// The reference cached for class `k`.
    pub fn class(&self, k: ClassKey) -> (r: &C)
        requires
            self.wf(),
            self.is_initialized(),
        ensures
            *r == self.spec_class(k),
    {
        self.table.as_ref().unwrap().class(k)
    }
}

/// Whether `cache` has completed initialization, so that its accessors may be
/// used.
pub fn is_cache_initialized<M, C>(cache: &JniCache<M, C>) -> (r: bool)
    ensures
        r == cache.is_initialized(),
{
    cache.get_phase() == InitPhase::Done
}

/// Asserts that `cache` has completed initialization. Using the cache before
/// that, while a run is in progress, or after a failed run is excluded: such a
/// caller must fail instead of reaching this point.
pub fn check_cache_initialized<M, C>(cache: &JniCache<M, C>)
    requires
        cache.is_initialized(),
    ensures
        cache.is_initialized(),
{
    let initialized = is_cache_initialized(cache);
    assert(initialized);
}

/// An aborted cache is never readable: no accessor is admitted on it, now or
/// after any later sequence of events on its guard.
pub proof fn lemma_aborted_cache_admits_no_accessor<M, C>(cache: JniCache<M, C>, events: Seq<GuardEvent>)
    requires
        cache.phase() is Aborted,
    ensures
        !cache.is_initialized(),
        !(run(cache.phase(), events) is Done),
{
    lemma_abort_is_terminal(events);
}

/// A run in which the lookup of some method fails cannot succeed, and after
/// it no sequence of events makes the cache readable.
pub proof fn lemma_failed_lookup_never_serves<M, C>(
    methods: Seq<Option<M>>,
    classes: Seq<Option<C>>,
    k: MethodKey,
    events: Seq<GuardEvent>,
)
    requires
        k.spec_index() < methods.len(),
        methods[k.spec_index() as int] is None,
    ensures
        !resolved_prefix(methods, METHOD_COUNT as nat),
        next_phase(InitPhase::Running, GuardEvent::Fail) is Aborted,
        !(run(next_phase(InitPhase::Running, GuardEvent::Fail), events) is Done),
{
    assert(!(methods[k.spec_index() as int] is Some));
    lemma_abort_is_terminal(events);
}

} // verus!

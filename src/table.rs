//! The resolved handles, one slot per cached key.
use vstd::prelude::*;

use crate::descriptor::{ClassKey, MethodKey, CLASS_COUNT, METHOD_COUNT};

verus! {

/// The first symbol, in resolution order, that could not be resolved.
#[derive(Clone, Copy, Debug, PartialEq, Eq, Structural)]
pub enum MissingSymbol {
    Method(MethodKey),
    Class(ClassKey),
}

/// The first `n` lookups are all present.
pub open spec fn resolved_prefix<T>(s: Seq<Option<T>>, n: nat) -> bool {
    n <= s.len() && forall|i: int| 0 <= i < n ==> (#[trigger] s[i]) is Some
}

/// Lookup `i` is absent, or was never made.
pub open spec fn unresolved_at<T>(s: Seq<Option<T>>, i: nat) -> bool {
    i >= s.len() || s[i as int] is None
}

/// Resolved handles: one method handle per [`MethodKey`] and one class reference
/// per [`ClassKey`], in key order.
#[verifier::reject_recursive_types(M)]
#[verifier::reject_recursive_types(C)]
pub struct SymbolTable<M, C> {
    methods: Vec<M>,
    classes: Vec<C>,
}

impl<M, C> SymbolTable<M, C> {
    /// The method handles, in key order.
    pub closed spec fn method_seq(&self) -> Seq<M> {
        self.methods@
    }

    /// The class references, in key order.
    pub closed spec fn class_seq(&self) -> Seq<C> {
        self.classes@
    }

    /// Every key has exactly one slot.
    pub open spec fn wf(&self) -> bool {
        self.method_seq().len() == METHOD_COUNT && self.class_seq().len() == CLASS_COUNT
    }

    /// The handle held for method `k`.
    pub open spec fn spec_method(&self, k: MethodKey) -> M {
        self.method_seq()[k.spec_index() as int]
    }

    /// The reference held for class `k`.
    pub open spec fn spec_class(&self, k: ClassKey) -> C {
        self.class_seq()[k.spec_index() as int]
    }

    /// The table holds exactly the present values of the first lookups.
    pub open spec fn built_from(&self, methods: Seq<Option<M>>, classes: Seq<Option<C>>) -> bool {
        &&& self.wf()
        &&& forall|i: int| 0 <= i < METHOD_COUNT ==> methods[i] == Some(#[trigger] self.method_seq()[i])
        &&& forall|i: int| 0 <= i < CLASS_COUNT ==> classes[i] == Some(#[trigger] self.class_seq()[i])
    }

    /// Builds the table from lookup results given in key order.
    ///
    /// Succeeds exactly when the first lookup of every key is present; otherwise
    /// names the first key, methods before classes, whose lookup is absent or
    /// missing. Lookups beyond the last key are ignored.
    pub fn from_lookups(methods: Vec<Option<M>>, classes: Vec<Option<C>>) -> (r: Result<Self, MissingSymbol>)
        ensures
            r is Ok <==> (resolved_prefix(methods@, METHOD_COUNT as nat) && resolved_prefix(
                classes@,
                CLASS_COUNT as nat,
            )),
            r matches Ok(t) ==> t.built_from(methods@, classes@),
            r matches Err(MissingSymbol::Method(k)) ==> exists|i: nat|
                i < METHOD_COUNT && k == MethodKey::spec_at(i) && resolved_prefix(methods@, i) && unresolved_at(methods@, i),
            r matches Err(MissingSymbol::Class(k)) ==> resolved_prefix(methods@, METHOD_COUNT as nat) && exists|i: nat|
                i < CLASS_COUNT && k == ClassKey::spec_at(i) && resolved_prefix(classes@, i) && unresolved_at(classes@, i),
    {
        let mut i: usize = 0;
        while i < METHOD_COUNT
            invariant
                i <= METHOD_COUNT,
                resolved_prefix(methods@, i as nat),
            decreases METHOD_COUNT - i,
        {
            if i >= methods.len() || methods[i].is_none() {
                return Err(MissingSymbol::Method(MethodKey::at(i)));
            }
            i = i + 1;
        }
        let mut j: usize = 0;
        while j < CLASS_COUNT
            invariant
                j <= CLASS_COUNT,
                resolved_prefix(methods@, METHOD_COUNT as nat),
                resolved_prefix(classes@, j as nat),
            decreases CLASS_COUNT - j,
        {
            if j >= classes.len() || classes[j].is_none() {
                return Err(MissingSymbol::Class(ClassKey::at(j)));
            }
            j = j + 1;
        }
        let ghost methods0 = methods@;
        let ghost classes0 = classes@;
        let mut methods = methods;
        let mut classes = classes;
        let mut out_methods: Vec<M> = Vec::new();
        let mut k: usize = 0;
        while k < METHOD_COUNT
            invariant
                k <= METHOD_COUNT,
                resolved_prefix(methods0, METHOD_COUNT as nat),
                methods@ == methods0.subrange(k as int, methods0.len() as int),
                out_methods@.len() == k,
                forall|t: int| 0 <= t < k ==> methods0[t] == Some(#[trigger] out_methods@[t]),
            decreases METHOD_COUNT - k,
        {
            let slot = methods.remove(0);
            assert(slot == methods0[k as int]);
            if let Some(m) = slot {
                out_methods.push(m);
            }
            k = k + 1;
        }
        let mut out_classes: Vec<C> = Vec::new();
        let mut c: usize = 0;
        while c < CLASS_COUNT
            invariant
                c <= CLASS_COUNT,
                resolved_prefix(classes0, CLASS_COUNT as nat),
                classes@ == classes0.subrange(c as int, classes0.len() as int),
                out_classes@.len() == c,
                forall|t: int| 0 <= t < c ==> classes0[t] == Some(#[trigger] out_classes@[t]),
            decreases CLASS_COUNT - c,
        {
            let slot = classes.remove(0);
            assert(slot == classes0[c as int]);
            if let Some(x) = slot {
                out_classes.push(x);
            }
            c = c + 1;
        }
        Ok(SymbolTable { methods: out_methods, classes: out_classes })
    }

    /// The handle held for method `k`.
    pub fn method(&self, k: MethodKey) -> (r: &M)
        requires
            self.wf(),
        ensures
            *r == self.spec_method(k),
    {
        &self.methods[k.index()]
    }

    /// The reference held for class `k`.
    pub fn class(&self, k: ClassKey) -> (r: &C)
        requires
            self.wf(),
        ensures
            *r == self.spec_class(k),
    {
        &self.classes[k.index()]
    }
}

/// Every handle that a table built from lookups serves is the value of a
/// lookup that succeeded, for that same key.
pub proof fn lemma_served_handles_come_from_lookups<M, C>(
    t: SymbolTable<M, C>,
    methods: Seq<Option<M>>,
    classes: Seq<Option<C>>,
    mk: MethodKey,
    ck: ClassKey,
)
    requires
        t.built_from(methods, classes),
    ensures
        methods[mk.spec_index() as int] == Some(t.spec_method(mk)),
        classes[ck.spec_index() as int] == Some(t.spec_class(ck)),
{
    assert(methods[mk.spec_index() as int] == Some(t.method_seq()[mk.spec_index() as int]));
    assert(classes[ck.spec_index() as int] == Some(t.class_seq()[ck.spec_index() as int]));
}

} // verus!

//! The fixed set of cached symbols and their Java descriptors.
use vstd::prelude::*;

verus! {

/// Number of cached method handles.
pub const METHOD_COUNT: usize = 16;

/// Number of cached class references.
pub const CLASS_COUNT: usize = 5;

/// Internal name of the class that adapts the service runtime to native code.
pub const SERVICE_RUNTIME_ADAPTER_CLASS: &'static str = "com/exonum/binding/core/runtime/ServiceRuntimeAdapter";

/// Symbolic identity of a method: owning class, method name and JNI signature.
#[derive(Clone, Copy, Debug, PartialEq, Eq)]
pub struct MethodDescriptor {
    pub class: &'static str,
    pub name: &'static str,
    pub sig: &'static str,
}

/// One key per cached method handle, in resolution order.
#[derive(Clone, Copy, Debug, PartialEq, Eq, Structural)]
pub enum MethodKey {
    ObjectGetClass,
    ClassGetName,
    ThrowableGetMessage,
    ThrowableGetCause,
    ExecutionExceptionGetErrorCode,
    RuntimeAdapterInitialize,
    RuntimeAdapterDeployArtifact,
    RuntimeAdapterIsArtifactDeployed,
    RuntimeAdapterInitiateAddingService,
    RuntimeAdapterInitiateResumingService,
    RuntimeAdapterUpdateServiceStatus,
    RuntimeAdapterExecuteTx,
    RuntimeAdapterBeforeTransactions,
    RuntimeAdapterAfterTransactions,
    RuntimeAdapterAfterCommit,
    RuntimeAdapterShutdown,
}

/// One key per cached class reference, in resolution order.
#[derive(Clone, Copy, Debug, PartialEq, Eq, Structural)]
pub enum ClassKey {
    JavaLangError,
    JavaLangRuntimeException,
    JavaLangIllegalArgumentException,
    ExecutionException,
    UnexpectedExecutionException,
}

impl MethodKey {
    /// Position of the key in resolution order.
    pub open spec fn spec_index(self) -> nat {
        match self {
            MethodKey::ObjectGetClass => 0,
            MethodKey::ClassGetName => 1,
            MethodKey::ThrowableGetMessage => 2,
            MethodKey::ThrowableGetCause => 3,
            MethodKey::ExecutionExceptionGetErrorCode => 4,
            MethodKey::RuntimeAdapterInitialize => 5,
            MethodKey::RuntimeAdapterDeployArtifact => 6,
            MethodKey::RuntimeAdapterIsArtifactDeployed => 7,
            MethodKey::RuntimeAdapterInitiateAddingService => 8,
            MethodKey::RuntimeAdapterInitiateResumingService => 9,
            MethodKey::RuntimeAdapterUpdateServiceStatus => 10,
            MethodKey::RuntimeAdapterExecuteTx => 11,
            MethodKey::RuntimeAdapterBeforeTransactions => 12,
            MethodKey::RuntimeAdapterAfterTransactions => 13,
            MethodKey::RuntimeAdapterAfterCommit => 14,
            MethodKey::RuntimeAdapterShutdown => 15,
        }
    }

    /// The key at position `i` of resolution order.
    pub open spec fn spec_at(i: nat) -> MethodKey
        recommends
            i < METHOD_COUNT,
    {
        if i == 0 {
            MethodKey::ObjectGetClass
        } else if i == 1 {
            MethodKey::ClassGetName
        } else if i == 2 {
            MethodKey::ThrowableGetMessage
        } else if i == 3 {
            MethodKey::ThrowableGetCause
        } else if i == 4 {
            MethodKey::ExecutionExceptionGetErrorCode
        } else if i == 5 {
            MethodKey::RuntimeAdapterInitialize
        } else if i == 6 {
            MethodKey::RuntimeAdapterDeployArtifact
        } else if i == 7 {
            MethodKey::RuntimeAdapterIsArtifactDeployed
        } else if i == 8 {
            MethodKey::RuntimeAdapterInitiateAddingService
        } else if i == 9 {
            MethodKey::RuntimeAdapterInitiateResumingService
        } else if i == 10 {
            MethodKey::RuntimeAdapterUpdateServiceStatus
        } else if i == 11 {
            MethodKey::RuntimeAdapterExecuteTx
        } else if i == 12 {
            MethodKey::RuntimeAdapterBeforeTransactions
        } else if i == 13 {
            MethodKey::RuntimeAdapterAfterTransactions
        } else if i == 14 {
            MethodKey::RuntimeAdapterAfterCommit
        } else {
            MethodKey::RuntimeAdapterShutdown
        }
    }

    /// Owning class, name and signature of the method that the key stands for.
    pub open spec fn spec_descriptor(self) -> MethodDescriptor {
        match self {
            MethodKey::ObjectGetClass => MethodDescriptor {
                class: "java/lang/Object",
                name: "getClass",
                sig: "()Ljava/lang/Class;",
            },
            MethodKey::ClassGetName => MethodDescriptor {
                class: "java/lang/Class",
                name: "getName",
                sig: "()Ljava/lang/String;",
            },
            MethodKey::ThrowableGetMessage => MethodDescriptor {
                class: "java/lang/Throwable",
                name: "getMessage",
                sig: "()Ljava/lang/String;",
            },
            MethodKey::ThrowableGetCause => MethodDescriptor {
                class: "java/lang/Throwable",
                name: "getCause",
                sig: "()Ljava/lang/Throwable;",
            },
            MethodKey::ExecutionExceptionGetErrorCode => MethodDescriptor {
                class: "com/exonum/binding/core/service/ExecutionException",
                name: "getErrorCode",
                sig: "()B",
            },
            MethodKey::RuntimeAdapterInitialize => MethodDescriptor {
                class: SERVICE_RUNTIME_ADAPTER_CLASS,
                name: "initialize",
                sig: "(J)V",
            },
            MethodKey::RuntimeAdapterDeployArtifact => MethodDescriptor {
                class: SERVICE_RUNTIME_ADAPTER_CLASS,
                name: "deployArtifact",
                sig: "([B[B)V",
            },
            MethodKey::RuntimeAdapterIsArtifactDeployed => MethodDescriptor {
                class: SERVICE_RUNTIME_ADAPTER_CLASS,
                name: "isArtifactDeployed",
                sig: "([B)Z",
            },
            MethodKey::RuntimeAdapterInitiateAddingService => MethodDescriptor {
                class: SERVICE_RUNTIME_ADAPTER_CLASS,
                name: "initiateAddingService",
                sig: "(J[B[B)V",
            },
            MethodKey::RuntimeAdapterInitiateResumingService => MethodDescriptor {
                class: SERVICE_RUNTIME_ADAPTER_CLASS,
                name: "initiateResumingService",
                sig: "(J[B[B)V",
            },
            MethodKey::RuntimeAdapterUpdateServiceStatus => MethodDescriptor {
                class: SERVICE_RUNTIME_ADAPTER_CLASS,
                name: "updateServiceStatus",
                sig: "([B[B)V",
            },
            MethodKey::RuntimeAdapterExecuteTx => MethodDescriptor {
                class: SERVICE_RUNTIME_ADAPTER_CLASS,
                name: "executeTransaction",
                sig: "(ILjava/lang/String;I[BJI[B[B)V",
            },
            MethodKey::RuntimeAdapterBeforeTransactions => MethodDescriptor {
                class: SERVICE_RUNTIME_ADAPTER_CLASS,
                name: "beforeTransactions",
                sig: "(IJ)V",
            },
            MethodKey::RuntimeAdapterAfterTransactions => MethodDescriptor {
                class: SERVICE_RUNTIME_ADAPTER_CLASS,
                name: "afterTransactions",
                sig: "(IJ)V",
            },
            MethodKey::RuntimeAdapterAfterCommit => MethodDescriptor {
                class: SERVICE_RUNTIME_ADAPTER_CLASS,
                name: "afterCommit",
                sig: "(JIJ)V",
            },
            MethodKey::RuntimeAdapterShutdown => MethodDescriptor {
                class: SERVICE_RUNTIME_ADAPTER_CLASS,
                name: "shutdown",
                sig: "()V",
            },
        }
    }

    /// Position of the key in resolution order.
    pub fn index(self) -> (r: usize)
        ensures
            r == self.spec_index(),
            r < METHOD_COUNT,
    {
        match self {
            MethodKey::ObjectGetClass => 0,
            MethodKey::ClassGetName => 1,
            MethodKey::ThrowableGetMessage => 2,
            MethodKey::ThrowableGetCause => 3,
            MethodKey::ExecutionExceptionGetErrorCode => 4,
            MethodKey::RuntimeAdapterInitialize => 5,
            MethodKey::RuntimeAdapterDeployArtifact => 6,
            MethodKey::RuntimeAdapterIsArtifactDeployed => 7,
            MethodKey::RuntimeAdapterInitiateAddingService => 8,
            MethodKey::RuntimeAdapterInitiateResumingService => 9,
            MethodKey::RuntimeAdapterUpdateServiceStatus => 10,
            MethodKey::RuntimeAdapterExecuteTx => 11,
            MethodKey::RuntimeAdapterBeforeTransactions => 12,
            MethodKey::RuntimeAdapterAfterTransactions => 13,
            MethodKey::RuntimeAdapterAfterCommit => 14,
            MethodKey::RuntimeAdapterShutdown => 15,
        }
    }

    /// The key at position `i` of resolution order.
    pub fn at(i: usize) -> (r: MethodKey)
        requires
            i < METHOD_COUNT,
        ensures
            r == MethodKey::spec_at(i as nat),
            r.spec_index() == i,
    {
        if i == 0 {
            MethodKey::ObjectGetClass
        } else if i == 1 {
            MethodKey::ClassGetName
        } else if i == 2 {
            MethodKey::ThrowableGetMessage
        } else if i == 3 {
            MethodKey::ThrowableGetCause
        } else if i == 4 {
            MethodKey::ExecutionExceptionGetErrorCode
        } else if i == 5 {
            MethodKey::RuntimeAdapterInitialize
        } else if i == 6 {
            MethodKey::RuntimeAdapterDeployArtifact
        } else if i == 7 {
            MethodKey::RuntimeAdapterIsArtifactDeployed
        } else if i == 8 {
            MethodKey::RuntimeAdapterInitiateAddingService
        } else if i == 9 {
            MethodKey::RuntimeAdapterInitiateResumingService
        } else if i == 10 {
            MethodKey::RuntimeAdapterUpdateServiceStatus
        } else if i == 11 {
            MethodKey::RuntimeAdapterExecuteTx
        } else if i == 12 {
            MethodKey::RuntimeAdapterBeforeTransactions
        } else if i == 13 {
            MethodKey::RuntimeAdapterAfterTransactions
        } else if i == 14 {
            MethodKey::RuntimeAdapterAfterCommit
        } else {
            MethodKey::RuntimeAdapterShutdown
        }
    }

    /// Owning class, name and signature of the method that the key stands for.
    pub fn descriptor(self) -> (r: MethodDescriptor)
        ensures
            r == self.spec_descriptor(),
    {
        match self {
            MethodKey::ObjectGetClass => MethodDescriptor {
                class: "java/lang/Object",
                name: "getClass",
                sig: "()Ljava/lang/Class;",
            },
            MethodKey::ClassGetName => MethodDescriptor {
                class: "java/lang/Class",
                name: "getName",
                sig: "()Ljava/lang/String;",
            },
            MethodKey::ThrowableGetMessage => MethodDescriptor {
                class: "java/lang/Throwable",
                name: "getMessage",
                sig: "()Ljava/lang/String;",
            },
            MethodKey::ThrowableGetCause => MethodDescriptor {
                class: "java/lang/Throwable",
                name: "getCause",
                sig: "()Ljava/lang/Throwable;",
            },
            MethodKey::ExecutionExceptionGetErrorCode => MethodDescriptor {
                class: "com/exonum/binding/core/service/ExecutionException",
                name: "getErrorCode",
                sig: "()B",
            },
            MethodKey::RuntimeAdapterInitialize => MethodDescriptor {
                class: SERVICE_RUNTIME_ADAPTER_CLASS,
                name: "initialize",
                sig: "(J)V",
            },
            MethodKey::RuntimeAdapterDeployArtifact => MethodDescriptor {
                class: SERVICE_RUNTIME_ADAPTER_CLASS,
                name: "deployArtifact",
                sig: "([B[B)V",
            },
            MethodKey::RuntimeAdapterIsArtifactDeployed => MethodDescriptor {
                class: SERVICE_RUNTIME_ADAPTER_CLASS,
                name: "isArtifactDeployed",
                sig: "([B)Z",
            },
            MethodKey::RuntimeAdapterInitiateAddingService => MethodDescriptor {
                class: SERVICE_RUNTIME_ADAPTER_CLASS,
                name: "initiateAddingService",
                sig: "(J[B[B)V",
            },
            MethodKey::RuntimeAdapterInitiateResumingService => MethodDescriptor {
                class: SERVICE_RUNTIME_ADAPTER_CLASS,
                name: "initiateResumingService",
                sig: "(J[B[B)V",
            },
            MethodKey::RuntimeAdapterUpdateServiceStatus => MethodDescriptor {
                class: SERVICE_RUNTIME_ADAPTER_CLASS,
                name: "updateServiceStatus",
                sig: "([B[B)V",
            },
            MethodKey::RuntimeAdapterExecuteTx => MethodDescriptor {
                class: SERVICE_RUNTIME_ADAPTER_CLASS,
                name: "executeTransaction",
                sig: "(ILjava/lang/String;I[BJI[B[B)V",
            },
            MethodKey::RuntimeAdapterBeforeTransactions => MethodDescriptor {
                class: SERVICE_RUNTIME_ADAPTER_CLASS,
                name: "beforeTransactions",
                sig: "(IJ)V",
            },
            MethodKey::RuntimeAdapterAfterTransactions => MethodDescriptor {
                class: SERVICE_RUNTIME_ADAPTER_CLASS,
                name: "afterTransactions",
                sig: "(IJ)V",
            },
            MethodKey::RuntimeAdapterAfterCommit => MethodDescriptor {
                class: SERVICE_RUNTIME_ADAPTER_CLASS,
                name: "afterCommit",
                sig: "(JIJ)V",
            },
            MethodKey::RuntimeAdapterShutdown => MethodDescriptor {
                class: SERVICE_RUNTIME_ADAPTER_CLASS,
                name: "shutdown",
                sig: "()V",
            },
        }
    }
}

impl ClassKey {
    /// Position of the key in resolution order.
    pub open spec fn spec_index(self) -> nat {
        match self {
            ClassKey::JavaLangError => 0,
            ClassKey::JavaLangRuntimeException => 1,
            ClassKey::JavaLangIllegalArgumentException => 2,
            ClassKey::ExecutionException => 3,
            ClassKey::UnexpectedExecutionException => 4,
        }
    }

    /// The key at position `i` of resolution order.
    pub open spec fn spec_at(i: nat) -> ClassKey
        recommends
            i < CLASS_COUNT,
    {
        if i == 0 {
            ClassKey::JavaLangError
        } else if i == 1 {
            ClassKey::JavaLangRuntimeException
        } else if i == 2 {
            ClassKey::JavaLangIllegalArgumentException
        } else if i == 3 {
            ClassKey::ExecutionException
        } else {
            ClassKey::UnexpectedExecutionException
        }
    }

    /// Internal (slash-separated) name of the class that the key stands for.
    pub open spec fn spec_class_name(self) -> &'static str {
        match self {
            ClassKey::JavaLangError => "java/lang/Error",
            ClassKey::JavaLangRuntimeException => "java/lang/RuntimeException",
            ClassKey::JavaLangIllegalArgumentException => "java/lang/IllegalArgumentException",
            ClassKey::ExecutionException => "com/exonum/binding/core/service/ExecutionException",
            ClassKey::UnexpectedExecutionException => "com/exonum/binding/core/runtime/UnexpectedExecutionException",
        }
    }

    /// Position of the key in resolution order.
    pub fn index(self) -> (r: usize)
        ensures
            r == self.spec_index(),
            r < CLASS_COUNT,
    {
        match self {
            ClassKey::JavaLangError => 0,
            ClassKey::JavaLangRuntimeException => 1,
            ClassKey::JavaLangIllegalArgumentException => 2,
            ClassKey::ExecutionException => 3,
            ClassKey::UnexpectedExecutionException => 4,
        }
    }

    /// The key at position `i` of resolution order.
    pub fn at(i: usize) -> (r: ClassKey)
        requires
            i < CLASS_COUNT,
        ensures
            r == ClassKey::spec_at(i as nat),
            r.spec_index() == i,
    {
        if i == 0 {
            ClassKey::JavaLangError
        } else if i == 1 {
            ClassKey::JavaLangRuntimeException
        } else if i == 2 {
            ClassKey::JavaLangIllegalArgumentException
        } else if i == 3 {
            ClassKey::ExecutionException
        } else {
            ClassKey::UnexpectedExecutionException
        }
    }

    /// Internal (slash-separated) name of the class that the key stands for.
    pub fn class_name(self) -> (r: &'static str)
        ensures
            r == self.spec_class_name(),
    {
        match self {
            ClassKey::JavaLangError => "java/lang/Error",
            ClassKey::JavaLangRuntimeException => "java/lang/RuntimeException",
            ClassKey::JavaLangIllegalArgumentException => "java/lang/IllegalArgumentException",
            ClassKey::ExecutionException => "com/exonum/binding/core/service/ExecutionException",
            ClassKey::UnexpectedExecutionException => "com/exonum/binding/core/runtime/UnexpectedExecutionException",
        }
    }
}

} // verus!

//! A process-wide cache of resolved JNI method and class handles.
//!
//! The set of cached symbols is fixed ([`descriptor`]); a guard ([`guard`]) lets
//! exactly one caller resolve them; the resolved handles live in a
//! [`table::SymbolTable`] held by a [`cache::JniCache`], and are read through the
//! accessor groups named after the Java classes that own them.
use vstd::prelude::*;

pub mod descriptor;
pub mod table;
pub mod guard;
pub mod cache;
pub mod resolver;
pub mod runtime_adapter;
pub mod object;
pub mod class;
pub mod throwable;
pub mod execution_exception;
pub mod classes_refs;

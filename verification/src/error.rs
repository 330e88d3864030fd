//! Error types of the connection, of registry validation, of dispatch and
//! of property access.

use vstd::prelude::*;

use crate::descriptor::DBusErrorMessage;
use crate::descriptor::DBusErrorMessageView;

verus! {

/// Why a connection refused a message, or what is wrong with a registry.
#[derive(Debug, PartialEq, Eq)]
pub enum DBusError {
    /// The connection is closed; nothing can be sent on it.
    Disconnected,
    /// A second interface is registered under the name `interface`.
    DuplicateInterface { interface: String },
    /// A second method of `interface` is registered under the name
    /// `method`.
    DuplicateMethod { interface: String, method: String },
    /// A second property of `interface` is registered under the name
    /// `property`.
    DuplicateProperty { interface: String, property: String },
    /// A second signal of `interface` is registered under the name
    /// `signal`.
    DuplicateSignal { interface: String, signal: String },
    /// An argument of `method` of `interface` does not declare exactly
    /// one type.
    InvalidMethod { interface: String, method: String },
    /// `property` of `interface` does not have exactly one type.
    InvalidProperty { interface: String, property: String },
    /// An argument of `signal` of `interface` does not declare exactly
    /// one type.
    InvalidSignal { interface: String, signal: String },
}

/// The mathematical model of a [`DBusError`].
pub enum DBusErrorView {
    Disconnected,
    DuplicateInterface { interface: Seq<char> },
    DuplicateMethod { interface: Seq<char>, method: Seq<char> },
    DuplicateProperty { interface: Seq<char>, property: Seq<char> },
    DuplicateSignal { interface: Seq<char>, signal: Seq<char> },
    InvalidMethod { interface: Seq<char>, method: Seq<char> },
    InvalidProperty { interface: Seq<char>, property: Seq<char> },
    InvalidSignal { interface: Seq<char>, signal: Seq<char> },
}

impl View for DBusError {
    type V = DBusErrorView;

    open spec fn view(&self) -> DBusErrorView {
        match self {
            DBusError::Disconnected => DBusErrorView::Disconnected,
            DBusError::DuplicateInterface { interface } => DBusErrorView::DuplicateInterface {
                interface: interface@,
            },
            DBusError::DuplicateMethod { interface, method } => DBusErrorView::DuplicateMethod {
                interface: interface@,
                method: method@,
            },
            DBusError::DuplicateProperty {
                interface,
                property,
            } => DBusErrorView::DuplicateProperty { interface: interface@, property: property@ },
            DBusError::DuplicateSignal { interface, signal } => DBusErrorView::DuplicateSignal {
                interface: interface@,
                signal: signal@,
            },
            DBusError::InvalidMethod { interface, method } => DBusErrorView::InvalidMethod {
                interface: interface@,
                method: method@,
            },
            DBusError::InvalidProperty { interface, property } => DBusErrorView::InvalidProperty {
                interface: interface@,
                property: property@,
            },
            DBusError::InvalidSignal { interface, signal } => DBusErrorView::InvalidSignal {
                interface: interface@,
                signal: signal@,
            },
        }
    }
}

impl Clone for DBusError {
    fn clone(&self) -> (copy: DBusError)
        ensures
            copy == *self,
    {
        match self {
            DBusError::Disconnected => DBusError::Disconnected,
            DBusError::DuplicateInterface { interface } => DBusError::DuplicateInterface {
                interface: interface.clone(),
            },
            DBusError::DuplicateMethod { interface, method } => DBusError::DuplicateMethod {
                interface: interface.clone(),
                method: method.clone(),
            },
            DBusError::DuplicateProperty { interface, property } => DBusError::DuplicateProperty {
                interface: interface.clone(),
                property: property.clone(),
            },
            DBusError::DuplicateSignal { interface, signal } => DBusError::DuplicateSignal {
                interface: interface.clone(),
                signal: signal.clone(),
            },
            DBusError::InvalidMethod { interface, method } => DBusError::InvalidMethod {
                interface: interface.clone(),
                method: method.clone(),
            },
            DBusError::InvalidProperty { interface, property } => DBusError::InvalidProperty {
                interface: interface.clone(),
                property: property.clone(),
            },
            DBusError::InvalidSignal { interface, signal } => DBusError::InvalidSignal {
                interface: interface.clone(),
                signal: signal.clone(),
            },
        }
    }
}

/// Why a call that reached a registered method produced no reply.
#[derive(Debug, PartialEq, Eq)]
pub enum DispatchError {
    /// The arguments of the call do not have the types the method declares.
    ArgumentMismatch,
    /// The handler returned values that do not have the declared types.
    ReplyMismatch,
    /// The reply was built but the connection did not take it.
    Send(DBusError),
}

impl Clone for DispatchError {
    fn clone(&self) -> (copy: DispatchError)
        ensures
            copy == *self,
    {
        match self {
            DispatchError::ArgumentMismatch => DispatchError::ArgumentMismatch,
            DispatchError::ReplyMismatch => DispatchError::ReplyMismatch,
            DispatchError::Send(e) => DispatchError::Send(e.clone()),
        }
    }
}

/// Why a property access did not yield a value or store one.
#[derive(Debug, PartialEq, Eq)]
pub enum DBusPropertyError {
    /// The property is write-only and was asked for its value.
    NotReadable,
    /// The property is read-only and was given a value.
    NotWritable,
    /// The value does not have the type of the property.
    TypeMismatch,
    /// The property's own handler reported a failure.
    Handler(DBusErrorMessage),
}

/// The mathematical model of a [`DBusPropertyError`].
pub enum DBusPropertyErrorView {
    NotReadable,
    NotWritable,
    TypeMismatch,
    Handler(DBusErrorMessageView),
}

impl Clone for DBusPropertyError {
    fn clone(&self) -> (copy: DBusPropertyError)
        ensures
            copy@ == self@,
    {
        match self {
            DBusPropertyError::NotReadable => DBusPropertyError::NotReadable,
            DBusPropertyError::NotWritable => DBusPropertyError::NotWritable,
            DBusPropertyError::TypeMismatch => DBusPropertyError::TypeMismatch,
            DBusPropertyError::Handler(e) => DBusPropertyError::Handler(e.clone()),
        }
    }
}

impl View for DBusPropertyError {
    type V = DBusPropertyErrorView;

    open spec fn view(&self) -> DBusPropertyErrorView {
        match self {
            DBusPropertyError::NotReadable => DBusPropertyErrorView::NotReadable,
            DBusPropertyError::NotWritable => DBusPropertyErrorView::NotWritable,
            DBusPropertyError::TypeMismatch => DBusPropertyErrorView::TypeMismatch,
            DBusPropertyError::Handler(e) => DBusPropertyErrorView::Handler(e@),
        }
    }
}

} // verus!

//! Service-side registry and dispatcher for a message bus.
//!
//! A service offers interfaces. An interface has methods, properties and
//! signals, each under a name. The registry, [`DBusInterfaceMap`], keeps
//! the interfaces of one service: it is built by registration, checked and
//! made to serve by [`DBusInterfaceMap::finalize`], and then asked with
//! [`DBusInterfaceMap::handle`] to dispatch each incoming message. A call
//! of a registered method is answered by the handler of that method; the
//! reply, or the error that the handler reports, goes to the
//! [`DBusConnection`]. Every other message is left to the caller.
//!
//! Handlers are functions and trait objects of the embedding program. The
//! contracts say of them what holds whatever they return: which handler
//! is called, on what, and what becomes of its result.

pub mod connection;
pub mod descriptor;
pub mod error;
pub mod interface;
pub mod map;
pub mod message;
pub mod method;
pub mod property;
pub mod signal;
pub mod value;

pub use connection::DBusConnection;
pub use descriptor::DBusAnnotation;
pub use descriptor::DBusAnnotations;
pub use descriptor::DBusArgument;
pub use descriptor::DBusErrorMessage;
pub use error::DBusError;
pub use error::DBusPropertyError;
pub use error::DispatchError;
pub use interface::DBusInterface;
pub use interface::DBusInterfaceMap;
pub use map::DBusMap;
pub use message::DBusCallHeaders;
pub use message::DBusMessage;
pub use message::DBusMessageKind;
pub use method::DBusMethod;
pub use method::DBusMethodHandler;
pub use method::DBusMethodResult;
pub use property::DBusProperty;
pub use property::DBusPropertyGetResult;
pub use property::DBusPropertyReadHandler;
pub use property::DBusPropertyReadWriteHandler;
pub use property::DBusPropertySetResult;
pub use property::DBusPropertyWriteHandler;
pub use property::PropertyAccess;
pub use signal::DBusSignal;
pub use value::DBusSignature;
pub use value::DBusValue;

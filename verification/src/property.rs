//! Properties: typed values of an interface that can be read, written, or
//! both, each through a handler of its owner.

use vstd::prelude::*;

use crate::descriptor::annotations_view;
use crate::descriptor::DBusAnnotation;
use crate::descriptor::DBusAnnotationView;
use crate::descriptor::DBusAnnotations;
use crate::descriptor::DBusErrorMessage;
use crate::error::DBusPropertyError;
use crate::error::DBusPropertyErrorView;
use crate::value::is_single_type;
use crate::value::DBusSignature;
use crate::value::DBusValue;
use crate::value::DBusValueView;

verus! {

/// What a getter returns: the value, or the failure to report.
pub type DBusPropertyGetResult = Result<DBusValue, DBusErrorMessage>;

/// What a setter returns: nothing, or the failure to report.
pub type DBusPropertySetResult = Result<(), DBusErrorMessage>;

/// The handler of a property that can only be read.
pub trait DBusPropertyReadHandler {
    fn get(&self) -> DBusPropertyGetResult;
}

/// The handler of a property that can only be written.
pub trait DBusPropertyWriteHandler {
    fn set(&self, value: &DBusValue) -> DBusPropertySetResult;
}

/// The handler of a property that can be read and written.
pub trait DBusPropertyReadWriteHandler {
    fn get(&self) -> DBusPropertyGetResult;

    fn set(&self, value: &DBusValue) -> DBusPropertySetResult;
}

impl<T: DBusPropertyReadHandler + ?Sized> DBusPropertyReadHandler for Box<T> {
    fn get(&self) -> (res: DBusPropertyGetResult)
        ensures
            call_ensures(T::get, (&**self,), res),
    {
        (**self).get()
    }
}

impl<T: DBusPropertyWriteHandler + ?Sized> DBusPropertyWriteHandler for Box<T> {
    fn set(&self, value: &DBusValue) -> (res: DBusPropertySetResult)
        ensures
            call_ensures(T::set, (&**self, value), res),
    {
        (**self).set(value)
    }
}

impl<T: DBusPropertyReadWriteHandler + ?Sized> DBusPropertyReadWriteHandler for Box<T> {
    fn get(&self) -> (res: DBusPropertyGetResult)
        ensures
            call_ensures(T::get, (&**self,), res),
    {
        (**self).get()
    }

    fn set(&self, value: &DBusValue) -> (res: DBusPropertySetResult)
        ensures
            call_ensures(T::set, (&**self, value), res),
    {
        (**self).set(value)
    }
}

/// How a property may be used, with the handler for that use.
pub enum PropertyAccess<R, RW, W> {
    /// Read only.
    RO(R),
    /// Read and write.
    RW(RW),
    /// Write only.
    WO(W),
}

/// A property: the signature of its type, the way it may be used, and its
/// annotations. The way is chosen when the property is made and stays.
pub struct DBusProperty<R, RW, W> {
    signature: DBusSignature,
    access: PropertyAccess<R, RW, W>,
    anns: DBusAnnotations,
}

/// The mathematical model of the result of reading a property.
pub open spec fn get_view(
    res: Result<DBusValue, DBusPropertyError>,
) -> Result<DBusValueView, DBusPropertyErrorView> {
    match res {
        Ok(value) => Ok(value@),
        Err(e) => Err(e@),
    }
}

/// The mathematical model of the result of writing a property.
pub open spec fn set_view(res: Result<(), DBusPropertyError>) -> Result<(), DBusPropertyErrorView> {
    match res {
        Ok(()) => Ok(()),
        Err(e) => Err(e@),
    }
}

/// What reading a property of type `signature` gives, for what its getter
/// returned: the value where it has that type, and else an error.
pub open spec fn read_result(
    signature: Seq<char>,
    returned: DBusPropertyGetResult,
) -> Result<DBusValueView, DBusPropertyErrorView> {
    match returned {
        Ok(value) => if signature == seq![value@.type_code()] {
            Ok(value@)
        } else {
            Err(DBusPropertyErrorView::TypeMismatch)
        },
        Err(err) => Err(DBusPropertyErrorView::Handler(err@)),
    }
}

/// What writing a property gives, for what its setter returned.
pub open spec fn write_result(
    returned: DBusPropertySetResult,
) -> Result<(), DBusPropertyErrorView> {
    match returned {
        Ok(()) => Ok(()),
        Err(err) => Err(DBusPropertyErrorView::Handler(err@)),
    }
}

impl<
    R: DBusPropertyReadHandler,
    RW: DBusPropertyReadWriteHandler,
    W: DBusPropertyWriteHandler,
> DBusProperty<R, RW, W> {
    /// The signature of the type of the property.
    pub closed spec fn signature(&self) -> Seq<char> {
        self.signature@
    }

    /// The way the property may be used, with its handler.
    pub closed spec fn access(&self) -> PropertyAccess<R, RW, W> {
        self.access
    }

    pub closed spec fn annotations(&self) -> Seq<DBusAnnotationView> {
        annotations_view(self.anns@)
    }

    /// Whether the property names exactly one type.
    pub open spec fn well_typed(&self) -> bool {
        is_single_type(self.signature())
    }

    /// Whether `res` is a result that reading this property may give.
    ///
    /// A property that can only be written gives an error of its own and
    /// calls no handler. Any other calls its getter once.
    pub open spec fn may_read(&self, res: Result<DBusValueView, DBusPropertyErrorView>) -> bool {
        match self.access() {
            PropertyAccess::RO(handler) => exists|returned: DBusPropertyGetResult| #[trigger]
                call_ensures(R::get, (&handler,), returned) && res == read_result(
                    self.signature(),
                    returned,
                ),
            PropertyAccess::RW(handler) => exists|returned: DBusPropertyGetResult| #[trigger]
                call_ensures(RW::get, (&handler,), returned) && res == read_result(
                    self.signature(),
                    returned,
                ),
            PropertyAccess::WO(_) => res == Err::<DBusValueView, DBusPropertyErrorView>(
                DBusPropertyErrorView::NotReadable,
            ),
        }
    }

    /// Whether `res` is a result that writing `value` to this property
    /// may give.
    ///
    /// A property that can only be read gives an error of its own and
    /// calls no handler. Any other refuses a value of another type than
    /// its own, again without a call, and else calls its setter once.
    pub open spec fn may_write(
        &self,
        value: &DBusValue,
        res: Result<(), DBusPropertyErrorView>,
    ) -> bool {
        match self.access() {
            PropertyAccess::RO(_) => res == Err::<(), DBusPropertyErrorView>(
                DBusPropertyErrorView::NotWritable,
            ),
            PropertyAccess::RW(handler) => if self.signature() == seq![value@.type_code()] {
                exists|returned: DBusPropertySetResult| #[trigger]
                    call_ensures(RW::set, (&handler, value), returned) && res == write_result(
                        returned,
                    )
            } else {
                res == Err::<(), DBusPropertyErrorView>(DBusPropertyErrorView::TypeMismatch)
            },
            PropertyAccess::WO(handler) => if self.signature() == seq![value@.type_code()] {
                exists|returned: DBusPropertySetResult| #[trigger]
                    call_ensures(W::set, (&handler, value), returned) && res == write_result(
                        returned,
                    )
            } else {
                res == Err::<(), DBusPropertyErrorView>(DBusPropertyErrorView::TypeMismatch)
            },
        }
    }

    /// A property that can only be read refuses every write with the
    /// error that says so.
    pub proof fn lemma_read_only_refuses_write(
        &self,
        value: &DBusValue,
        res: Result<(), DBusPropertyErrorView>,
    )
        requires
            self.access() is RO,
            self.may_write(value, res),
        ensures
            res == Err::<(), DBusPropertyErrorView>(DBusPropertyErrorView::NotWritable),
    {
    }

    /// A property that can only be written refuses every read with the
    /// error that says so.
    pub proof fn lemma_write_only_refuses_read(
        &self,
        res: Result<DBusValueView, DBusPropertyErrorView>,
    )
        requires
            self.access() is WO,
            self.may_read(res),
        ensures
            res == Err::<DBusValueView, DBusPropertyErrorView>(DBusPropertyErrorView::NotReadable),
    {
    }

    /// A property of type `signature` that can only be read, through
    /// `getter`.
    pub fn read_only(
        signature: DBusSignature,
        getter: R,
        anns: DBusAnnotations,
    ) -> (property: DBusProperty<R, RW, W>)
        ensures
            property.signature() == signature@,
            property.access() == PropertyAccess::<R, RW, W>::RO(getter),
            property.annotations() == annotations_view(anns@),
    {
        DBusProperty { signature, access: PropertyAccess::RO(getter), anns }
    }

    /// A property of type `signature` that can be read and written,
    /// through `handler`.
    pub fn read_write(
        signature: DBusSignature,
        handler: RW,
        anns: DBusAnnotations,
    ) -> (property: DBusProperty<R, RW, W>)
        ensures
            property.signature() == signature@,
            property.access() == PropertyAccess::<R, RW, W>::RW(handler),
            property.annotations() == annotations_view(anns@),
    {
        DBusProperty { signature, access: PropertyAccess::RW(handler), anns }
    }

    /// A property of type `signature` that can only be written, through
    /// `setter`.
    pub fn write_only(
        signature: DBusSignature,
        setter: W,
        anns: DBusAnnotations,
    ) -> (property: DBusProperty<R, RW, W>)
        ensures
            property.signature() == signature@,
            property.access() == PropertyAccess::<R, RW, W>::WO(setter),
            property.annotations() == annotations_view(anns@),
    {
        DBusProperty { signature, access: PropertyAccess::WO(setter), anns }
    }

    pub fn get_signature(&self) -> (signature: &DBusSignature)
        ensures
            signature@ == self.signature(),
    {
        &self.signature
    }

    pub fn get_annotations(&self) -> (anns: &Vec<DBusAnnotation>)
        ensures
            annotations_view(anns@) == self.annotations(),
    {
        &self.anns
    }

    /// Tells whether the property can be read.
    pub fn is_readable(&self) -> (readable: bool)
        ensures
            readable == !(self.access() is WO),
    {
        match &self.access {
            PropertyAccess::WO(_) => false,
            _ => true,
        }
    }

    /// Tells whether the property can be written.
    pub fn is_writable(&self) -> (writable: bool)
        ensures
            writable == !(self.access() is RO),
    {
        match &self.access {
            PropertyAccess::RO(_) => false,
            _ => true,
        }
    }

    /// Tells whether the property names exactly one type.
    pub fn is_well_typed(&self) -> (ok: bool)
        ensures
            ok == self.well_typed(),
    {
        self.signature.is_single()
    }

    /// Reads the property.
    pub fn get(&self) -> (res: Result<DBusValue, DBusPropertyError>)
        ensures
            self.may_read(get_view(res)),
            self.access() is WO <==> get_view(res) == Err::<DBusValueView, DBusPropertyErrorView>(
                DBusPropertyErrorView::NotReadable,
            ),
    {
        match &self.access {
            PropertyAccess::RO(handler) => {
                self.checked(handler.get())
            },
            PropertyAccess::RW(handler) => {
                self.checked(handler.get())
            },
            PropertyAccess::WO(_) => Err(DBusPropertyError::NotReadable),
        }
    }

    /// Writes `value` to the property.
    pub fn set(&self, value: &DBusValue) -> (res: Result<(), DBusPropertyError>)
        ensures
            self.may_write(value, set_view(res)),
            self.access() is RO <==> set_view(res) == Err::<(), DBusPropertyErrorView>(
                DBusPropertyErrorView::NotWritable,
            ),
    {
        match &self.access {
            PropertyAccess::RO(_) => Err(DBusPropertyError::NotWritable),
            PropertyAccess::RW(handler) => {
                if !self.signature.admits(value) {
                    return Err(DBusPropertyError::TypeMismatch);
                }
                stored(handler.set(value))
            },
            PropertyAccess::WO(handler) => {
                if !self.signature.admits(value) {
                    return Err(DBusPropertyError::TypeMismatch);
                }
                stored(handler.set(value))
            },
        }
    }

    /// The result of a read for what the getter returned.
    fn checked(
        &self,
        returned: DBusPropertyGetResult,
    ) -> (res: Result<DBusValue, DBusPropertyError>)
        ensures
            get_view(res) == read_result(self.signature(), returned),
    {
        match returned {
            Ok(value) => if self.signature.admits(&value) {
                Ok(value)
            } else {
                Err(DBusPropertyError::TypeMismatch)
            },
            Err(err) => Err(DBusPropertyError::Handler(err)),
        }
    }
}

/// The result of a write for what the setter returned.
fn stored(returned: DBusPropertySetResult) -> (res: Result<(), DBusPropertyError>)
    ensures
        set_view(res) == write_result(returned),
{
    match returned {
        Ok(()) => Ok(()),
        Err(err) => Err(DBusPropertyError::Handler(err)),
    }
}

} // verus!

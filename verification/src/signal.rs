//! Signals: messages that an interface may broadcast.

use vstd::prelude::*;

use crate::descriptor::annotations_view;
use crate::descriptor::arguments_view;
use crate::descriptor::arguments_well_typed;
use crate::descriptor::well_typed;
use crate::descriptor::DBusAnnotation;
use crate::descriptor::DBusAnnotationView;
use crate::descriptor::DBusAnnotations;
use crate::descriptor::DBusArgument;
use crate::descriptor::DBusArgumentView;

verus! {

/// A signal: the arguments it carries and its annotations. The record
/// only describes the signal; sending one is the work of the connection.
pub struct DBusSignal {
    args: Vec<DBusArgument>,
    anns: DBusAnnotations,
}

impl DBusSignal {
    /// The arguments that the signal carries.
    pub closed spec fn args(&self) -> Seq<DBusArgumentView> {
        arguments_view(self.args@)
    }

    pub closed spec fn annotations(&self) -> Seq<DBusAnnotationView> {
        annotations_view(self.anns@)
    }

    /// Whether every declared argument names exactly one type.
    pub open spec fn well_typed(&self) -> bool {
        well_typed(self.args())
    }

    pub fn new(args: Vec<DBusArgument>, anns: DBusAnnotations) -> (signal: DBusSignal)
        ensures
            signal.args() == arguments_view(args@),
            signal.annotations() == annotations_view(anns@),
    {
        DBusSignal { args, anns }
    }

    pub fn arguments(&self) -> (args: &Vec<DBusArgument>)
        ensures
            arguments_view(args@) == self.args(),
    {
        &self.args
    }

    pub fn get_annotations(&self) -> (anns: &Vec<DBusAnnotation>)
        ensures
            annotations_view(anns@) == self.annotations(),
    {
        &self.anns
    }

    /// Tells whether every declared argument names exactly one type.
    pub fn is_well_typed(&self) -> (ok: bool)
        ensures
            ok == self.well_typed(),
    {
        arguments_well_typed(&self.args)
    }
}

} // verus!

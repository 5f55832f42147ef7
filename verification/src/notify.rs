//! Device-change notifications.
//!
//! Where the host OS exposes hotplug notification, the driver reports
//! added and removed objects; this module shapes one such report into the
//! record the consumer receives.  On a platform without the capability,
//! starting the stream reports an explicit "unsupported" error instead of
//! silently doing nothing.

use vstd::prelude::*;

use crate::errors::Error;

verus! {

/// Whether a notification reports an object appearing or disappearing.
#[derive(Clone, Copy, Debug, PartialEq, Eq, Structural)]
pub enum NotificationType {
    Added,
    Removed,
}

/// The kind of object the OS MIDI driver says was added or removed.
#[derive(Clone, Copy, Debug, PartialEq, Eq, Structural)]
pub enum MidiObjectType {
    Other,
    Device,
    Entity,
    Source,
    Destination,
    ExternalDevice,
    ExternalEntity,
    ExternalSource,
    ExternalDestination,
}

/// The coarser classification a notification carries: sources of either
/// kind are inputs, destinations outputs, and devices and entities keep
/// their kind.
#[derive(Clone, Copy, Debug, PartialEq, Eq, Structural)]
pub enum MidiObjectClass {
    Other,
    Device,
    Entity,
    Input,
    Output,
}

/// How each driver-reported object type is classified.
pub open spec fn midi_obj_type_to_class_spec(object_type: MidiObjectType) -> MidiObjectClass {
    match object_type {
        MidiObjectType::Other => MidiObjectClass::Other,
        MidiObjectType::Device => MidiObjectClass::Device,
        MidiObjectType::Entity => MidiObjectClass::Entity,
        MidiObjectType::Source => MidiObjectClass::Input,
        MidiObjectType::Destination => MidiObjectClass::Output,
        MidiObjectType::ExternalDevice => MidiObjectClass::Device,
        MidiObjectType::ExternalEntity => MidiObjectClass::Entity,
        MidiObjectType::ExternalSource => MidiObjectClass::Input,
        MidiObjectType::ExternalDestination => MidiObjectClass::Output,
    }
}

/// Classify a driver-reported object type.
pub fn midi_obj_type_to_class(object_type: MidiObjectType) -> (r: MidiObjectClass)
    ensures
        r == midi_obj_type_to_class_spec(object_type),
{
    match object_type {
        MidiObjectType::Other => MidiObjectClass::Other,
        MidiObjectType::Device => MidiObjectClass::Device,
        MidiObjectType::Entity => MidiObjectClass::Entity,
        MidiObjectType::Source => MidiObjectClass::Input,
        MidiObjectType::Destination => MidiObjectClass::Output,
        MidiObjectType::ExternalDevice => MidiObjectClass::Device,
        MidiObjectType::ExternalEntity => MidiObjectClass::Entity,
        MidiObjectType::ExternalSource => MidiObjectClass::Input,
        MidiObjectType::ExternalDestination => MidiObjectClass::Output,
    }
}

/// What the driver reports about one added or removed object: the parent
/// and child names and unique identifiers, any of which it may omit, and
/// the two object types.
#[derive(Debug)]
pub struct ObjectChangeInfo {
    pub parent_name: Option<String>,
    pub parent_id: Option<u32>,
    pub parent_type: MidiObjectType,
    pub child_name: Option<String>,
    pub child_id: Option<u32>,
    pub child_type: MidiObjectType,
}

/// One device-change notification as the consumer receives it.  Missing
/// names become empty strings and missing identifiers zero.
#[derive(Debug)]
pub struct MidiNotification {
    pub notification_type: NotificationType,
    pub parent_name: String,
    pub parent_id: u32,
    pub parent_type: MidiObjectClass,
    pub name: String,
    pub native_id: u32,
    pub direction: MidiObjectClass,
}

impl MidiNotification {
    /// Shape one driver report into the consumer-facing record.
    pub fn new(notification_type: NotificationType, info: &ObjectChangeInfo) -> (r: Self)
        ensures
            r.notification_type == notification_type,
            r.parent_name@ == (match info.parent_name {
                Some(n) => n@,
                None => Seq::<char>::empty(),
            }),
            r.parent_id == (match info.parent_id {
                Some(id) => id,
                None => 0u32,
            }),
            r.parent_type == midi_obj_type_to_class_spec(info.parent_type),
            r.name@ == (match info.child_name {
                Some(n) => n@,
                None => Seq::<char>::empty(),
            }),
            r.native_id == (match info.child_id {
                Some(id) => id,
                None => 0u32,
            }),
            r.direction == midi_obj_type_to_class_spec(info.child_type),
    {
        let parent_name = match &info.parent_name {
            Some(name) => name.clone(),
            None => String::new(),
        };
        let parent_id = match info.parent_id {
            Some(id) => id,
            None => 0,
        };
        let child_name = match &info.child_name {
            Some(name) => name.clone(),
            None => String::new(),
        };
        let child_id = match info.child_id {
            Some(id) => id,
            None => 0,
        };
        MidiNotification {
            notification_type,
            parent_name,
            parent_id,
            parent_type: midi_obj_type_to_class(info.parent_type),
            name: child_name,
            native_id: child_id,
            direction: midi_obj_type_to_class(info.child_type),
        }
    }
}

/// Start the device-change notification stream, given whether the host
/// platform exposes one.  Where it does not, the request fails with the
/// explicit "unsupported" error rather than silently doing nothing.
pub fn notifications(supported: bool) -> (r: Result<(), Error>)
    ensures
        r is Ok <==> supported,
        !supported ==> r->Err_0 == Error::Unsupported,
{
    if supported {
        Ok(())
    } else {
        Err(Error::Unsupported)
    }
}

/// Start hotplug watching, given whether the host platform exposes
/// device-change notification.  Fails with the explicit "unsupported"
/// error where it does not.
pub fn hotplug(supported: bool) -> (r: Result<(), Error>)
    ensures
        r is Ok <==> supported,
        !supported ==> r->Err_0 == Error::Unsupported,
{
    if supported {
        Ok(())
    } else {
        Err(Error::Unsupported)
    }
}

} // verus!

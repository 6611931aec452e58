//! The webhook event enumeration and its snake_case wire tags.

use vstd::prelude::*;

verus! {

/// An event a webhook can subscribe to.  On the wire an event is a plain
/// snake_case string tag; the `RoomMessage` subscription may additionally
/// carry a message-filtering pattern, which travels in a sibling field of
/// the surrounding webhook object (see `capabilities`).
#[derive(Clone, Copy, Debug, PartialEq, Eq, Structural)]
pub enum Event {
    RoomArchived,
    RoomCreated,
    RoomDeleted,
    RoomEnter,
    RoomExit,
    RoomFileUpload,
    RoomMessage,
    RoomNotification,
    RoomTopicChange,
    RoomUnarchived,
}

impl Event {
    /// The snake_case string tag this event serializes to.
    pub open spec fn spec_tag(self) -> Seq<char> {
        match self {
            Event::RoomArchived => "room_archived"@,
            Event::RoomCreated => "room_created"@,
            Event::RoomDeleted => "room_deleted"@,
            Event::RoomEnter => "room_enter"@,
            Event::RoomExit => "room_exit"@,
            Event::RoomFileUpload => "room_file_upload"@,
            Event::RoomMessage => "room_message"@,
            Event::RoomNotification => "room_notification"@,
            Event::RoomTopicChange => "room_topic_change"@,
            Event::RoomUnarchived => "room_unarchived"@,
        }
    }

    /// The snake_case wire tag of this event.
    pub fn tag(self) -> (r: &'static str)
        ensures
            r@ == self.spec_tag(),
    {
        match self {
            Event::RoomArchived => "room_archived",
            Event::RoomCreated => "room_created",
            Event::RoomDeleted => "room_deleted",
            Event::RoomEnter => "room_enter",
            Event::RoomExit => "room_exit",
            Event::RoomFileUpload => "room_file_upload",
            Event::RoomMessage => "room_message",
            Event::RoomNotification => "room_notification",
            Event::RoomTopicChange => "room_topic_change",
            Event::RoomUnarchived => "room_unarchived",
        }
    }
}

} // verus!

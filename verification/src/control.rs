//! Control messages: what the user interface asks of a running worker loop.

use vstd::prelude::*;
use crate::frame::Area;

verus! {

/// Kind of a control message.
#[derive(Clone, Copy, Debug, PartialEq, Eq, Structural)]
pub enum MessageType {
    /// End the session.
    Stop,
    /// Capture another region from now on.
    Area,
    /// Switch archiving of received frames on or off.
    Save,
}

impl Default for MessageType {
    fn default() -> (t: Self)
        ensures
            t == MessageType::Stop,
    {
        MessageType::Stop
    }
}

/// A control message as it travels through the queue. Only the field that
/// belongs to its kind carries meaning.
#[derive(Clone, Copy, Debug, PartialEq, Eq, Structural)]
pub struct Message {
    /// Kind of the message.
    pub message_type: MessageType,
    /// New capture region of an [`MessageType::Area`] message.
    pub area: Area,
    /// New archiving switch of a [`MessageType::Save`] message.
    pub save_option: bool,
}

/// What a control message asks for.
pub enum Request {
    /// End the session.
    Stop,
    /// Capture this region from now on.
    ChangeArea(Area),
    /// Archive received frames, or stop doing so.
    ToggleSave(bool),
}

impl Message {
    /// What this message asks for.
    pub open spec fn request(self) -> Request {
        match self.message_type {
            MessageType::Stop => Request::Stop,
            MessageType::Area => Request::ChangeArea(self.area),
            MessageType::Save => Request::ToggleSave(self.save_option),
        }
    }

    /// The message that ends the session.
    pub fn stop_request() -> (m: Self)
        ensures
            m == (Message {
                message_type: MessageType::Stop,
                area: Area { x: 0, y: 0, width: 0, height: 0 },
                save_option: false,
            }),
            m.request() == Request::Stop,
    {
        Message { message_type: MessageType::Stop, area: Area::default(), save_option: false }
    }

    /// The message that switches archiving to `save_option`.
    pub fn save_request(save_option: bool) -> (m: Self)
        ensures
            m == (Message {
                message_type: MessageType::Save,
                area: Area { x: 0, y: 0, width: 0, height: 0 },
                save_option,
            }),
            m.request() == Request::ToggleSave(save_option),
    {
        Message { message_type: MessageType::Save, area: Area::default(), save_option }
    }

    /// The message that moves the capture region to `area`.
    pub fn area_request(area: Area) -> (m: Self)
        ensures
            m == (Message { message_type: MessageType::Area, area, save_option: false }),
            m.request() == Request::ChangeArea(area),
    {
        Message { message_type: MessageType::Area, area, save_option: false }
    }
}

impl Default for Message {
    fn default() -> (m: Self)
        ensures
            m == (Message {
                message_type: MessageType::Stop,
                area: Area { x: 0, y: 0, width: 0, height: 0 },
                save_option: false,
            }),
    {
        Message { message_type: MessageType::Stop, area: Area::default(), save_option: false }
    }
}

} // verus!

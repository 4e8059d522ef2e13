//! Descriptions of the platform operations the core can request.
//!
//! The core never performs network transport itself: every platform
//! operation it decides on is described as a [`PlatformCall`] value made
//! of plain data, and the surrounding host code turns it into the actual
//! request. Responses come back the same way, reduced to plain values
//! such as [`ChatSettings`].

use vstd::prelude::*;

use crate::action::CommercialLength;

verus! {

/// The chat-mode toggles of the broadcaster's chat room, as read back
/// from the platform.
#[derive(Clone, Copy, PartialEq, Eq, Structural, Debug)]
pub struct ChatSettings {
    pub emote_mode: bool,
    pub follower_mode: bool,
    pub slow_mode: bool,
    pub subscriber_mode: bool,
}

/// A partial update of the chat-mode toggles: only the fields that are
/// present are changed, every other setting is left untouched.
#[derive(Clone, Copy, PartialEq, Eq, Structural, Debug)]
pub struct ChatSettingsPatch {
    pub emote_mode: Option<bool>,
    pub follower_mode: Option<bool>,
    pub slow_mode: Option<bool>,
    pub subscriber_mode: Option<bool>,
}

impl ChatSettingsPatch {
    /// A patch that changes nothing.
    pub fn none() -> (r: ChatSettingsPatch)
        ensures
            r == (ChatSettingsPatch {
                emote_mode: None,
                follower_mode: None,
                slow_mode: None,
                subscriber_mode: None,
            }),
    {
        ChatSettingsPatch { emote_mode: None, follower_mode: None, slow_mode: None, subscriber_mode: None }
    }
}

/// One platform operation, described as plain data.
#[derive(Debug)]
pub enum PlatformCall {
    /// Send one chat message to the broadcaster's chat room on the
    /// broadcaster's own behalf.
    SendChatMessage { broadcaster_id: String, sender_id: String, message: String },
    /// Delete all chat messages in the broadcaster's chat room.
    DeleteChatMessages { broadcaster_id: String, moderator_id: String },
    /// Create a clip of the broadcaster's live stream.
    CreateClip { broadcaster_id: String },
    /// Create a stream marker on the broadcaster's live stream.
    CreateStreamMarker { user_id: String, description: String },
    /// Read the chat-mode toggles of the broadcaster's chat room.
    GetChatSettings { broadcaster_id: String },
    /// Patch the chat-mode toggles of the broadcaster's chat room.
    UpdateChatSettings { broadcaster_id: String, moderator_id: String, patch: ChatSettingsPatch },
    /// Start an advertisement break of one of the allowed durations.
    StartCommercial { broadcaster_id: String, length: CommercialLength },
    /// Query the broadcaster's live stream for its current viewer count.
    GetStreams { user_id: String },
}

} // verus!

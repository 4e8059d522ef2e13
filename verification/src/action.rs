//! Decoding a button interaction into a typed action.
//!
//! A button press arrives as an opaque pair of an action identifier and a
//! structured payload. The host boundary reduces the payload to a
//! [`TileProperties`] value that records, for each field an action may
//! read, what the payload held. [`Action::from_action`] then either
//! recognizes the identifier and validates the payload shape, or reports
//! "no match" for an unknown identifier, which callers treat as a benign
//! condition.

use vstd::prelude::*;

use crate::text::str_eq;

verus! {

/// One allowed advertisement-break duration, in seconds. The platform
/// accepts only this closed set of durations; anything else is rejected
/// when the action is decoded.
#[derive(Clone, Copy, PartialEq, Eq, Structural, Debug)]
pub enum CommercialLength {
    Length30,
    Length60,
    Length90,
    Length120,
    Length150,
    Length180,
}

impl CommercialLength {
    /// The duration in seconds.
    pub open spec fn spec_seconds(self) -> u64 {
        match self {
            CommercialLength::Length30 => 30,
            CommercialLength::Length60 => 60,
            CommercialLength::Length90 => 90,
            CommercialLength::Length120 => 120,
            CommercialLength::Length150 => 150,
            CommercialLength::Length180 => 180,
        }
    }

    /// The duration in seconds.
    pub fn seconds(self) -> (s: u64)
        ensures
            s == self.spec_seconds(),
    {
        match self {
            CommercialLength::Length30 => 30,
            CommercialLength::Length60 => 60,
            CommercialLength::Length90 => 90,
            CommercialLength::Length120 => 120,
            CommercialLength::Length150 => 150,
            CommercialLength::Length180 => 180,
        }
    }

    /// The allowed duration denoted by a second count, if any.
    pub open spec fn spec_from_seconds(s: u64) -> Option<CommercialLength> {
        if s == 30 {
            Some(CommercialLength::Length30)
        } else if s == 60 {
            Some(CommercialLength::Length60)
        } else if s == 90 {
            Some(CommercialLength::Length90)
        } else if s == 120 {
            Some(CommercialLength::Length120)
        } else if s == 150 {
            Some(CommercialLength::Length150)
        } else if s == 180 {
            Some(CommercialLength::Length180)
        } else {
            None
        }
    }

    /// Validates a second count against the closed set of allowed
    /// durations.
    pub fn from_seconds(s: u64) -> (r: Option<CommercialLength>)
        ensures
            r == Self::spec_from_seconds(s),
    {
        if s == 30 {
            Some(CommercialLength::Length30)
        } else if s == 60 {
            Some(CommercialLength::Length60)
        } else if s == 90 {
            Some(CommercialLength::Length90)
        } else if s == 120 {
            Some(CommercialLength::Length120)
        } else if s == 150 {
            Some(CommercialLength::Length150)
        } else if s == 180 {
            Some(CommercialLength::Length180)
        } else {
            None
        }
    }

    /// The shortest allowed duration, used when a payload leaves the
    /// length out.
    pub fn shortest() -> (r: CommercialLength)
        ensures
            r == CommercialLength::Length30,
    {
        CommercialLength::Length30
    }
}

/// What the payload held in one field an action may read.
#[derive(Debug)]
pub enum PropertyValue {
    /// The field was absent.
    Missing,
    /// The field was present and null.
    Null,
    /// The field held a text value.
    Text(String),
    /// The field held a non-negative whole number.
    Number(u64),
    /// The field held a value of any other shape.
    Other,
}

/// The payload of a button interaction, reduced to the fields any action
/// may read. A payload that is not a structured object cannot satisfy any
/// action that reads a field.
#[derive(Debug)]
pub struct TileProperties {
    /// Whether the payload was a structured object.
    pub object: bool,
    /// The `message` field, read by the send-message action.
    pub message: PropertyValue,
    /// The `description` field, read by the marker action.
    pub description: PropertyValue,
    /// The `length` field, read by the ad-break action.
    pub length: PropertyValue,
}

impl TileProperties {
    /// A payload that is a structured object with none of the readable
    /// fields present.
    pub fn empty_object() -> (r: TileProperties)
        ensures
            r.object,
            r.message is Missing,
            r.description is Missing,
            r.length is Missing,
    {
        TileProperties {
            object: true,
            message: PropertyValue::Missing,
            description: PropertyValue::Missing,
            length: PropertyValue::Missing,
        }
    }
}

/// Why a recognized action identifier rejected its payload.
#[derive(Clone, Copy, PartialEq, Eq, Structural, Debug)]
pub enum DecodeError {
    /// The payload was not a structured object.
    NotAnObject,
    /// The `message` field was neither absent, null nor text.
    InvalidMessage,
    /// The `description` field was neither absent, null nor text.
    InvalidDescription,
    /// The `length` field was neither absent, null nor an allowed
    /// duration.
    InvalidLength,
}

/// Payload of the send-message action.
#[derive(Debug)]
pub struct SendMessageProperties {
    pub message: Option<String>,
}

/// Payload of the marker action.
#[derive(Debug)]
pub struct MarkerProperties {
    pub description: Option<String>,
}

/// Payload of the ad-break action.
#[derive(Clone, Copy, PartialEq, Eq, Structural, Debug)]
pub struct AdBreakProperties {
    pub length: Option<CommercialLength>,
}

/// A typed, validated representation of a single button-triggered
/// command.
#[derive(Debug)]
pub enum Action {
    SendMessage(SendMessageProperties),
    ClearChat,
    EmoteOnly,
    FollowerOnly,
    SubOnly,
    SlowMode,
    AdBreak(AdBreakProperties),
    Marker(MarkerProperties),
    CreateClip,
    OpenClip,
    ViewerCount,
}

/// Whether an action identifier belongs to the closed catalog of
/// recognized actions.
pub open spec fn known_action_id(id: Seq<char>) -> bool {
    ||| id == "send_message"@
    ||| id == "clear_chat"@
    ||| id == "emote_only"@
    ||| id == "follower_only"@
    ||| id == "sub_only"@
    ||| id == "slow_mode"@
    ||| id == "ad_break"@
    ||| id == "marker"@
    ||| id == "create_clip"@
    ||| id == "open_clip"@
    ||| id == "viewer_count"@
}

/// Decode of the send-message payload: an absent or null `message` is a
/// valid decode carrying no message; text carries the message; any other
/// shape is rejected.
pub open spec fn spec_decode_send_message(p: TileProperties) -> Result<Action, DecodeError> {
    if !p.object {
        Err(DecodeError::NotAnObject)
    } else {
        match p.message {
            PropertyValue::Missing => Ok(
                Action::SendMessage(SendMessageProperties { message: None }),
            ),
            PropertyValue::Null => Ok(Action::SendMessage(SendMessageProperties { message: None })),
            PropertyValue::Text(s) => Ok(
                Action::SendMessage(SendMessageProperties { message: Some(s) }),
            ),
            PropertyValue::Number(_) => Err(DecodeError::InvalidMessage),
            PropertyValue::Other => Err(DecodeError::InvalidMessage),
        }
    }
}

/// Decode of the marker payload: an absent or null `description` is a
/// valid decode carrying no description.
pub open spec fn spec_decode_marker(p: TileProperties) -> Result<Action, DecodeError> {
    if !p.object {
        Err(DecodeError::NotAnObject)
    } else {
        match p.description {
            PropertyValue::Missing => Ok(Action::Marker(MarkerProperties { description: None })),
            PropertyValue::Null => Ok(Action::Marker(MarkerProperties { description: None })),
            PropertyValue::Text(s) => Ok(
                Action::Marker(MarkerProperties { description: Some(s) }),
            ),
            PropertyValue::Number(_) => Err(DecodeError::InvalidDescription),
            PropertyValue::Other => Err(DecodeError::InvalidDescription),
        }
    }
}

/// Decode of the ad-break payload: an absent or null `length` is a valid
/// decode carrying no duration; a number must denote an allowed duration.
pub open spec fn spec_decode_ad_break(p: TileProperties) -> Result<Action, DecodeError> {
    if !p.object {
        Err(DecodeError::NotAnObject)
    } else {
        match p.length {
            PropertyValue::Missing => Ok(Action::AdBreak(AdBreakProperties { length: None })),
            PropertyValue::Null => Ok(Action::AdBreak(AdBreakProperties { length: None })),
            PropertyValue::Number(n) => match CommercialLength::spec_from_seconds(n) {
                Some(l) => Ok(Action::AdBreak(AdBreakProperties { length: Some(l) })),
                None => Err(DecodeError::InvalidLength),
            },
            PropertyValue::Text(_) => Err(DecodeError::InvalidLength),
            PropertyValue::Other => Err(DecodeError::InvalidLength),
        }
    }
}

/// The decode relation: no match for an unknown identifier; otherwise the
/// typed action, or the reason the payload was rejected.
pub open spec fn spec_from_action(action_id: Seq<char>, p: TileProperties) -> Option<
    Result<Action, DecodeError>,
> {
    if action_id == "send_message"@ {
        Some(spec_decode_send_message(p))
    } else if action_id == "clear_chat"@ {
        Some(Ok(Action::ClearChat))
    } else if action_id == "emote_only"@ {
        Some(Ok(Action::EmoteOnly))
    } else if action_id == "follower_only"@ {
        Some(Ok(Action::FollowerOnly))
    } else if action_id == "sub_only"@ {
        Some(Ok(Action::SubOnly))
    } else if action_id == "slow_mode"@ {
        Some(Ok(Action::SlowMode))
    } else if action_id == "ad_break"@ {
        Some(spec_decode_ad_break(p))
    } else if action_id == "marker"@ {
        Some(spec_decode_marker(p))
    } else if action_id == "create_clip"@ {
        Some(Ok(Action::CreateClip))
    } else if action_id == "open_clip"@ {
        Some(Ok(Action::OpenClip))
    } else if action_id == "viewer_count"@ {
        Some(Ok(Action::ViewerCount))
    } else {
        None
    }
}

impl Action {
    /// Decodes an (identifier, payload) pair into a typed action.
    ///
    /// Returns no match when the identifier is unknown, a decode error
    /// when the identifier is recognized but the payload does not have
    /// the shape that action expects, and the typed action otherwise.
    pub fn from_action(action_id: &str, properties: &TileProperties) -> (r: Option<
        Result<Action, DecodeError>,
    >)
        ensures
            r == spec_from_action(action_id@, *properties),
    {
        if str_eq(action_id, "send_message") {
            Some(Self::decode_send_message(properties))
        } else if str_eq(action_id, "clear_chat") {
            Some(Ok(Action::ClearChat))
        } else if str_eq(action_id, "emote_only") {
            Some(Ok(Action::EmoteOnly))
        } else if str_eq(action_id, "follower_only") {
            Some(Ok(Action::FollowerOnly))
        } else if str_eq(action_id, "sub_only") {
            Some(Ok(Action::SubOnly))
        } else if str_eq(action_id, "slow_mode") {
            Some(Ok(Action::SlowMode))
        } else if str_eq(action_id, "ad_break") {
            Some(Self::decode_ad_break(properties))
        } else if str_eq(action_id, "marker") {
            Some(Self::decode_marker(properties))
        } else if str_eq(action_id, "create_clip") {
            Some(Ok(Action::CreateClip))
        } else if str_eq(action_id, "open_clip") {
            Some(Ok(Action::OpenClip))
        } else if str_eq(action_id, "viewer_count") {
            Some(Ok(Action::ViewerCount))
        } else {
            None
        }
    }

    fn decode_send_message(p: &TileProperties) -> (r: Result<Action, DecodeError>)
        ensures
            r == spec_decode_send_message(*p),
    {
        if !p.object {
            Err(DecodeError::NotAnObject)
        } else {
            match &p.message {
                PropertyValue::Missing => Ok(
                    Action::SendMessage(SendMessageProperties { message: None }),
                ),
                PropertyValue::Null => Ok(
                    Action::SendMessage(SendMessageProperties { message: None }),
                ),
                PropertyValue::Text(s) => Ok(
                    Action::SendMessage(SendMessageProperties { message: Some(s.clone()) }),
                ),
                PropertyValue::Number(_) => Err(DecodeError::InvalidMessage),
                PropertyValue::Other => Err(DecodeError::InvalidMessage),
            }
        }
    }

    fn decode_marker(p: &TileProperties) -> (r: Result<Action, DecodeError>)
        ensures
            r == spec_decode_marker(*p),
    {
        if !p.object {
            Err(DecodeError::NotAnObject)
        } else {
            match &p.description {
                PropertyValue::Missing => Ok(
                    Action::Marker(MarkerProperties { description: None }),
                ),
                PropertyValue::Null => Ok(Action::Marker(MarkerProperties { description: None })),
                PropertyValue::Text(s) => Ok(
                    Action::Marker(MarkerProperties { description: Some(s.clone()) }),
                ),
                PropertyValue::Number(_) => Err(DecodeError::InvalidDescription),
                PropertyValue::Other => Err(DecodeError::InvalidDescription),
            }
        }
    }

    fn decode_ad_break(p: &TileProperties) -> (r: Result<Action, DecodeError>)
        ensures
            r == spec_decode_ad_break(*p),
    {
        if !p.object {
            Err(DecodeError::NotAnObject)
        } else {
            match &p.length {
                PropertyValue::Missing => Ok(Action::AdBreak(AdBreakProperties { length: None })),
                PropertyValue::Null => Ok(Action::AdBreak(AdBreakProperties { length: None })),
                PropertyValue::Number(n) => match CommercialLength::from_seconds(*n) {
                    Some(l) => Ok(Action::AdBreak(AdBreakProperties { length: Some(l) })),
                    None => Err(DecodeError::InvalidLength),
                },
                PropertyValue::Text(_) => Err(DecodeError::InvalidLength),
                PropertyValue::Other => Err(DecodeError::InvalidLength),
            }
        }
    }
}

/// An unrecognized action identifier yields no match, never an error, and
/// a recognized one always yields a decode attempt: the decode relation
/// answers exactly on the closed catalog of identifiers.
pub proof fn lemma_unknown_action_is_no_match(action_id: Seq<char>, p: TileProperties)
    ensures
        spec_from_action(action_id, p) is Some <==> known_action_id(action_id),
{
}

/// A recognized identifier whose payload is a structured object with all
/// optional fields absent decodes successfully, and the optional fields
/// of the decoded action are left to their documented defaults.
pub proof fn lemma_empty_payload_decodes(action_id: Seq<char>, p: TileProperties)
    requires
        known_action_id(action_id),
        p.object,
        p.message is Missing,
        p.description is Missing,
        p.length is Missing,
    ensures
        spec_from_action(action_id, p) matches Some(Ok(_)),
        action_id == "send_message"@ ==> spec_from_action(action_id, p) == Some(
            Ok::<Action, DecodeError>(Action::SendMessage(SendMessageProperties { message: None })),
        ),
        action_id == "marker"@ ==> spec_from_action(action_id, p) == Some(
            Ok::<Action, DecodeError>(Action::Marker(MarkerProperties { description: None })),
        ),
        action_id == "ad_break"@ ==> spec_from_action(action_id, p) == Some(
            Ok::<Action, DecodeError>(Action::AdBreak(AdBreakProperties { length: None })),
        ),
{
    reveal_strlit("send_message");
    reveal_strlit("clear_chat");
    reveal_strlit("emote_only");
    reveal_strlit("follower_only");
    reveal_strlit("sub_only");
    reveal_strlit("slow_mode");
    reveal_strlit("ad_break");
    reveal_strlit("marker");
    reveal_strlit("create_clip");
    reveal_strlit("open_clip");
    reveal_strlit("viewer_count");
    assert("marker"@.len() == 6);
    assert("send_message"@.len() == 12);
    assert("marker"@ != "send_message"@);
    assert("ad_break"@[0] == 'a');
    assert("sub_only"@[0] == 's');
    assert("ad_break"@ != "sub_only"@);
}

} // verus!

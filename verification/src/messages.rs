//! Messages exchanged with the two UI surfaces: the configuration
//! inspector panel and the per-button displays.
//!
//! On the wire each inbound message is a structured value whose `type`
//! field carries one of a closed set of tags; the decoders here work on
//! that tag. Outbound messages are built here as plain values and
//! serialized at the host boundary.

use vstd::prelude::*;

use crate::text::str_eq;

verus! {

/// Messages from the inspector panel.
#[derive(Clone, Copy, PartialEq, Eq, Structural, Debug)]
pub enum InspectorMessageIn {
    GetState,
    OpenAuthUrl,
    Logout,
}

/// Messages to the inspector panel.
#[derive(Debug)]
pub enum InspectorMessageOut {
    State { state: String },
}

/// Messages from a display.
#[derive(Clone, Copy, PartialEq, Eq, Structural, Debug)]
pub enum DisplayMessageIn {
    GetViewCount,
}

/// Messages to a display.
#[derive(Clone, Copy, PartialEq, Eq, Structural, Debug)]
pub enum DisplayMessageOut {
    ViewCount { count: usize },
}

impl InspectorMessageIn {
    /// The inbound inspector message selected by a `type` tag, if any.
    pub open spec fn spec_from_tag(tag: Seq<char>) -> Option<InspectorMessageIn> {
        if tag == "GET_STATE"@ {
            Some(InspectorMessageIn::GetState)
        } else if tag == "OPEN_AUTH_URL"@ {
            Some(InspectorMessageIn::OpenAuthUrl)
        } else if tag == "LOGOUT"@ {
            Some(InspectorMessageIn::Logout)
        } else {
            None
        }
    }

    /// Decodes an inspector message from its `type` tag; an unknown tag
    /// is rejected.
    pub fn from_tag(tag: &str) -> (r: Option<InspectorMessageIn>)
        ensures
            r == Self::spec_from_tag(tag@),
    {
        if str_eq(tag, "GET_STATE") {
            Some(InspectorMessageIn::GetState)
        } else if str_eq(tag, "OPEN_AUTH_URL") {
            Some(InspectorMessageIn::OpenAuthUrl)
        } else if str_eq(tag, "LOGOUT") {
            Some(InspectorMessageIn::Logout)
        } else {
            None
        }
    }
}

impl DisplayMessageIn {
    /// The inbound display message selected by a `type` tag, if any.
    pub open spec fn spec_from_tag(tag: Seq<char>) -> Option<DisplayMessageIn> {
        if tag == "GET_VIEW_COUNT"@ {
            Some(DisplayMessageIn::GetViewCount)
        } else {
            None
        }
    }

    /// Decodes a display message from its `type` tag; an unknown tag is
    /// rejected.
    pub fn from_tag(tag: &str) -> (r: Option<DisplayMessageIn>)
        ensures
            r == Self::spec_from_tag(tag@),
    {
        if str_eq(tag, "GET_VIEW_COUNT") {
            Some(DisplayMessageIn::GetViewCount)
        } else {
            None
        }
    }
}

} // verus!

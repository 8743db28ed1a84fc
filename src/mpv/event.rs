//! Events delivered by libmpv's event queue, and their decoding.

use vstd::prelude::*;

use crate::mpv::property::{spec_from_raw, Property, RawProperty};

verus! {

/// `MPV_EVENT_NONE`: the wait timed out with nothing pending.
pub const MPV_EVENT_NONE: u32 = 0;

/// `MPV_EVENT_START_FILE`.
pub const MPV_EVENT_START_FILE: u32 = 6;

/// `MPV_EVENT_FILE_LOADED`.
pub const MPV_EVENT_FILE_LOADED: u32 = 8;

/// `MPV_EVENT_VIDEO_RECONFIG`.
pub const MPV_EVENT_VIDEO_RECONFIG: u32 = 17;

/// `MPV_EVENT_AUDIO_RECONFIG`.
pub const MPV_EVENT_AUDIO_RECONFIG: u32 = 18;

/// `MPV_EVENT_PLAYBACK_RESTART`.
pub const MPV_EVENT_PLAYBACK_RESTART: u32 = 21;

/// `MPV_EVENT_PROPERTY_CHANGE`.
pub const MPV_EVENT_PROPERTY_CHANGE: u32 = 22;

/// What an event's data pointer refers to.
#[derive(Debug, Clone)]
pub enum EventPayload {
    /// No data, or data this library does not read.
    Nothing,
    /// An `mpv_event_property`.
    Property(RawProperty),
    /// An `mpv_event_start_file`.
    StartFile { playlist_entry_id: i64 },
}

/// An `mpv_event` as returned by a wait: its id and its data.
#[derive(Debug, Clone)]
pub struct RawEvent {
    pub event_id: u32,
    pub payload: EventPayload,
}

/// A decoded event.
#[derive(Debug, Clone, PartialEq)]
pub enum MpvEvent {
    StartFile { playlist_entry_id: i64 },
    FileLoaded,
    PlaybackRestart,
    VideoReconfig,
    AudioReconfig,
    PropertyChange(Property),
    Unsupported,
    /// The event could not be decoded. More events might be available.
    Error,
}

/// What a raw event decodes to; `None` means that no event was pending.
pub open spec fn spec_convert_event(e: RawEvent) -> Option<MpvEvent> {
    let id = e.event_id;
    if id == MPV_EVENT_NONE {
        None
    } else if id == MPV_EVENT_PROPERTY_CHANGE {
        match e.payload {
            EventPayload::Property(p) => match spec_from_raw(p) {
                Ok(prop) => Some(MpvEvent::PropertyChange(prop)),
                Err(_) => Some(MpvEvent::Error),
            },
            _ => Some(MpvEvent::Error),
        }
    } else if id == MPV_EVENT_START_FILE {
        match e.payload {
            EventPayload::StartFile { playlist_entry_id } => Some(
                MpvEvent::StartFile { playlist_entry_id },
            ),
            _ => Some(MpvEvent::Error),
        }
    } else if id == MPV_EVENT_FILE_LOADED {
        Some(MpvEvent::FileLoaded)
    } else if id == MPV_EVENT_PLAYBACK_RESTART {
        Some(MpvEvent::PlaybackRestart)
    } else if id == MPV_EVENT_AUDIO_RECONFIG {
        Some(MpvEvent::AudioReconfig)
    } else if id == MPV_EVENT_VIDEO_RECONFIG {
        Some(MpvEvent::VideoReconfig)
    } else {
        Some(MpvEvent::Unsupported)
    }
}

/// Decodes an event. A property change whose payload cannot be decoded, or
/// an event whose data does not match its id, becomes `MpvEvent::Error`.
pub fn convert_event(e: &RawEvent) -> (r: Option<MpvEvent>)
    ensures
        r == spec_convert_event(*e),
{
    let id = e.event_id;
    if id == MPV_EVENT_NONE {
        None
    } else if id == MPV_EVENT_PROPERTY_CHANGE {
        match &e.payload {
            EventPayload::Property(p) => match Property::from_raw(p) {
                Ok(prop) => Some(MpvEvent::PropertyChange(prop)),
                Err(_) => Some(MpvEvent::Error),
            },
            _ => Some(MpvEvent::Error),
        }
    } else if id == MPV_EVENT_START_FILE {
        match &e.payload {
            EventPayload::StartFile { playlist_entry_id } => Some(
                MpvEvent::StartFile { playlist_entry_id: *playlist_entry_id },
            ),
            _ => Some(MpvEvent::Error),
        }
    } else if id == MPV_EVENT_FILE_LOADED {
        Some(MpvEvent::FileLoaded)
    } else if id == MPV_EVENT_PLAYBACK_RESTART {
        Some(MpvEvent::PlaybackRestart)
    } else if id == MPV_EVENT_AUDIO_RECONFIG {
        Some(MpvEvent::AudioReconfig)
    } else if id == MPV_EVENT_VIDEO_RECONFIG {
        Some(MpvEvent::VideoReconfig)
    } else {
        Some(MpvEvent::Unsupported)
    }
}

} // verus!

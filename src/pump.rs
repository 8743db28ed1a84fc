//! Decisions of the event pump: which GUI update follows each event.
//!
//! The pump itself runs outside the library: it waits for an event, asks
//! `ui_update` what to do, and forwards the update to the GUI thread.

use vstd::prelude::*;

use crate::mpv::event::MpvEvent;
use crate::mpv::property::{AoVolume, Property};
use crate::mpv::Error;

verus! {

/// How long, in milliseconds, one wait for an event may block.
pub const WAIT_TIMEOUT_MS: u32 = 1000;

/// A change to show in the GUI. Numbers are bit patterns of `f64`.
#[derive(Debug, Clone, PartialEq, Eq)]
pub enum UiUpdate {
    Duration(u64),
    Position(u64),
    Volume(u64),
    Title(String),
    /// Read the volume again and show it; libmpv reports no volume change
    /// when the volume becomes available, so this follows mute changes and
    /// audio, video and playback restarts.
    RefreshVolume,
}

/// The update that follows an event, if any.
pub open spec fn spec_ui_update(event: MpvEvent) -> Option<UiUpdate> {
    match event {
        MpvEvent::PropertyChange(Property::Duration(t)) => Some(UiUpdate::Duration(t.0)),
        MpvEvent::PropertyChange(Property::TimePos(t)) => Some(UiUpdate::Position(t.0)),
        MpvEvent::PropertyChange(Property::AoVolume(t)) => Some(UiUpdate::Volume(t.0)),
        MpvEvent::PropertyChange(Property::AoMute(_)) => Some(UiUpdate::RefreshVolume),
        MpvEvent::PropertyChange(Property::Filename(t)) => Some(UiUpdate::Title(t.0)),
        MpvEvent::AudioReconfig => Some(UiUpdate::RefreshVolume),
        MpvEvent::VideoReconfig => Some(UiUpdate::RefreshVolume),
        MpvEvent::PlaybackRestart => Some(UiUpdate::RefreshVolume),
        _ => None,
    }
}

/// Decides the GUI update for an event.
pub fn ui_update(event: &MpvEvent) -> (r: Option<UiUpdate>)
    ensures
        r == spec_ui_update(*event),
{
    match event {
        MpvEvent::PropertyChange(Property::Duration(t)) => Some(UiUpdate::Duration(t.0)),
        MpvEvent::PropertyChange(Property::TimePos(t)) => Some(UiUpdate::Position(t.0)),
        MpvEvent::PropertyChange(Property::AoVolume(t)) => Some(UiUpdate::Volume(t.0)),
        MpvEvent::PropertyChange(Property::AoMute(_)) => Some(UiUpdate::RefreshVolume),
        MpvEvent::PropertyChange(Property::Filename(t)) => Some(UiUpdate::Title(t.0.clone())),
        MpvEvent::AudioReconfig => Some(UiUpdate::RefreshVolume),
        MpvEvent::VideoReconfig => Some(UiUpdate::RefreshVolume),
        MpvEvent::PlaybackRestart => Some(UiUpdate::RefreshVolume),
        _ => None,
    }
}

/// The volume to show after reading it: the value read, or zero (the bit
/// pattern of `0.0`) when the read failed because no audio is loaded yet.
pub fn volume_or_zero(read: &Result<AoVolume, Error>) -> (r: u64)
    ensures
        r == (match *read {
            Ok(v) => v.0,
            Err(_) => 0u64,
        }),
{
    match read {
        Ok(v) => v.0,
        Err(_) => 0,
    }
}

} // verus!

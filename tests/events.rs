use slint_mpv::mpv::event::{
    convert_event, EventPayload, MpvEvent, RawEvent, MPV_EVENT_AUDIO_RECONFIG,
    MPV_EVENT_FILE_LOADED, MPV_EVENT_NONE, MPV_EVENT_PLAYBACK_RESTART,
    MPV_EVENT_PROPERTY_CHANGE, MPV_EVENT_START_FILE, MPV_EVENT_VIDEO_RECONFIG,
};
use slint_mpv::mpv::property::{NativeValue, Property, RawProperty, TimePos};

fn bare(event_id: u32) -> RawEvent {
    RawEvent { event_id, payload: EventPayload::Nothing }
}

fn property_change(name: &str, value: Option<NativeValue>) -> RawEvent {
    RawEvent {
        event_id: MPV_EVENT_PROPERTY_CHANGE,
        payload: EventPayload::Property(RawProperty { name: name.to_string(), value }),
    }
}

#[test]
fn no_event_after_timeout() {
    assert_eq!(MPV_EVENT_NONE, 0);
    assert_eq!(convert_event(&bare(MPV_EVENT_NONE)), None);
}

#[test]
fn property_change_decodes() {
    let e = property_change("time-pos", Some(NativeValue::Double(42.0f64.to_bits())));
    assert_eq!(
        convert_event(&e),
        Some(MpvEvent::PropertyChange(Property::TimePos(TimePos(42.0f64.to_bits()))))
    );
}

#[test]
fn undecodable_property_change_is_error_event() {
    let wrong_format = property_change("time-pos", Some(NativeValue::Flag(0)));
    assert_eq!(convert_event(&wrong_format), Some(MpvEvent::Error));
    let unknown = property_change("unknown-prop", Some(NativeValue::Double(0)));
    assert_eq!(convert_event(&unknown), Some(MpvEvent::Error));
    let missing = bare(MPV_EVENT_PROPERTY_CHANGE);
    assert_eq!(convert_event(&missing), Some(MpvEvent::Error));
}

#[test]
fn start_file_carries_playlist_entry() {
    let e = RawEvent {
        event_id: MPV_EVENT_START_FILE,
        payload: EventPayload::StartFile { playlist_entry_id: 3 },
    };
    assert_eq!(convert_event(&e), Some(MpvEvent::StartFile { playlist_entry_id: 3 }));
    assert_eq!(convert_event(&bare(MPV_EVENT_START_FILE)), Some(MpvEvent::Error));
}

#[test]
fn lifecycle_events() {
    assert_eq!(convert_event(&bare(MPV_EVENT_FILE_LOADED)), Some(MpvEvent::FileLoaded));
    assert_eq!(
        convert_event(&bare(MPV_EVENT_PLAYBACK_RESTART)),
        Some(MpvEvent::PlaybackRestart)
    );
    assert_eq!(
        convert_event(&bare(MPV_EVENT_AUDIO_RECONFIG)),
        Some(MpvEvent::AudioReconfig)
    );
    assert_eq!(
        convert_event(&bare(MPV_EVENT_VIDEO_RECONFIG)),
        Some(MpvEvent::VideoReconfig)
    );
}

#[test]
fn other_events_are_unsupported() {
    // MPV_EVENT_SHUTDOWN, MPV_EVENT_END_FILE, MPV_EVENT_SEEK
    for id in [1u32, 7, 20, 999] {
        assert_eq!(convert_event(&bare(id)), Some(MpvEvent::Unsupported));
    }
}

use composer_core::codec::EventKind;
use composer_core::playback::{
    decode_error, device_error, file_open_error, PlaybackController, PlaybackError,
};

#[test]
fn pause_without_play_reports_no_session() {
    let controller = PlaybackController::new();
    let result = controller.pause();
    assert_eq!(result, Err(PlaybackError::NoActiveSession));
    assert_eq!(
        PlaybackError::NoActiveSession.message(),
        "No audio is currently playing"
    );
}

#[test]
fn pause_with_active_session_succeeds() {
    let mut controller = PlaybackController::new();
    controller.play_install();
    assert_eq!(controller.pause(), Ok(()));
    assert!(controller.is_active());
}

#[test]
fn play_replaces_prior_session() {
    let mut controller = PlaybackController::new();
    let a = controller.play_install();
    let b = controller.play_install();
    assert_ne!(a, b);
    assert!(controller.is_active());
}

#[test]
fn stale_watcher_leaves_new_session_alone() {
    let mut controller = PlaybackController::new();
    let a = controller.play_install();
    let b = controller.play_install();

    let (event, cleared) = controller.on_completion(a);
    assert!(!cleared);
    assert!(controller.is_active());
    assert!(matches!(event.kind, EventKind::PlaybackDone));
    assert_eq!(event.message, "audio-playback-finished");

    let (_, cleared_b) = controller.on_completion(b);
    assert!(cleared_b);
    assert!(!controller.is_active());
}

#[test]
fn watcher_after_stop_takes_no_action() {
    let mut controller = PlaybackController::new();
    let a = controller.play_install();
    assert_eq!(controller.stop(), Ok(()));
    let (_, cleared) = controller.on_completion(a);
    assert!(!cleared);
    assert!(!controller.is_active());
}

#[test]
fn stop_then_stop_reports_no_session() {
    let mut controller = PlaybackController::new();
    controller.play_install();
    assert_eq!(controller.stop(), Ok(()));
    assert_eq!(controller.stop(), Err(PlaybackError::NoActiveSession));
}

#[test]
fn stop_without_play_reports_no_session() {
    let mut controller = PlaybackController::new();
    assert_eq!(controller.stop(), Err(PlaybackError::NoActiveSession));
}

#[test]
fn playback_error_messages() {
    let open = file_open_error("permission denied");
    assert_eq!(open.message(), "Error opening file: permission denied");
    assert!(matches!(open, PlaybackError::Decode { .. }));

    let decode = decode_error("unsupported format");
    assert_eq!(decode.message(), "Error decoding audio: unsupported format");
    assert!(matches!(decode, PlaybackError::Decode { .. }));

    let device = device_error("no default device");
    assert_eq!(device.message(), "Error creating sink: no default device");
    assert!(matches!(device, PlaybackError::Device { .. }));
}

use usrs_cli::capture::amplitude_is_silent;
use usrs_cli::capture::frame_is_silent;
use usrs_cli::capture::frame_peak;
use usrs_cli::capture::DetectedPitch;
use usrs_cli::capture::Letter;
use usrs_cli::capture::NotePitch;
use usrs_cli::capture::PitchMailbox;

#[test]
fn peak_is_the_largest_magnitude() {
    let frame: Vec<i16> = vec![3, -7, 5, -2];
    assert_eq!(frame_peak(&frame), 7);
}

#[test]
fn peak_of_empty_frame_is_zero() {
    let frame: Vec<i16> = Vec::new();
    assert_eq!(frame_peak(&frame), 0);
}

#[test]
fn peak_handles_the_most_negative_sample() {
    let frame: Vec<i16> = vec![i16::MIN, i16::MAX];
    assert_eq!(frame_peak(&frame), 32768);
}

#[test]
fn amplitude_of_exactly_one_tenth_is_silence() {
    // the detection threshold is strict: amplitude must exceed 0.1
    assert!(amplitude_is_silent(1, 10));
    assert!(amplitude_is_silent(100, 1000));
    assert!(!amplitude_is_silent(101, 1000));
    assert!(amplitude_is_silent(0, 32767));
}

#[test]
fn frame_silence_boundary() {
    // normalized amplitude is 2 * peak / 32767; it exceeds 0.1 exactly
    // when 20 * peak > 32767, first at peak 1639
    let silent: Vec<i16> = vec![0, 1638, -1638];
    assert!(frame_is_silent(&silent));
    let voiced: Vec<i16> = vec![0, -1639];
    assert!(!frame_is_silent(&voiced));
}

#[test]
fn empty_frame_is_silent() {
    let frame: Vec<i16> = Vec::new();
    assert!(frame_is_silent(&frame));
}

#[test]
fn mailbox_overwrites_and_reads_latest() {
    let a4 = DetectedPitch::Detected {
        pitch: NotePitch { letter: Letter::A, octave: 4 },
        peak: 4000,
    };
    let c2 = DetectedPitch::Detected {
        pitch: NotePitch { letter: Letter::C, octave: 2 },
        peak: 2000,
    };
    let mut mailbox = PitchMailbox::new(DetectedPitch::Silence);
    assert_eq!(mailbox.read(), DetectedPitch::Silence);
    mailbox.publish(a4);
    mailbox.publish(c2);
    assert_eq!(mailbox.read(), c2);
    assert_eq!(mailbox.read(), c2);
    mailbox.publish(DetectedPitch::Silence);
    assert_eq!(mailbox.read(), DetectedPitch::Silence);
}

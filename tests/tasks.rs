use cattrack::envelope::Envelope;
use cattrack::error::ConstructionError;
use cattrack::payload::{CameraFrame, CatDetection, FRAME_SIZE};
use cattrack::tasks::{run_tick, CameraSource, CatDetector, ServoSink, TaskConfig};
use cu29::clock::RobotClock;

fn bad_config() -> TaskConfig {
    TaskConfig::new().with_option("exposure".to_string()).with_option("gain".to_string())
}

#[test]
fn camera_source_produces_a_zero_frame() {
    let clock = RobotClock::new();
    let mut source = CameraSource::new(None).unwrap();
    let mut out: Envelope<CameraFrame> = Envelope::new();
    assert!(source.process(&clock, &mut out).is_ok());
    let frame = out.payload().unwrap();
    assert_eq!(frame.width, 320);
    assert_eq!(frame.height, 320);
    assert_eq!(frame.data.len(), FRAME_SIZE);
    assert!(frame.data.as_slice().iter().all(|&b| b == 0));
}

#[test]
fn detector_reports_placeholder_on_absent_input() {
    let clock = RobotClock::new();
    let mut detector = CatDetector::new(None).unwrap();
    let input: Envelope<CameraFrame> = Envelope::new();
    let mut out: Envelope<CatDetection> = Envelope::new();
    assert!(detector.process(&clock, &input, &mut out).is_ok());
    let d = out.payload().unwrap();
    assert!(d.found);
    assert_eq!(f32::from_bits(d.confidence_bits), 0.5);
    assert_eq!((d.center_x, d.center_y), (160, 160));
}

#[test]
fn sink_accepts_absent_input() {
    let clock = RobotClock::new();
    let mut sink = ServoSink::new(None).unwrap();
    let input: Envelope<CatDetection> = Envelope::new();
    assert_eq!(sink.process(&clock, &input), Ok(None));
}

#[test]
fn sink_observes_its_input() {
    let clock = RobotClock::new();
    let mut sink = ServoSink::new(None).unwrap();
    let d = CatDetection { found: false, confidence_bits: 0, center_x: 3, center_y: 4 };
    let mut input: Envelope<CatDetection> = Envelope::new();
    input.set_payload(d);
    assert_eq!(sink.process(&clock, &input), Ok(Some(d)));
}

#[test]
fn one_tick_reaches_the_sink() {
    let clock = RobotClock::new();
    let mut source = CameraSource::new(None).unwrap();
    let mut detector = CatDetector::new(None).unwrap();
    let mut sink = ServoSink::new(None).unwrap();
    let record = run_tick(&mut source, &mut detector, &mut sink, &clock).unwrap();
    let frame = record.frame.payload().unwrap();
    assert_eq!(frame.data.len(), 320 * 320 * 3);
    assert!(frame.data.as_slice().iter().all(|&b| b == 0));
    let seen = record.observed.unwrap();
    assert!(seen.found);
    assert_eq!(f32::from_bits(seen.confidence_bits), 0.5);
    assert_eq!(seen.center_x, 160);
    assert_eq!(seen.center_y, 160);
    assert_eq!(record.detection.payload(), Some(&seen));
}

#[test]
fn unknown_option_fails_then_clean_build_succeeds() {
    let bad = bad_config();
    assert_eq!(
        CameraSource::new(Some(&bad)).err(),
        Some(ConstructionError::UnknownOption { name: "exposure".to_string() })
    );
    assert!(CatDetector::new(Some(&bad)).is_err());
    assert!(ServoSink::new(Some(&bad)).is_err());
    let empty = TaskConfig::new();
    assert!(CameraSource::new(Some(&empty)).is_ok());
    assert!(CatDetector::new(Some(&empty)).is_ok());
    assert!(ServoSink::new(None).is_ok());
}

#[test]
fn freeze_then_thaw_keeps_ticks_the_same() {
    let clock = RobotClock::new();
    let mut source = CameraSource::new(None).unwrap();
    let mut detector = CatDetector::new(None).unwrap();
    let mut sink = ServoSink::new(None).unwrap();
    let before = run_tick(&mut source, &mut detector, &mut sink, &clock).unwrap();
    let snaps = (source.freeze(), detector.freeze(), sink.freeze());
    assert!(snaps.0.is_empty() && snaps.1.is_empty() && snaps.2.is_empty());
    assert!(source.thaw(&snaps.0).is_ok());
    assert!(detector.thaw(&snaps.1).is_ok());
    assert!(sink.thaw(&snaps.2).is_ok());
    let after = run_tick(&mut source, &mut detector, &mut sink, &clock).unwrap();
    assert_eq!(before.observed, after.observed);
    assert_eq!(
        before.frame.payload().unwrap().data.as_slice(),
        after.frame.payload().unwrap().data.as_slice()
    );
}

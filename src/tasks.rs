use vstd::prelude::*;
use cu29::clock::RobotClock;
use crate::buffer::FixedBuffer;
use crate::envelope::Envelope;
use crate::error::{ConstructionError, DecodeError, ProcessError};
use crate::payload::{CameraFrame, CatDetection, FRAME_HEIGHT, FRAME_SIZE, FRAME_WIDTH};

verus! {

/// Declares cu29's `RobotClock`, the pipeline's monotonic clock, as an
/// opaque type: every stage receives it by reference, and none of the
/// stages here reads it, so nothing is assumed of its contents.
#[verifier::external_type_specification]
#[verifier::external_body]
pub struct ExRobotClock(RobotClock);

/// The byte that fills the camera's frames until a real sensor is wired in.
pub const PLACEHOLDER_PIXEL: u8 = 0;

/// Detection confidence of one half, as the bits of a 32-bit float.
pub const HALF_CONFIDENCE_BITS: u32 = 0x3F00_0000;

/// The named options given to a task when it is built.
pub struct TaskConfig {
    options: Vec<String>,
}

impl View for TaskConfig {
    type V = Seq<String>;

    closed spec fn view(&self) -> Seq<String> {
        self.options@
    }
}

impl TaskConfig {
    /// A configuration with no options.
    pub fn new() -> (r: Self)
        ensures
            r@ == Seq::<String>::empty(),
    {
        TaskConfig { options: Vec::new() }
    }

    /// The configuration with the option `name` added after the others.
    pub fn with_option(self, name: String) -> (r: Self)
        ensures
            r@ == self@.push(name),
    {
        let mut options = self.options;
        options.push(name);
        TaskConfig { options }
    }

    /// The option names, in the order they were added.
    pub fn option_names(&self) -> (r: &[String])
        ensures
            r@ == self@,
    {
        self.options.as_slice()
    }
}

/// The first option in `config` that a task which recognises no options
/// rejects, if any.
pub open spec fn first_unknown_option(config: Option<&TaskConfig>) -> Option<String> {
    match config {
        Some(c) => if c@.len() > 0 {
            Some(c@[0])
        } else {
            None
        },
        None => None,
    }
}

/// What building a task that recognises no options gives on `config`.
pub open spec fn construction_outcome(config: Option<&TaskConfig>) -> Result<(), ConstructionError> {
    match first_unknown_option(config) {
        Some(name) => Err(ConstructionError::UnknownOption { name }),
        None => Ok(()),
    }
}

/// Checks `config` for a task that recognises no options: any option is
/// an error that names it.
fn check_no_options(config: Option<&TaskConfig>) -> (r: Result<(), ConstructionError>)
    ensures
        r is Ok <==> construction_outcome(config) is Ok,
        r matches Err(ConstructionError::UnknownOption { name }) ==> construction_outcome(config)
            matches Err(ConstructionError::UnknownOption { name: expected }) && name@
            == expected@,
{
    match config {
        Some(c) => {
            let names = c.option_names();
            if names.len() > 0 {
                Err(ConstructionError::UnknownOption { name: names[0].clone() })
            } else {
                Ok(())
            }
        },
        None => Ok(()),
    }
}

/// Building a task is decided by its configuration alone: an unknown option
/// fails, naming the option, and a build with no options then succeeds, as
/// nothing from the failed attempt is kept.
pub proof fn lemma_construction_isolation(bad: &TaskConfig, good: &TaskConfig)
    requires
        bad@.len() > 0,
        good@.len() == 0,
    ensures
        construction_outcome(Some(bad)) == Err::<(), ConstructionError>(
            ConstructionError::UnknownOption { name: bad@[0] },
        ),
        construction_outcome(Some(good)) is Ok,
        construction_outcome(None) is Ok,
{
}

/// The frame the camera produces each tick: every byte is the placeholder
/// pixel, at the full frame size.
pub open spec fn is_placeholder_frame(f: CameraFrame) -> bool {
    &&& f.data.wf()
    &&& f.data@ == Seq::new(FRAME_SIZE as nat, |_i: int| PLACEHOLDER_PIXEL)
    &&& f.width == FRAME_WIDTH
    &&& f.height == FRAME_HEIGHT
}

/// What the detector reports for any input: a cat at the frame's centre,
/// with confidence one half.
pub open spec fn placeholder_detection() -> CatDetection {
    CatDetection {
        found: true,
        confidence_bits: HALF_CONFIDENCE_BITS,
        center_x: FRAME_WIDTH / 2,
        center_y: FRAME_HEIGHT / 2,
    }
}

/// The source stage: produces one camera frame per tick.
pub struct CameraSource {}

/// The transform stage: turns a camera frame into a detection.
pub struct CatDetector {}

/// The sink stage: takes the detection that it will act on.
pub struct ServoSink {}

impl CameraSource {
    /// Builds the camera stage; it recognises no options.
    pub fn new(config: Option<&TaskConfig>) -> (r: Result<CameraSource, ConstructionError>)
        ensures
            r is Ok <==> construction_outcome(config) is Ok,
            r matches Err(ConstructionError::UnknownOption { name }) ==> construction_outcome(
                config,
            ) matches Err(ConstructionError::UnknownOption { name: expected }) && name@
                == expected@,
    {
        match check_no_options(config) {
            Ok(()) => Ok(CameraSource {  }),
            Err(e) => Err(e),
        }
    }

    /// One tick: sets `output` to a full frame of placeholder pixels.
    pub fn process(&mut self, clock: &RobotClock, output: &mut Envelope<CameraFrame>) -> (r:
        Result<(), ProcessError>)
        ensures
            r is Ok,
            *final(self) == *old(self),
            final(output)@ matches Some(f) && is_placeholder_frame(f),
    {
        let mut data: FixedBuffer<u8, FRAME_SIZE> = FixedBuffer::new();
        let pixels: Vec<u8> = vec![PLACEHOLDER_PIXEL; FRAME_SIZE];
        assert(pixels@ =~= Seq::new(FRAME_SIZE as nat, |_i: int| PLACEHOLDER_PIXEL));
        data.fill_from_iter(pixels.as_slice());
        assert(data@ =~= Seq::new(FRAME_SIZE as nat, |_i: int| PLACEHOLDER_PIXEL));
        output.set_payload(CameraFrame { data, width: FRAME_WIDTH, height: FRAME_HEIGHT });
        Ok(())
    }
}

impl CatDetector {
    /// Builds the detector stage; it recognises no options.
    pub fn new(config: Option<&TaskConfig>) -> (r: Result<CatDetector, ConstructionError>)
        ensures
            r is Ok <==> construction_outcome(config) is Ok,
            r matches Err(ConstructionError::UnknownOption { name }) ==> construction_outcome(
                config,
            ) matches Err(ConstructionError::UnknownOption { name: expected }) && name@
                == expected@,
    {
        match check_no_options(config) {
            Ok(()) => Ok(CatDetector {  }),
            Err(e) => Err(e),
        }
    }

    /// One tick: reports the placeholder detection, whether or not a frame
    /// arrived this tick.
    pub fn process(
        &mut self,
        clock: &RobotClock,
        input: &Envelope<CameraFrame>,
        output: &mut Envelope<CatDetection>,
    ) -> (r: Result<(), ProcessError>)
        ensures
            r is Ok,
            *final(self) == *old(self),
            final(output)@ == Some(placeholder_detection()),
    {
        output.set_payload(
            CatDetection {
                found: true,
                confidence_bits: HALF_CONFIDENCE_BITS,
                center_x: FRAME_WIDTH / 2,
                center_y: FRAME_HEIGHT / 2,
            },
        );
        Ok(())
    }
}

impl ServoSink {
    /// Builds the servo stage; it recognises no options.
    pub fn new(config: Option<&TaskConfig>) -> (r: Result<ServoSink, ConstructionError>)
        ensures
            r is Ok <==> construction_outcome(config) is Ok,
            r matches Err(ConstructionError::UnknownOption { name }) ==> construction_outcome(
                config,
            ) matches Err(ConstructionError::UnknownOption { name: expected }) && name@
                == expected@,
    {
        match check_no_options(config) {
            Ok(()) => Ok(ServoSink {  }),
            Err(e) => Err(e),
        }
    }

    /// One tick: hands back the detection it received, or `None` when the
    /// detector produced nothing this tick.
    pub fn process(&mut self, clock: &RobotClock, input: &Envelope<CatDetection>) -> (r: Result<
        Option<CatDetection>,
        ProcessError,
    >)
        ensures
            r == Ok::<Option<CatDetection>, ProcessError>(input@),
            *final(self) == *old(self),
    {
        match input.payload() {
            Some(d) => Ok(Some(*d)),
            None => Ok(None),
        }
    }
}

impl CameraSource {
    /// The bytes that record the stage's state: none, as it keeps no state.
    pub open spec fn state_bytes(&self) -> Seq<u8> {
        Seq::empty()
    }

    /// The task after restoring `snapshot`: as it was, since it has no
    /// state to restore.
    pub open spec fn thawed(&self, snapshot: Seq<u8>) -> Self {
        *self
    }

    /// Takes a snapshot of the task's state.
    pub fn freeze(&self) -> (r: Vec<u8>)
        ensures
            r@ == self.state_bytes(),
    {
        Vec::new()
    }

    /// Restores the task's state from `snapshot`.
    pub fn thaw(&mut self, snapshot: &[u8]) -> (r: Result<(), DecodeError>)
        ensures
            r is Ok,
            *final(self) == old(self).thawed(snapshot@),
    {
        Ok(())
    }
}

impl CatDetector {
    /// The bytes that record the stage's state: none, as it keeps no state.
    pub open spec fn state_bytes(&self) -> Seq<u8> {
        Seq::empty()
    }

    /// The task after restoring `snapshot`: as it was, since it has no
    /// state to restore.
    pub open spec fn thawed(&self, snapshot: Seq<u8>) -> Self {
        *self
    }

    /// Takes a snapshot of the task's state.
    pub fn freeze(&self) -> (r: Vec<u8>)
        ensures
            r@ == self.state_bytes(),
    {
        Vec::new()
    }

    /// Restores the task's state from `snapshot`.
    pub fn thaw(&mut self, snapshot: &[u8]) -> (r: Result<(), DecodeError>)
        ensures
            r is Ok,
            *final(self) == old(self).thawed(snapshot@),
    {
        Ok(())
    }
}

impl ServoSink {
    /// The bytes that record the stage's state: none, as it keeps no state.
    pub open spec fn state_bytes(&self) -> Seq<u8> {
        Seq::empty()
    }

    /// The task after restoring `snapshot`: as it was, since it has no
    /// state to restore.
    pub open spec fn thawed(&self, snapshot: Seq<u8>) -> Self {
        *self
    }

    /// Takes a snapshot of the task's state.
    pub fn freeze(&self) -> (r: Vec<u8>)
        ensures
            r@ == self.state_bytes(),
    {
        Vec::new()
    }

    /// Restores the task's state from `snapshot`.
    pub fn thaw(&mut self, snapshot: &[u8]) -> (r: Result<(), DecodeError>)
        ensures
            r is Ok,
            *final(self) == old(self).thawed(snapshot@),
    {
        Ok(())
    }
}

/// Restoring a task from its own snapshot leaves it as it was, so that its
/// later ticks give what they would have given without the round trip.
pub proof fn lemma_freeze_thaw(source: CameraSource, detector: CatDetector, sink: ServoSink)
    ensures
        source.thawed(source.state_bytes()) == source,
        detector.thawed(detector.state_bytes()) == detector,
        sink.thawed(sink.state_bytes()) == sink,
{
}

/// Everything one tick of the pipeline produced: each stage's envelope,
/// and the detection the servo stage took.
pub struct TickRecord {
    pub frame: Envelope<CameraFrame>,
    pub detection: Envelope<CatDetection>,
    pub observed: Option<CatDetection>,
}

/// Runs one tick of camera, detector and servo, in that order. Each stage
/// writes a fresh envelope, and the next stage reads the envelope written
/// in this same tick. The first stage error ends the tick.
pub fn run_tick(
    source: &mut CameraSource,
    detector: &mut CatDetector,
    sink: &mut ServoSink,
    clock: &RobotClock,
) -> (r: Result<TickRecord, ProcessError>)
    ensures
        r matches Ok(t) && t.frame@ matches Some(f) && is_placeholder_frame(f)
            && t.detection@ == Some(placeholder_detection()) && t.observed == t.detection@,
        *final(source) == *old(source),
        *final(detector) == *old(detector),
        *final(sink) == *old(sink),
{
    let mut frame: Envelope<CameraFrame> = Envelope::new();
    match source.process(clock, &mut frame) {
        Ok(()) => {},
        Err(e) => return Err(e),
    }
    let mut detection: Envelope<CatDetection> = Envelope::new();
    match detector.process(clock, &frame, &mut detection) {
        Ok(()) => {},
        Err(e) => return Err(e),
    }
    match sink.process(clock, &detection) {
        Ok(observed) => Ok(TickRecord { frame, detection, observed }),
        Err(e) => Err(e),
    }
}

} // verus!

use vstd::prelude::*;
use crate::buffer::FixedBuffer;
use crate::error::{DecodeError, DecodeErrorKind};

verus! {

/// Width of a camera frame, in pixels.
pub const FRAME_WIDTH: u32 = 320;

/// Height of a camera frame, in pixels.
pub const FRAME_HEIGHT: u32 = 320;

/// Bytes in one RGB24 frame: width * height * 3 channels.
pub const FRAME_SIZE: usize = 320 * 320 * 3;

/// Length of an encoded frame: length prefix, pixel bytes, width, height.
pub const FRAME_ENCODED_LEN: usize = 4 + 320 * 320 * 3 + 4 + 4;

/// Length of an encoded detection: flag, confidence, two coordinates.
pub const DETECTION_ENCODED_LEN: usize = 13;

/// One RGB24 image as it travels from the camera to the detector.
#[derive(Debug, Clone)]
pub struct CameraFrame {
    pub data: FixedBuffer<u8, FRAME_SIZE>,
    pub width: u32,
    pub height: u32,
}

/// What the detector reports for one frame. `confidence_bits` holds the
/// IEEE-754 bit pattern of the confidence as a 32-bit float.
#[derive(Debug, Clone, Copy, PartialEq, Eq, Structural)]
pub struct CatDetection {
    pub found: bool,
    pub confidence_bits: u32,
    pub center_x: u32,
    pub center_y: u32,
}

/// The four little-endian bytes of `v`.
pub open spec fn le_bytes(v: u32) -> Seq<u8> {
    seq![
        (v & 0xff) as u8,
        ((v >> 8u32) & 0xff) as u8,
        ((v >> 16u32) & 0xff) as u8,
        ((v >> 24u32) & 0xff) as u8,
    ]
}

/// The `u32` whose little-endian bytes start at `at` in `b`.
pub open spec fn le_value(b: Seq<u8>, at: int) -> u32 {
    (b[at] as u32) | ((b[at + 1] as u32) << 8u32) | ((b[at + 2] as u32) << 16u32) | ((
    b[at + 3] as u32) << 24u32)
}

/// The bytes of a frame: its fixed length, its pixel bytes, width, height.
pub open spec fn frame_encoding(f: CameraFrame) -> Seq<u8> {
    le_bytes(FRAME_SIZE as u32) + f.data@ + le_bytes(f.width) + le_bytes(f.height)
}

/// An error at byte offset `at`.
pub open spec fn error_at(at: int, kind: DecodeErrorKind) -> DecodeError {
    DecodeError { offset: at as usize, kind }
}

/// What decoding a frame from the start of `b` gives: its pixel bytes,
/// width and height, or the first field that cannot be read.
pub open spec fn frame_decoding(b: Seq<u8>) -> Result<(Seq<u8>, u32, u32), DecodeError> {
    let n = FRAME_SIZE as int;
    if b.len() < 4 {
        Err(error_at(0, DecodeErrorKind::UnexpectedEnd))
    } else if le_value(b, 0) != FRAME_SIZE as u32 {
        Err(error_at(0, DecodeErrorKind::WrongLength { found: le_value(b, 0) }))
    } else if b.len() < 4 + n {
        Err(error_at(4, DecodeErrorKind::UnexpectedEnd))
    } else if b.len() < 8 + n {
        Err(error_at(4 + n, DecodeErrorKind::UnexpectedEnd))
    } else if b.len() < 12 + n {
        Err(error_at(8 + n, DecodeErrorKind::UnexpectedEnd))
    } else {
        Ok((b.subrange(4, 4 + n), le_value(b, 4 + n), le_value(b, 8 + n)))
    }
}

/// The bytes of a detection: the flag as 0 or 1, then the confidence bits
/// and the two coordinates.
pub open spec fn detection_encoding(d: CatDetection) -> Seq<u8> {
    seq![if d.found { 1u8 } else { 0u8 }] + le_bytes(d.confidence_bits) + le_bytes(d.center_x)
        + le_bytes(d.center_y)
}

/// What decoding a detection from the start of `b` gives, or the first
/// field that cannot be read.
pub open spec fn detection_decoding(b: Seq<u8>) -> Result<CatDetection, DecodeError> {
    if b.len() < 1 {
        Err(error_at(0, DecodeErrorKind::UnexpectedEnd))
    } else if b[0] > 1 {
        Err(error_at(0, DecodeErrorKind::InvalidBool { byte: b[0] }))
    } else if b.len() < 5 {
        Err(error_at(1, DecodeErrorKind::UnexpectedEnd))
    } else if b.len() < 9 {
        Err(error_at(5, DecodeErrorKind::UnexpectedEnd))
    } else if b.len() < 13 {
        Err(error_at(9, DecodeErrorKind::UnexpectedEnd))
    } else {
        Ok(
            CatDetection {
                found: b[0] == 1,
                confidence_bits: le_value(b, 1),
                center_x: le_value(b, 5),
                center_y: le_value(b, 9),
            },
        )
    }
}

/// Reading back the four little-endian bytes of `v` gives `v`.
pub proof fn lemma_le_round_trip(v: u32, b: Seq<u8>, at: int)
    requires
        0 <= at,
        at + 4 <= b.len(),
        b.subrange(at, at + 4) == le_bytes(v),
    ensures
        le_value(b, at) == v,
{
    assert(b[at] == le_bytes(v)[0]);
    assert(b[at + 1] == le_bytes(v)[1]);
    assert(b[at + 2] == le_bytes(v)[2]);
    assert(b[at + 3] == le_bytes(v)[3]);
    assert(((v & 0xff) as u8) as u32 | (((((v >> 8u32) & 0xff) as u8) as u32) << 8u32) | ((
    (((v >> 16u32) & 0xff) as u8) as u32) << 16u32) | (((((v >> 24u32) & 0xff) as u8) as u32)
        << 24u32) == v) by (bit_vector);
}

/// Appends the four little-endian bytes of `v` to `out`.
fn push_le(out: &mut Vec<u8>, v: u32)
    ensures
        final(out)@ == old(out)@ + le_bytes(v),
{
    out.push((v & 0xff) as u8);
    out.push(((v >> 8u32) & 0xff) as u8);
    out.push(((v >> 16u32) & 0xff) as u8);
    out.push(((v >> 24u32) & 0xff) as u8);
    assert(final(out)@ =~= old(out)@ + le_bytes(v));
}

/// The `u32` whose little-endian bytes start at `at`.
fn read_le(b: &[u8], at: usize) -> (r: u32)
    requires
        at + 4 <= b@.len(),
    ensures
        r == le_value(b@, at as int),
{
    (b[at] as u32) | ((b[at + 1] as u32) << 8u32) | ((b[at + 2] as u32) << 16u32) | ((
    b[at + 3] as u32) << 24u32)
}

impl CameraFrame {
    /// Appends the frame's bytes to `out`.
    pub fn encode_into(&self, out: &mut Vec<u8>)
        requires
            self.data.wf(),
        ensures
            final(out)@ == old(out)@ + frame_encoding(*self),
    {
        push_le(out, FRAME_SIZE as u32);
        let pixels = self.data.as_slice();
        let mut i: usize = 0;
        while i < FRAME_SIZE
            invariant
                pixels@ == self.data@,
                pixels@.len() == FRAME_SIZE,
                i <= FRAME_SIZE,
                out@ == old(out)@ + le_bytes(FRAME_SIZE as u32) + pixels@.subrange(0, i as int),
            decreases FRAME_SIZE - i,
        {
            out.push(pixels[i]);
            i = i + 1;
            assert(pixels@.subrange(0, i as int) =~= pixels@.subrange(0, i - 1) + seq![
                pixels@[i - 1],
            ]);
        }
        assert(pixels@.subrange(0, FRAME_SIZE as int) =~= pixels@);
        push_le(out, self.width);
        push_le(out, self.height);
    }

    /// The frame's bytes.
    pub fn encode(&self) -> (r: Vec<u8>)
        requires
            self.data.wf(),
        ensures
            r@ == frame_encoding(*self),
            r@.len() == FRAME_ENCODED_LEN,
    {
        let mut out: Vec<u8> = Vec::with_capacity(FRAME_ENCODED_LEN);
        self.encode_into(&mut out);
        assert(out@ =~= frame_encoding(*self));
        out
    }

    /// Decodes a frame from the start of `bytes`, and tells how many bytes
    /// it took.
    pub fn decode(bytes: &[u8]) -> (r: Result<(CameraFrame, usize), DecodeError>)
        ensures
            r is Ok <==> frame_decoding(bytes@) is Ok,
            r matches Ok((f, used)) ==> f.data.wf() && frame_decoding(bytes@) == Ok::<
                (Seq<u8>, u32, u32),
                DecodeError,
            >((f.data@, f.width, f.height)) && used == FRAME_ENCODED_LEN,
            r matches Err(e) ==> frame_decoding(bytes@) == Err::<(Seq<u8>, u32, u32), DecodeError>(
                e,
            ),
    {
        if bytes.len() < 4 {
            return Err(DecodeError { offset: 0, kind: DecodeErrorKind::UnexpectedEnd });
        }
        let len = read_le(bytes, 0);
        if len != FRAME_SIZE as u32 {
            return Err(DecodeError { offset: 0, kind: DecodeErrorKind::WrongLength { found: len } });
        }
        if bytes.len() < 4 + FRAME_SIZE {
            return Err(DecodeError { offset: 4, kind: DecodeErrorKind::UnexpectedEnd });
        }
        if bytes.len() < 8 + FRAME_SIZE {
            return Err(DecodeError { offset: 4 + FRAME_SIZE, kind: DecodeErrorKind::UnexpectedEnd });
        }
        if bytes.len() < 12 + FRAME_SIZE {
            return Err(DecodeError { offset: 8 + FRAME_SIZE, kind: DecodeErrorKind::UnexpectedEnd });
        }
        let mut pixels: Vec<u8> = Vec::with_capacity(FRAME_SIZE);
        let mut i: usize = 0;
        while i < FRAME_SIZE
            invariant
                bytes@.len() >= 12 + FRAME_SIZE,
                i <= FRAME_SIZE,
                pixels@ == bytes@.subrange(4, 4 + i),
            decreases FRAME_SIZE - i,
        {
            pixels.push(bytes[4 + i]);
            i = i + 1;
            assert(pixels@ =~= bytes@.subrange(4, 4 + i));
        }
        let width = read_le(bytes, 4 + FRAME_SIZE);
        let height = read_le(bytes, 8 + FRAME_SIZE);
        match FixedBuffer::from_vec(pixels) {
            Some(data) => Ok((CameraFrame { data, width, height }, FRAME_ENCODED_LEN)),
            None => {
                // `pixels` holds exactly FRAME_SIZE bytes, so this arm is never taken.
                proof {
                    assert(false);
                }
                Err(DecodeError { offset: 4, kind: DecodeErrorKind::UnexpectedEnd })
            },
        }
    }
}

impl CatDetection {
    /// The detection's bytes.
    pub fn encode(&self) -> (r: Vec<u8>)
        ensures
            r@ == detection_encoding(*self),
            r@.len() == DETECTION_ENCODED_LEN,
    {
        let mut out: Vec<u8> = Vec::with_capacity(DETECTION_ENCODED_LEN);
        out.push(if self.found { 1u8 } else { 0u8 });
        push_le(&mut out, self.confidence_bits);
        push_le(&mut out, self.center_x);
        push_le(&mut out, self.center_y);
        assert(out@ =~= detection_encoding(*self));
        out
    }

    /// Decodes a detection from the start of `bytes`, and tells how many
    /// bytes it took.
    pub fn decode(bytes: &[u8]) -> (r: Result<(CatDetection, usize), DecodeError>)
        ensures
            r is Ok <==> detection_decoding(bytes@) is Ok,
            r matches Ok((d, used)) ==> detection_decoding(bytes@) == Ok::<CatDetection, DecodeError>(
                d,
            ) && used == DETECTION_ENCODED_LEN,
            r matches Err(e) ==> detection_decoding(bytes@) == Err::<CatDetection, DecodeError>(e),
    {
        if bytes.len() < 1 {
            return Err(DecodeError { offset: 0, kind: DecodeErrorKind::UnexpectedEnd });
        }
        let flag = bytes[0];
        if flag > 1 {
            return Err(DecodeError { offset: 0, kind: DecodeErrorKind::InvalidBool { byte: flag } });
        }
        if bytes.len() < 5 {
            return Err(DecodeError { offset: 1, kind: DecodeErrorKind::UnexpectedEnd });
        }
        if bytes.len() < 9 {
            return Err(DecodeError { offset: 5, kind: DecodeErrorKind::UnexpectedEnd });
        }
        if bytes.len() < 13 {
            return Err(DecodeError { offset: 9, kind: DecodeErrorKind::UnexpectedEnd });
        }
        let d = CatDetection {
            found: flag == 1,
            confidence_bits: read_le(bytes, 1),
            center_x: read_le(bytes, 5),
            center_y: read_le(bytes, 9),
        };
        Ok((d, DETECTION_ENCODED_LEN))
    }
}

/// Decoding the bytes of a frame, whatever follows them, gives back the
/// frame's pixel bytes, width and height.
pub proof fn lemma_frame_round_trip(f: CameraFrame, rest: Seq<u8>)
    requires
        f.data.wf(),
    ensures
        frame_decoding(frame_encoding(f) + rest) == Ok::<(Seq<u8>, u32, u32), DecodeError>(
            (f.data@, f.width, f.height),
        ),
{
    let n = FRAME_SIZE as int;
    let b = frame_encoding(f) + rest;
    assert(b.subrange(0, 4) =~= le_bytes(FRAME_SIZE as u32));
    lemma_le_round_trip(FRAME_SIZE as u32, b, 0);
    assert(b.subrange(4, 4 + n) =~= f.data@);
    assert(b.subrange(4 + n, 8 + n) =~= le_bytes(f.width));
    lemma_le_round_trip(f.width, b, 4 + n);
    assert(b.subrange(8 + n, 12 + n) =~= le_bytes(f.height));
    lemma_le_round_trip(f.height, b, 8 + n);
}

/// Decoding the bytes of a detection, whatever follows them, gives back
/// the detection.
pub proof fn lemma_detection_round_trip(d: CatDetection, rest: Seq<u8>)
    ensures
        detection_decoding(detection_encoding(d) + rest) == Ok::<CatDetection, DecodeError>(d),
{
    let b = detection_encoding(d) + rest;
    assert(b.subrange(1, 5) =~= le_bytes(d.confidence_bits));
    lemma_le_round_trip(d.confidence_bits, b, 1);
    assert(b.subrange(5, 9) =~= le_bytes(d.center_x));
    lemma_le_round_trip(d.center_x, b, 5);
    assert(b.subrange(9, 13) =~= le_bytes(d.center_y));
    lemma_le_round_trip(d.center_y, b, 9);
}

} // verus!

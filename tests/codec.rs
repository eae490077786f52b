use cattrack::buffer::FixedBuffer;
use cattrack::error::{DecodeError, DecodeErrorKind};
use cattrack::payload::{
    CameraFrame, CatDetection, DETECTION_ENCODED_LEN, FRAME_ENCODED_LEN, FRAME_SIZE,
};

fn sample_frame() -> CameraFrame {
    let mut data: FixedBuffer<u8, FRAME_SIZE> = FixedBuffer::new();
    let pattern: Vec<u8> = (0..FRAME_SIZE).map(|i| (i % 251) as u8).collect();
    data.fill_from_iter(&pattern);
    CameraFrame { data, width: 320, height: 240 }
}

#[test]
fn detection_bytes_are_exact() {
    let d = CatDetection {
        found: true,
        confidence_bits: 0.5f32.to_bits(),
        center_x: 160,
        center_y: 0x0102_0304,
    };
    assert_eq!(
        d.encode(),
        vec![1u8, 0, 0, 0, 0x3f, 160, 0, 0, 0, 4, 3, 2, 1]
    );
}

#[test]
fn detection_round_trip() {
    let d = CatDetection {
        found: false,
        confidence_bits: 0.25f32.to_bits(),
        center_x: 7,
        center_y: u32::MAX,
    };
    let mut bytes = d.encode();
    bytes.extend_from_slice(&[9, 9]);
    let (back, used) = CatDetection::decode(&bytes).unwrap();
    assert_eq!(back, d);
    assert_eq!(used, DETECTION_ENCODED_LEN);
    assert_eq!(f32::from_bits(back.confidence_bits), 0.25);
}

#[test]
fn detection_decode_errors() {
    assert_eq!(
        CatDetection::decode(&[]),
        Err(DecodeError { offset: 0, kind: DecodeErrorKind::UnexpectedEnd })
    );
    assert_eq!(
        CatDetection::decode(&[2, 0, 0, 0, 0, 0, 0, 0, 0, 0, 0, 0, 0]),
        Err(DecodeError { offset: 0, kind: DecodeErrorKind::InvalidBool { byte: 2 } })
    );
    assert_eq!(
        CatDetection::decode(&[1, 0, 0]),
        Err(DecodeError { offset: 1, kind: DecodeErrorKind::UnexpectedEnd })
    );
    assert_eq!(
        CatDetection::decode(&[1, 0, 0, 0, 0, 0]),
        Err(DecodeError { offset: 5, kind: DecodeErrorKind::UnexpectedEnd })
    );
    assert_eq!(
        CatDetection::decode(&[1, 0, 0, 0, 0, 0, 0, 0, 0, 0, 0, 0]),
        Err(DecodeError { offset: 9, kind: DecodeErrorKind::UnexpectedEnd })
    );
}

#[test]
fn frame_round_trip() {
    let f = sample_frame();
    let bytes = f.encode();
    assert_eq!(bytes.len(), FRAME_ENCODED_LEN);
    assert_eq!(&bytes[0..4], &(FRAME_SIZE as u32).to_le_bytes());
    assert_eq!(&bytes[4 + FRAME_SIZE..], &[64u8, 1, 0, 0, 240, 0, 0, 0]);
    let (back, used) = CameraFrame::decode(&bytes).unwrap();
    assert_eq!(used, FRAME_ENCODED_LEN);
    assert_eq!(back.width, 320);
    assert_eq!(back.height, 240);
    assert_eq!(back.data.as_slice(), f.data.as_slice());
}

#[test]
fn frame_encode_into_appends() {
    let f = sample_frame();
    let mut out = vec![0xaau8];
    f.encode_into(&mut out);
    assert_eq!(out.len(), 1 + FRAME_ENCODED_LEN);
    assert_eq!(out[0], 0xaa);
    assert_eq!(&out[1..], &f.encode()[..]);
}

#[test]
fn frame_decode_errors() {
    assert_eq!(
        CameraFrame::decode(&[0, 0]).unwrap_err(),
        DecodeError { offset: 0, kind: DecodeErrorKind::UnexpectedEnd }
    );
    assert_eq!(
        CameraFrame::decode(&[5, 0, 0, 0, 1, 2, 3, 4, 5]).unwrap_err(),
        DecodeError { offset: 0, kind: DecodeErrorKind::WrongLength { found: 5 } }
    );
    let bytes = sample_frame().encode();
    assert_eq!(
        CameraFrame::decode(&bytes[..100]).unwrap_err(),
        DecodeError { offset: 4, kind: DecodeErrorKind::UnexpectedEnd }
    );
    assert_eq!(
        CameraFrame::decode(&bytes[..4 + FRAME_SIZE + 2]).unwrap_err(),
        DecodeError { offset: 4 + FRAME_SIZE, kind: DecodeErrorKind::UnexpectedEnd }
    );
    assert_eq!(
        CameraFrame::decode(&bytes[..FRAME_ENCODED_LEN - 1]).unwrap_err(),
        DecodeError { offset: 8 + FRAME_SIZE, kind: DecodeErrorKind::UnexpectedEnd }
    );
}

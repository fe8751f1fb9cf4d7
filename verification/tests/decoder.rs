use bytes::BytesMut;
use pms5003_exporter::pms5003::{FrameError, Pms5003Codec, Pms5003Frame};

/// Build a well-formed 32-byte frame from twelve field values: marker,
/// length field 0x001C, the fields big-endian, two reserved zero bytes, and
/// the big-endian sum of the preceding 30 bytes.
fn build_frame(fields: [u16; 12]) -> Vec<u8> {
    let mut v = vec![0x42u8, 0x4d, 0x00, 0x1c];
    for f in fields {
        v.push((f >> 8) as u8);
        v.push((f & 0xff) as u8);
    }
    v.push(0x00);
    v.push(0x00);
    let sum: u32 = v.iter().map(|b| *b as u32).sum();
    v.push((sum >> 8) as u8);
    v.push((sum & 0xff) as u8);
    assert_eq!(v.len(), 32);
    v
}

fn buf_of(bytes: &[u8]) -> BytesMut {
    let mut b = BytesMut::new();
    b.extend_from_slice(bytes);
    b
}

#[test]
fn no_marker_leaves_buffer_untouched() {
    let mut codec = Pms5003Codec::new(false);
    let noise = [0x00u8, 0x11, 0x4d, 0x42, 0x99];
    let mut buf = buf_of(&noise);
    assert_eq!(codec.decode(&mut buf), Ok(None));
    assert_eq!(&buf[..], &noise[..]);
}

#[test]
fn empty_buffer_needs_more_data() {
    let mut codec = Pms5003Codec::new(false);
    let mut buf = BytesMut::new();
    assert_eq!(codec.decode(&mut buf), Ok(None));
    assert_eq!(buf.len(), 0);
}

#[test]
fn marker_spanning_call_boundary_is_found_later() {
    let mut codec = Pms5003Codec::new(false);
    let frame = build_frame([10, 15, 20, 10, 15, 20, 1, 2, 3, 4, 5, 6]);
    let mut buf = buf_of(&[0x99, 0x42]);
    assert_eq!(codec.decode(&mut buf), Ok(None));
    assert_eq!(&buf[..], &[0x99, 0x42]);
    buf.extend_from_slice(&frame[1..]);
    let decoded = codec.decode(&mut buf).unwrap().unwrap();
    assert_eq!(decoded.pm10, 10);
    assert_eq!(buf.len(), 0);
}

#[test]
fn incomplete_frame_keeps_marker() {
    let mut codec = Pms5003Codec::new(false);
    let mut bytes = vec![0x07u8, 0x09];
    bytes.extend_from_slice(&build_frame([1, 2, 3, 4, 5, 6, 7, 8, 9, 10, 11, 12])[..10]);
    let mut buf = buf_of(&bytes);
    assert_eq!(codec.decode(&mut buf), Ok(None));
    assert_eq!(buf.len(), 10);
    assert_eq!(buf[0], 0x42);
    assert_eq!(buf[1], 0x4d);
}

#[test]
fn well_formed_frame_decodes() {
    // The documented scenario: marker, length 0x001C, fields
    // 10,15,20,10,15,20,1,2,3,4,5,6, reserved zeros, computed checksum.
    let mut codec = Pms5003Codec::new(false);
    let frame_bytes = build_frame([10, 15, 20, 10, 15, 20, 1, 2, 3, 4, 5, 6]);
    let mut buf = buf_of(&frame_bytes);
    let frame = codec.decode(&mut buf).unwrap().unwrap();
    assert_eq!(
        frame,
        Pms5003Frame {
            pm10: 10,
            pm25: 15,
            pm100: 20,
            pm10_atmos: 10,
            pm25_atmos: 15,
            pm100_atmos: 20,
            pm03_count: 1,
            pm05_count: 2,
            pm10_count: 3,
            pm25_count: 4,
            pm50_count: 5,
            pm100_count: 6,
        }
    );
    assert_eq!(buf.len(), 0);
}

#[test]
fn noise_before_marker_is_discarded_silently() {
    let mut codec = Pms5003Codec::new(false);
    let mut bytes = vec![0xde, 0xad, 0xbe, 0xef, 0x4d, 0x42];
    bytes.extend_from_slice(&build_frame([100, 200, 300, 100, 200, 300, 1, 2, 3, 4, 5, 6]));
    let mut buf = buf_of(&bytes);
    let frame = codec.decode(&mut buf).unwrap().unwrap();
    assert_eq!(frame.pm25, 200);
    assert_eq!(frame.pm100, 300);
    assert_eq!(buf.len(), 0);
}

#[test]
fn checksum_mismatch_reports_and_resynchronizes() {
    let mut codec = Pms5003Codec::new(false);
    let mut frame_bytes = build_frame([10, 15, 20, 10, 15, 20, 1, 2, 3, 4, 5, 6]);
    let good_sum: u32 = ((frame_bytes[30] as u32) << 8) | frame_bytes[31] as u32;
    frame_bytes[31] ^= 0xff;
    let bad_received: u32 = ((frame_bytes[30] as u32) << 8) | frame_bytes[31] as u32;
    let mut buf = buf_of(&frame_bytes);
    assert_eq!(
        codec.decode(&mut buf),
        Err(FrameError::ChecksumMismatch { received: bad_received, calculated: good_sum })
    );
    // The offending 32 bytes are already consumed: the next call sees none
    // of them and simply waits for more data.
    assert_eq!(buf.len(), 0);
    assert_eq!(codec.decode(&mut buf), Ok(None));
}

#[test]
fn corrupt_frame_then_valid_frame_recovers() {
    let mut codec = Pms5003Codec::new(false);
    let mut bytes = build_frame([1, 1, 1, 1, 1, 1, 1, 1, 1, 1, 1, 1]);
    bytes[20] ^= 0x01; // break the checksum of the first frame
    bytes.extend_from_slice(&build_frame([7, 8, 9, 7, 8, 9, 1, 2, 3, 4, 5, 6]));
    let mut buf = buf_of(&bytes);
    assert!(codec.decode(&mut buf).is_err());
    let frame = codec.decode(&mut buf).unwrap().unwrap();
    assert_eq!(frame.pm10, 7);
    assert_eq!(frame.pm100_atmos, 9);
}

#[test]
fn startup_artifacts_swallow_first_two_markers() {
    let mut codec = Pms5003Codec::new(true);
    let first = build_frame([10, 15, 20, 10, 15, 20, 1, 2, 3, 4, 5, 6]);
    let second = build_frame([11, 16, 21, 11, 16, 21, 2, 3, 4, 5, 6, 7]);
    let third = build_frame([12, 17, 22, 12, 17, 22, 3, 4, 5, 6, 7, 8]);
    let mut bytes = first.clone();
    bytes.extend_from_slice(&second);
    bytes.extend_from_slice(&third);
    let mut buf = buf_of(&bytes);
    // The first two marker matches never produce a frame, even though the
    // 32 bytes after each would validate; only their marker bytes go.
    assert_eq!(codec.decode(&mut buf), Ok(None));
    assert_eq!(buf.len(), 94);
    assert_eq!(codec.decode(&mut buf), Ok(None));
    assert_eq!(buf.len(), 62);
    // The third match behaves normally.
    let frame = codec.decode(&mut buf).unwrap().unwrap();
    assert_eq!(frame.pm10, 12);
    assert_eq!(frame.pm100_count, 8);
}

#[test]
fn startup_policy_absent_decodes_first_frame() {
    let mut codec = Pms5003Codec::new(false);
    let mut bytes = build_frame([10, 15, 20, 10, 15, 20, 1, 2, 3, 4, 5, 6]);
    bytes.extend_from_slice(&build_frame([11, 16, 21, 11, 16, 21, 2, 3, 4, 5, 6, 7]));
    let mut buf = buf_of(&bytes);
    let frame = codec.decode(&mut buf).unwrap().unwrap();
    assert_eq!(frame.pm10, 10);
    assert_eq!(buf.len(), 32);
}

#[test]
fn from_raw_decodes_valid_block() {
    let bytes = build_frame([500, 1000, 65535, 0, 1, 2, 10, 20, 30, 40, 50, 60]);
    let raw: [u8; 32] = bytes.as_slice().try_into().unwrap();
    let frame = Pms5003Frame::from_raw(&raw).unwrap();
    assert_eq!(frame.pm10, 500);
    assert_eq!(frame.pm25, 1000);
    assert_eq!(frame.pm100, 65535);
    assert_eq!(frame.pm10_atmos, 0);
    assert_eq!(frame.pm05_count, 20);
    assert_eq!(frame.pm100_count, 60);
}

#[test]
fn from_raw_rejects_only_doubly_wrong_header() {
    // The header check is deliberately lenient: a block is rejected only
    // when both marker bytes are wrong.
    let mut bytes = build_frame([1, 2, 3, 4, 5, 6, 7, 8, 9, 10, 11, 12]);
    bytes[0] = 0xff;
    let sum: u32 = bytes[..30].iter().map(|b| *b as u32).sum();
    bytes[30] = (sum >> 8) as u8;
    bytes[31] = (sum & 0xff) as u8;
    let raw: [u8; 32] = bytes.as_slice().try_into().unwrap();
    assert!(Pms5003Frame::from_raw(&raw).is_ok());

    bytes[1] = 0xff;
    let raw: [u8; 32] = bytes.as_slice().try_into().unwrap();
    assert_eq!(Pms5003Frame::from_raw(&raw), Err(FrameError::InvalidHeader));
}

#[test]
fn from_raw_reports_both_checksum_values() {
    let mut bytes = build_frame([10, 15, 20, 10, 15, 20, 1, 2, 3, 4, 5, 6]);
    let calculated: u32 = bytes[..30].iter().map(|b| *b as u32).sum();
    bytes[30] = 0x12;
    bytes[31] = 0x34;
    let raw: [u8; 32] = bytes.as_slice().try_into().unwrap();
    assert_eq!(
        Pms5003Frame::from_raw(&raw),
        Err(FrameError::ChecksumMismatch { received: 0x1234, calculated })
    );
}

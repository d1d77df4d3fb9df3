use dgt_board::framer::FrameOutcome;
use dgt_board::framer::extract_frame;

#[test]
fn test_frame_plain() {
    // type 0x06, declared total length 5: two payload bytes
    let input = [0x86, 0x00, 0x05, 0xaa, 0xbb];
    match extract_frame(&input) {
        FrameOutcome::Frame { type_code, payload, consumed } => {
            assert_eq!(type_code, 0x06);
            assert_eq!(payload, vec![0xaa, 0xbb]);
            assert_eq!(consumed, 5);
        }
        other => panic!("expected a frame, got {:?}", other),
    }
}

#[test]
fn test_frame_resync_over_garbage() {
    // four garbage bytes (no high bit) before a valid frame; the reader
    // recovers exactly the intended frame and consumes no byte beyond it
    let input = [0x01, 0x7f, 0x00, 0x33, 0x8e, 0x00, 0x04, 0x42];
    match extract_frame(&input) {
        FrameOutcome::Frame { type_code, payload, consumed } => {
            assert_eq!(type_code, 0x0e);
            assert_eq!(payload, vec![0x42]);
            assert_eq!(consumed, input.len());
        }
        other => panic!("expected a frame, got {:?}", other),
    }
}

#[test]
fn test_frame_resync_on_bad_length_byte() {
    // a type byte whose first length byte has the high bit set: the scan
    // restarts at that byte, which starts the real frame
    let input = [0x85, 0x93, 0x00, 0x03];
    match extract_frame(&input) {
        FrameOutcome::Frame { type_code, payload, consumed } => {
            assert_eq!(type_code, 0x13);
            assert_eq!(payload, Vec::<u8>::new());
            assert_eq!(consumed, 4);
        }
        other => panic!("expected a frame, got {:?}", other),
    }
}

#[test]
fn test_frame_two_byte_length() {
    // declared total length 0x83 = (1 << 7) | 3: 128 payload bytes
    let mut input = vec![0x86, 0x01, 0x03];
    input.extend(std::iter::repeat(0x11).take(128));
    match extract_frame(&input) {
        FrameOutcome::Frame { type_code, payload, consumed } => {
            assert_eq!(type_code, 0x06);
            assert_eq!(payload.len(), 128);
            assert_eq!(consumed, 131);
        }
        other => panic!("expected a frame, got {:?}", other),
    }
}

#[test]
fn test_frame_incomplete() {
    // no header at all
    assert_eq!(extract_frame(&[0x01, 0x02, 0x03]), FrameOutcome::Incomplete);
    // header but truncated payload
    assert_eq!(
        extract_frame(&[0x86, 0x00, 0x06, 0xaa]),
        FrameOutcome::Incomplete
    );
    // truncated header
    assert_eq!(extract_frame(&[0x86, 0x00]), FrameOutcome::Incomplete);
    assert_eq!(extract_frame(&[]), FrameOutcome::Incomplete);
}

#[test]
fn test_frame_bad_length() {
    // declared total length 2 is below the three header bytes: a hard error
    let input = [0x10, 0x86, 0x00, 0x02, 0x55];
    assert_eq!(
        extract_frame(&input),
        FrameOutcome::BadLength { consumed: 4 }
    );
}

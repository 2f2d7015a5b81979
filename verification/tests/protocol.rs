use nfc_reader::ack::check_ack;
use nfc_reader::codec::build_frame;
use nfc_reader::commands::{
    authenticate_request, decode_authenticate, decode_firmware_version, decode_passive_target,
    decode_read_block, decode_sam_configuration, firmware_version_request, read_block_request,
    read_passive_target_request, sam_configuration_request,
};
use nfc_reader::errors::Error;
use nfc_reader::poller::{poll_step, PollStep};
use nfc_reader::response::{parse_response, parse_response_strict};

/// An inbound read as the chip would produce it: a status byte, then the
/// frame around `payload` with the chip-to-host direction byte.
fn inbound_read(status: u8, payload: &[u8]) -> Vec<u8> {
    let len = payload.len() as u8 + 1;
    let lcs = len.wrapping_neg();
    let mut sum: u8 = 0xD5;
    for &b in payload {
        sum = sum.wrapping_add(b);
    }
    let dcs = sum.wrapping_neg();
    let mut raw = vec![status, 0x00, 0x00, 0xFF, len, lcs, 0xD5];
    raw.extend_from_slice(payload);
    raw.push(dcs);
    raw.push(0x00);
    raw
}

#[test]
fn frame_exact_bytes() {
    let frame = build_frame(&[0x02]);
    assert_eq!(frame, vec![0x00, 0x00, 0xFF, 0x02, 0xFE, 0xD4, 0x02, 0x2A, 0x00]);
}

#[test]
fn frame_checksums_cancel() {
    let commands: [&[u8]; 4] =
        [&[0x02], &[0x14, 0x01, 0x14, 0x01], &[0x4A, 0x01, 0x00], &[0x40, 0x01, 0x30, 0x3F]];
    for command in commands {
        let frame = build_frame(command);
        assert_eq!(frame.len(), command.len() + 8);
        let len = frame[3] as u32;
        let lcs = frame[4] as u32;
        assert_eq!((len + lcs) % 256, 0);
        let region_sum: u32 = frame[5..frame.len() - 1].iter().map(|&b| b as u32).sum();
        assert_eq!(region_sum % 256, 0);
    }
}

#[test]
fn frame_empty_command() {
    let frame = build_frame(&[]);
    assert_eq!(frame, vec![0x00, 0x00, 0xFF, 0x01, 0xFF, 0xD4, 0x2C, 0x00]);
}

#[test]
fn poller_decisions() {
    assert_eq!(poll_step(Some(0x01), 0, 50), PollStep::Ready);
    assert_eq!(poll_step(Some(0xFF), 10_000, 50), PollStep::Ready);
    assert_eq!(poll_step(Some(0x00), 0, 50), PollStep::RetryAfterDelay);
    assert_eq!(poll_step(Some(0xFE), 50, 50), PollStep::RetryAfterDelay);
    assert_eq!(poll_step(None, 50, 50), PollStep::RetryAfterDelay);
    assert_eq!(poll_step(Some(0x00), 51, 50), PollStep::TimedOut);
    assert_eq!(poll_step(None, 51, 50), PollStep::TimedOut);
    assert_eq!(poll_step(None, 10_000, 1000), PollStep::TimedOut);
}

#[test]
fn ack_exact_pattern_only() {
    let good = [0x01, 0x00, 0x00, 0xFF, 0x00, 0xFF, 0x00];
    assert!(check_ack(&good));
    let other_status = [0xAB, 0x00, 0x00, 0xFF, 0x00, 0xFF, 0x00];
    assert!(check_ack(&other_status));
    for i in 1..7 {
        let mut bad = good;
        bad[i] ^= 0x01;
        assert!(!check_ack(&bad), "deviation at {} accepted", i);
    }
}

#[test]
fn response_well_formed() {
    let raw = inbound_read(0x01, &[0x03, 0x01, 0x02, 0x03]);
    let resp = parse_response(&raw).unwrap();
    assert_eq!(resp.length, 5);
    assert_eq!(resp.payload, vec![0x03, 0x01, 0x02, 0x03]);
    assert!(resp.checksum_ok);
}

#[test]
fn response_single_corruption() {
    let payload = [0x03, 0x01, 0x02, 0x03];
    let raw = inbound_read(0x01, &payload);
    let n = payload.len();
    for i in 0..raw.len() {
        let mut corrupted = raw.clone();
        corrupted[i] ^= 0xFF;
        let r = parse_response(&corrupted);
        if (1..=6).contains(&i) {
            assert_eq!(r.err(), Some(Error::FrameError), "checked byte {} still accepted", i);
        } else if (7..=7 + n).contains(&i) {
            let resp = r.unwrap();
            assert!(!resp.checksum_ok, "corruption at {} left the checksum intact", i);
            if i == 7 + n {
                assert_eq!(resp.payload, payload.to_vec());
            }
        } else {
            let resp = r.unwrap();
            assert!(resp.checksum_ok);
            assert_eq!(resp.payload, payload.to_vec());
        }
    }
}

#[test]
fn response_truncated() {
    assert_eq!(parse_response(&[]).err(), Some(Error::FrameError));
    assert_eq!(parse_response(&[0x01, 0x00, 0x00, 0xFF, 0x05]).err(), Some(Error::FrameError));
    let mut raw = inbound_read(0x01, &[0x03, 0x01, 0x02, 0x03]);
    raw.truncate(8);
    assert_eq!(parse_response(&raw).err(), Some(Error::FrameError));
}

#[test]
fn response_wrong_direction() {
    let mut raw = inbound_read(0x01, &[0x03, 0x01, 0x02, 0x03]);
    raw[6] = 0xD4;
    assert_eq!(parse_response(&raw).err(), Some(Error::FrameError));
}

#[test]
fn response_empty_length() {
    // An all-zero length field cancels its checksum but carries not even a
    // direction byte: rejected.
    let raw = [0x01, 0x00, 0x00, 0xFF, 0x00, 0x00, 0xD5, 0x00, 0x00];
    assert_eq!(parse_response(&raw).err(), Some(Error::FrameError));
}

#[test]
fn response_strict_rejects_checksum_mismatch() {
    let payload = [0x03, 0x01, 0x02, 0x03];
    let raw = inbound_read(0x01, &payload);
    let resp = parse_response_strict(&raw).unwrap();
    assert_eq!(resp.payload, payload.to_vec());
    // The permissive parser keeps a corrupted payload; the strict one
    // rejects it.
    let mut corrupted = raw.clone();
    corrupted[8] ^= 0xFF;
    assert!(parse_response(&corrupted).unwrap().payload != payload.to_vec());
    assert_eq!(parse_response_strict(&corrupted).err(), Some(Error::FrameError));
}

#[test]
fn firmware_request_and_decode() {
    assert_eq!(firmware_version_request(), vec![0x02]);
    let version = decode_firmware_version(&[0x03, 0x01, 0x02, 0x03]).unwrap();
    assert_eq!(version, 0x010203);
    assert_eq!((version >> 16) & 0xFF, 0x01);
    assert_eq!((version >> 8) & 0xFF, 0x02);
    assert_eq!(version & 0xFF, 0x03);
}

#[test]
fn firmware_decode_rejects() {
    assert_eq!(decode_firmware_version(&[0x04, 0x01, 0x02, 0x03]), Err(Error::InvalidResponse));
    assert_eq!(decode_firmware_version(&[0x03, 0x01]), Err(Error::InvalidResponse));
}

#[test]
fn sam_request_and_decode() {
    assert_eq!(sam_configuration_request(), vec![0x14, 0x01, 0x14, 0x01]);
    assert_eq!(decode_sam_configuration(&[0x15]), Ok(()));
    assert_eq!(decode_sam_configuration(&[0x14]), Err(Error::ConfigurationFailed));
    assert_eq!(decode_sam_configuration(&[]), Err(Error::ConfigurationFailed));
}

#[test]
fn target_request_and_decode() {
    assert_eq!(read_passive_target_request(), vec![0x4A, 0x01, 0x00]);
    let payload = [0x4B, 0x01, 0x01, 0x00, 0x44, 0x00, 0x04, 0xAA, 0xBB, 0xCC, 0xDD];
    assert_eq!(decode_passive_target(&payload), Ok(vec![0xAA, 0xBB, 0xCC, 0xDD]));
}

#[test]
fn target_decode_errors() {
    assert_eq!(decode_passive_target(&[0x4C, 0x01, 0x01]), Err(Error::InvalidResponse));
    assert_eq!(decode_passive_target(&[0x4B, 0x00, 0x01]), Err(Error::NoCardFound));
    assert_eq!(decode_passive_target(&[0x4B, 0x01, 0x01]), Err(Error::ResponseTooShort));
    // Declared UID length longer than the buffer.
    let short = [0x4B, 0x01, 0x01, 0x00, 0x44, 0x00, 0x07, 0xAA, 0xBB];
    assert_eq!(decode_passive_target(&short), Err(Error::ResponseTooShort));
}

#[test]
fn authenticate_request_and_decode() {
    let uid = [0xAA, 0xBB, 0xCC, 0xDD];
    let key = [0xFF; 6];
    let request = authenticate_request(4, &uid, 0x60, &key);
    assert_eq!(
        request,
        vec![0x40, 0x01, 0x60, 0x04, 0xFF, 0xFF, 0xFF, 0xFF, 0xFF, 0xFF, 0xAA, 0xBB, 0xCC, 0xDD]
    );
    assert!(decode_authenticate(&[0x41, 0x00]));
    assert!(!decode_authenticate(&[0x41, 0x01]));
    assert!(!decode_authenticate(&[0x42, 0x00]));
    assert!(!decode_authenticate(&[0x41]));
}

#[test]
fn read_block_request_and_decode() {
    assert_eq!(read_block_request(9), vec![0x40, 0x01, 0x30, 0x09]);
    let mut payload = vec![0x41, 0x00];
    payload.extend((0u8..16).map(|b| b + 0x10));
    payload.push(0x99);
    let block = decode_read_block(&payload).unwrap();
    assert_eq!(block.len(), 16);
    assert_eq!(block, (0u8..16).map(|b| b + 0x10).collect::<Vec<u8>>());
}

#[test]
fn read_block_decode_errors() {
    assert_eq!(decode_read_block(&[0x41, 0x00, 0x01]), Err(Error::RetrievalFailed));
    let mut wrong_status = vec![0x41, 0x01];
    wrong_status.extend([0u8; 16]);
    assert_eq!(decode_read_block(&wrong_status), Err(Error::RetrievalFailed));
    let mut wrong_echo = vec![0x42, 0x00];
    wrong_echo.extend([0u8; 16]);
    assert_eq!(decode_read_block(&wrong_echo), Err(Error::RetrievalFailed));
}

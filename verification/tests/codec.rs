//! Tests for control-message encoding, decoding and fd extraction.

use capsolve::ancillary::AncillaryData;
use capsolve::ancillary::AncillaryDataBuf;
use capsolve::ancillary::AncillaryDataReceivedFds;
use capsolve::ancillary::SCM_RIGHTS;
use capsolve::ancillary::SOL_SOCKET;
use capsolve::cmsg::CMSG_ALIGN;
use capsolve::cmsg::CMSG_LEN;
use capsolve::cmsg::CMSG_SPACE;
use capsolve::cmsg::ControlMessage;
use capsolve::cmsg::ControlMessages;
use capsolve::cmsg::i32_to_u32;
use capsolve::cmsg::u32_to_i32;

fn header(cmsg_len: u64, level: i32, ctype: i32) -> Vec<u8> {
    let mut out = Vec::new();
    out.extend_from_slice(&cmsg_len.to_le_bytes());
    out.extend_from_slice(&(level as u32).to_le_bytes());
    out.extend_from_slice(&(ctype as u32).to_le_bytes());
    out
}

#[test]
fn alignment_arithmetic_matches_the_layout() {
    assert_eq!(CMSG_ALIGN(0), 0);
    assert_eq!(CMSG_ALIGN(1), 8);
    assert_eq!(CMSG_ALIGN(8), 8);
    assert_eq!(CMSG_ALIGN(9), 16);
    assert_eq!(CMSG_LEN(0), 16);
    assert_eq!(CMSG_LEN(5), 21);
    assert_eq!(CMSG_SPACE(0), 16);
    assert_eq!(CMSG_SPACE(5), 24);
    assert_eq!(CMSG_SPACE(8), 24);
}

#[test]
fn signed_word_conversions_round_trip() {
    assert_eq!(i32_to_u32(-1), u32::MAX);
    assert_eq!(u32_to_i32(u32::MAX), -1);
    assert_eq!(i32_to_u32(7), 7);
    assert_eq!(u32_to_i32(7), 7);
    assert_eq!(u32_to_i32(i32_to_u32(i32::MIN)), i32::MIN);
    assert_eq!(i32_to_u32(i32_to_u32(0x7fff_ffffu32 as i32) as i32), 0x7fff_ffffu32);
}

#[test]
fn encoded_message_decodes_back_exactly() {
    let payload = [9u8, 8, 7, 6, 5];
    let cmsg = ControlMessage::new(5, 77, &payload);
    let mut buf = AncillaryDataBuf::new();
    buf.add_control_message(&cmsg);
    let messages = buf.control_messages();
    assert_eq!(messages.as_bytes().len(), 24);
    let mut it = messages.iter();
    let m = it.next().expect("one message");
    assert_eq!(m.cmsg_level(), 5);
    assert_eq!(m.cmsg_type(), 77);
    assert_eq!(m.data(), &payload);
    assert!(!m.truncated());
    assert!(it.next().is_none());
}

#[test]
fn several_messages_decode_in_order() {
    let mut buf = AncillaryDataBuf::new();
    buf.add_control_message(&ControlMessage::new(1, 2, &[0xaa; 3]));
    buf.add_control_message(&ControlMessage::new(3, 4, &[0xbb; 8]));
    buf.add_control_message(&ControlMessage::new(-5, -6, &[]));
    let messages = buf.control_messages();
    let mut it = messages.iter();
    let a = it.next().unwrap();
    assert_eq!((a.cmsg_level(), a.cmsg_type()), (1, 2));
    assert_eq!(a.data(), &[0xaa; 3]);
    let b = it.next().unwrap();
    assert_eq!((b.cmsg_level(), b.cmsg_type()), (3, 4));
    assert_eq!(b.data(), &[0xbb; 8]);
    let c = it.next().unwrap();
    assert_eq!((c.cmsg_level(), c.cmsg_type()), (-5, -6));
    assert_eq!(c.data(), &[] as &[u8]);
    assert!(it.next().is_none());
}

#[test]
fn truncated_header_length_is_reported() {
    // The header claims 100 bytes but only 8 data bytes follow.
    let mut bytes = header(100, 5, 6);
    bytes.extend_from_slice(&[1, 2, 3, 4, 5, 6, 7, 8]);
    let messages = ControlMessages::from_bytes(&bytes);
    let mut it = messages.iter();
    let m = it.next().unwrap();
    assert_eq!(m.cmsg_level(), 5);
    assert_eq!(m.cmsg_type(), 6);
    assert_eq!(m.data(), &[1, 2, 3, 4, 5, 6, 7, 8]);
    assert!(m.truncated());
    assert!(it.next().is_none());
}

#[test]
fn header_shorter_than_a_header_yields_empty_data() {
    let mut bytes = header(3, 1, 1);
    bytes.extend_from_slice(&[1, 2, 3, 4, 5, 6, 7, 8]);
    let messages = ControlMessages::from_bytes(&bytes);
    let mut it = messages.iter();
    let m = it.next().unwrap();
    assert_eq!(m.data(), &[] as &[u8]);
}

#[test]
fn leftover_fragment_is_kept_by_into_bytes() {
    let bytes = [1u8, 2, 3];
    let messages = ControlMessages::from_bytes(&bytes);
    assert!(!messages.is_empty());
    let mut it = messages.iter();
    assert!(it.next().is_none());
    assert_eq!(it.into_bytes(), &bytes);
}

#[test]
fn empty_buffer_has_no_messages() {
    let messages = ControlMessages::from_bytes(&[]);
    assert!(messages.is_empty());
    assert!(messages.iter().next().is_none());
}

#[test]
fn fixed_capacity_rejects_what_does_not_fit() {
    let mut anc = AncillaryData::new(10);
    let r = anc.add_control_message(&ControlMessage::new(1, 1, &[]));
    assert!(r.is_err());
    let mut anc2 = AncillaryData::new(16);
    assert!(anc2.add_control_message(&ControlMessage::new(1, 1, &[])).is_ok());
    assert_eq!(anc2.control_messages().as_bytes().len(), 16);
    // A second message no longer fits.
    assert!(anc2.add_control_message(&ControlMessage::new(1, 1, &[])).is_err());
    assert_eq!(anc2.control_messages().as_bytes().len(), 16);
}

#[test]
fn passed_file_descriptors_come_back_in_order() {
    let mut buf = AncillaryDataBuf::new();
    buf.add_file_descriptors(&[3, 4, 5]);
    let mut anc = buf.to_ancillary_data();
    let encoded_len = anc.control_messages().as_bytes().len();
    assert_eq!(encoded_len, 16 + 16);

    // A message-level check: one SCM_RIGHTS message with 12 data bytes.
    {
        let messages = anc.control_messages();
        let mut it = messages.iter();
        let m = it.next().unwrap();
        assert_eq!(m.cmsg_level(), SOL_SOCKET);
        assert_eq!(m.cmsg_type(), SCM_RIGHTS);
        assert_eq!(m.data().len(), 12);
        assert!(it.next().is_none());
    }

    // Pretend the kernel echoed the same control messages back.
    let kernel_buf = anc.control_messages_buf().expect("has capacity");
    anc.set_control_messages_len(kernel_buf, encoded_len);
    anc.take_ownership_of_scm_rights();
    let mut fds = anc.received_fds();
    assert_eq!(fds.next(), Some(3));
    assert_eq!(fds.next(), Some(4));
    assert_eq!(fds.next(), Some(5));
    assert_eq!(fds.next(), None);

    // Draining a second time yields nothing: ownership was transferred.
    let mut again = anc.received_fds();
    assert_eq!(again.next(), None);
}

#[test]
fn reserved_fd_values_are_skipped() {
    let mut buf = AncillaryDataBuf::new();
    buf.add_file_descriptors(&[3, -1, 5]);
    let mut anc = buf.to_ancillary_data();
    let encoded_len = anc.control_messages().as_bytes().len();
    let kernel_buf = anc.control_messages_buf().unwrap();
    anc.set_control_messages_len(kernel_buf, encoded_len);
    anc.take_ownership_of_scm_rights();
    let mut fds = anc.received_fds();
    assert_eq!(fds.next(), Some(3));
    assert_eq!(fds.next(), Some(5));
    assert_eq!(fds.next(), None);
}

#[test]
fn fds_outside_the_received_window_are_ignored() {
    let mut buf = AncillaryDataBuf::new();
    buf.add_file_descriptors(&[3]);
    buf.add_file_descriptors(&[4]);
    let mut anc = buf.to_ancillary_data();
    let kernel_buf = anc.control_messages_buf().unwrap();
    // Only the first message (24 bytes: header plus one padded fd) is
    // within the received window.
    anc.set_control_messages_len(kernel_buf, 24);
    anc.take_ownership_of_scm_rights();
    let mut fds = anc.received_fds();
    assert_eq!(fds.next(), Some(3));
    assert_eq!(fds.next(), None);
}

#[test]
fn scanning_helpers_walk_scm_rights_data() {
    let mut buf = AncillaryDataBuf::new();
    buf.add_control_message(&ControlMessage::new(9, 9, &[1, 2, 3, 4]));
    buf.add_file_descriptors(&[7]);
    let bytes = buf.control_messages().as_bytes().to_vec();
    let mut it = ControlMessages::from_bytes(&bytes).iter();
    let m = AncillaryDataReceivedFds::advance_to_next_scm_rights(&mut it)
        .expect("skips the non-rights message");
    assert_eq!(m.cmsg_level(), SOL_SOCKET);
    assert_eq!(m.cmsg_type(), SCM_RIGHTS);
    let (fd, off) = AncillaryDataReceivedFds::next_owned_fd(m.data(), 0).unwrap();
    assert_eq!(fd, 7);
    assert_eq!(off, 4);
    assert!(AncillaryDataReceivedFds::next_owned_fd(m.data(), off).is_none());
    assert!(AncillaryDataReceivedFds::advance_to_next_scm_rights(&mut it).is_none());
}

#[test]
fn growable_buffer_tracks_capacity_and_clearing() {
    let mut buf = AncillaryDataBuf::with_capacity(64);
    assert_eq!(buf.capacity(), 64);
    assert!(buf.control_messages().is_empty());
    buf.add_control_message(&ControlMessage::new(1, 1, &[0; 4]));
    assert_eq!(buf.control_messages().as_bytes().len(), 24);
    assert_eq!(buf.capacity(), 64);
    buf.clear();
    assert!(buf.control_messages().is_empty());
    assert_eq!(buf.capacity(), 64);
}

#[test]
fn reservation_grows_the_guaranteed_capacity() {
    let mut buf = AncillaryDataBuf::new();
    assert_eq!(buf.capacity(), 0);
    buf.reserve(100);
    assert_eq!(buf.capacity(), 100);
    buf.reserve(50);
    assert_eq!(buf.capacity(), 100);
    buf.reserve_exact(200);
    assert_eq!(buf.capacity(), 200);
    assert!(buf.try_reserve(300).is_ok());
    assert_eq!(buf.capacity(), 300);
    assert!(buf.try_reserve_exact(10).is_ok());
    assert_eq!(buf.capacity(), 300);
}

#[test]
fn to_ancillary_data_transfers_and_empties() {
    let mut buf = AncillaryDataBuf::with_capacity(48);
    buf.add_control_message(&ControlMessage::new(2, 3, &[1]));
    let anc = buf.to_ancillary_data();
    assert_eq!(anc.control_messages().as_bytes().len(), 24);
    assert!(buf.control_messages().is_empty());
    assert_eq!(buf.capacity(), 48);
}

#[test]
fn control_messages_buf_is_zero_padded_to_capacity() {
    let mut anc = AncillaryData::new(32);
    anc.add_control_message(&ControlMessage::new(1, 1, &[])).unwrap();
    let b = anc.control_messages_buf().unwrap();
    assert_eq!(b.len(), 32);
    // Encoded header first, zeroed spare capacity after.
    assert_eq!(&b[0..8], &16u64.to_le_bytes());
    assert!(b[16..].iter().all(|&x| x == 0));
    assert!(anc.control_messages().is_empty());
    // Without capacity there is no buffer to hand out.
    let mut empty = AncillaryData::new(0);
    assert!(empty.control_messages_buf().is_none());
}

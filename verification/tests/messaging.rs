//! Tests for send/receive options, flags, and the sender/receiver
//! plumbing over a mock transport.

use capsolve::ancillary::AncillaryData;
use capsolve::ancillary::AncillaryDataBuf;
use capsolve::cmsg::ControlMessage;
use capsolve::message::MessageFlags;
use capsolve::message::MessageReceiver;
use capsolve::message::MessageSender;
use capsolve::message::RecvMessage;
use capsolve::message::RecvOptions;
use capsolve::message::SendMessage;
use capsolve::message::SendMessageTo;
use capsolve::message::SendOptions;
use capsolve::message::MSG_CMSG_CLOEXEC;
use capsolve::message::MSG_CTRUNC;
use capsolve::message::MSG_EOR;
use capsolve::message::MSG_NOSIGNAL;
use capsolve::message::MSG_OOB;
use capsolve::message::MSG_PEEK;
use capsolve::message::MSG_TRUNC;
use capsolve::message::MSG_WAITALL;

#[test]
fn send_options_map_to_flag_words() {
    let mut o = SendOptions::new();
    assert_eq!(o.as_send_flags(), 0);
    assert_eq!(o.as_sendmsg_flags(), 0);
    o.set_eor(true);
    assert_eq!(o.as_send_flags(), MSG_EOR);
    o.set_no_signal(true);
    assert_eq!(o.as_send_flags(), MSG_EOR | MSG_NOSIGNAL);
    o.set_eor(false);
    assert_eq!(o.as_send_flags(), MSG_NOSIGNAL);
    // End-of-block has no flag bit on this platform.
    o.set_eob(true);
    assert_eq!(o.as_send_flags(), MSG_NOSIGNAL);
    let d = SendOptions::default();
    assert_eq!(d.as_send_flags(), 0);
}

#[test]
fn recv_options_map_to_flag_words() {
    let mut o = RecvOptions::new();
    assert_eq!(o.as_recv_flags(), 0);
    assert_eq!(o.as_recvmsg_flags(), MSG_CMSG_CLOEXEC);
    o.set_oob(true);
    o.set_peek(true);
    o.set_waitall(true);
    assert_eq!(o.as_recv_flags(), MSG_OOB | MSG_PEEK | MSG_WAITALL);
    assert_eq!(o.as_recvmsg_flags(), MSG_OOB | MSG_PEEK | MSG_WAITALL | MSG_CMSG_CLOEXEC);
    o.set_peek(false);
    assert_eq!(o.as_recv_flags(), MSG_OOB | MSG_WAITALL);
    let d = RecvOptions::default();
    assert_eq!(d.as_recv_flags(), 0);
}

#[test]
fn message_flags_decode_their_bits() {
    let f = MessageFlags::from_raw(MSG_EOR | MSG_CTRUNC);
    assert!(f.end_of_record());
    assert!(f.control_data_truncated());
    assert!(!f.oob_received());
    assert!(!f.normal_data_truncated());
    let g = MessageFlags::from_raw(MSG_OOB | MSG_TRUNC);
    assert!(g.oob_received());
    assert!(g.normal_data_truncated());
    assert!(!g.end_of_record());
}

/// A mock transport that records what it was handed.
struct CountingSock;

impl SendMessage for CountingSock {
    fn send_message(
        &self,
        bufs: &[&[u8]],
        ancillary_data: &mut AncillaryData,
        options: SendOptions,
    ) -> Result<usize, std::io::Error> {
        let _ = options.as_sendmsg_flags();
        let _ = ancillary_data.control_messages();
        Ok(bufs.iter().map(|b| b.len()).sum())
    }
}

impl SendMessageTo for CountingSock {
    type SocketAddr = String;

    fn send_message_to(
        &self,
        addr: &String,
        bufs: &[&[u8]],
        _ancillary_data: &mut AncillaryData,
        _options: SendOptions,
    ) -> Result<usize, std::io::Error> {
        Ok(addr.len() + bufs.iter().map(|b| b.len()).sum::<usize>())
    }
}

impl RecvMessage for CountingSock {
    fn recv_message(
        &self,
        bufs: &mut Vec<Vec<u8>>,
        _ancillary_data: &mut AncillaryData,
        options: RecvOptions,
    ) -> Result<(usize, MessageFlags), std::io::Error> {
        if let Some(first) = bufs.first_mut() {
            for b in first.iter_mut() {
                *b = 0x5a;
            }
        }
        let n = bufs.first().map(|b| b.len()).unwrap_or(0);
        Ok((n, MessageFlags::from_raw(options.as_recv_flags())))
    }
}

#[test]
fn sender_hands_buffers_to_the_transport() {
    let sock = CountingSock;
    let mut sender = MessageSender::new(&sock, b"hello");
    assert_eq!(sender.send().unwrap(), 5);
}

#[test]
fn vectored_sender_counts_every_buffer() {
    let sock = CountingSock;
    let bufs: [&[u8]; 3] = [b"ab", b"cde", b"f"];
    let mut sender = MessageSender::new_vectored(&sock, &bufs);
    assert_eq!(sender.send().unwrap(), 6);
}

#[test]
fn sender_carries_ancillary_data_and_returns_it() {
    let sock = CountingSock;
    let mut buf = AncillaryDataBuf::new();
    buf.add_control_message(&ControlMessage::new(1, 1, &[1, 2]));
    let anc = buf.to_ancillary_data();
    let mut sender = MessageSender::new(&sock, b"x");
    sender.ancillary_data(anc);
    assert_eq!(sender.send().unwrap(), 1);
    let back = sender.take_ancillary_data().expect("still attached");
    assert_eq!(back.control_messages().as_bytes().len(), 24);
    assert!(sender.take_ancillary_data().is_none());
}

#[test]
fn sender_with_address_reaches_the_addressed_transport() {
    let sock = CountingSock;
    let mut sender = MessageSender::new(&sock, b"yo");
    let addr = String::from("peer");
    assert_eq!(sender.send_to(&addr).unwrap(), 6);
}

#[test]
fn receiver_fills_buffers_and_reports_flags() {
    let sock = CountingSock;
    let mut receiver = MessageReceiver::new(&sock, vec![0u8; 4]);
    let mut opts = RecvOptions::new();
    opts.set_peek(true);
    receiver.options(opts);
    let (n, flags) = receiver.recv().unwrap();
    assert_eq!(n, 4);
    assert!(!flags.end_of_record());
    let bufs = receiver.buffers();
    assert_eq!(bufs[0], vec![0x5a; 4]);
}

#[test]
fn receiver_keeps_and_returns_ancillary_data() {
    let sock = CountingSock;
    let mut receiver = MessageReceiver::new_vectored(&sock, vec![vec![0u8; 2], vec![0u8; 3]]);
    receiver.ancillary_data(AncillaryData::new(64));
    let (n, _flags) = receiver.recv().unwrap();
    assert_eq!(n, 2);
    let anc = receiver.take_ancillary_data().expect("attached");
    assert!(anc.control_messages().is_empty());
}

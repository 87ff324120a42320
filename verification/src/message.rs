//! Sending and receiving socket messages with ancillary data.
//!
//! The transport itself is abstract: socket types implement
//! [`SendMessage`], [`SendMessageTo`], [`RecvMessage`] or
//! [`RecvMessageFrom`].  [`MessageSender`] and [`MessageReceiver`] bundle
//! the buffers, options and ancillary data of one operation and hand them
//! to the transport.  Flag values are the Linux ones.

use vstd::prelude::*;

use crate::ancillary::AncillaryData;

verus! {

/// Out-of-band data flag.
pub const MSG_OOB: i32 = 0x1;

/// Peek without consuming.
pub const MSG_PEEK: i32 = 0x2;

/// Normal data was truncated.
pub const MSG_TRUNC: i32 = 0x20;

/// End of record.
pub const MSG_EOR: i32 = 0x80;

/// Wait for the full request.
pub const MSG_WAITALL: i32 = 0x100;

/// Control data was truncated.
pub const MSG_CTRUNC: i32 = 0x8;

/// Raise no signal on stream-socket errors.
pub const MSG_NOSIGNAL: i32 = 0x4000;

/// Set the close-on-exec flag on received file descriptors.
pub const MSG_CMSG_CLOEXEC: i32 = 0x40000000;

/// Declares the standard I/O error type so transport implementations can
/// surface OS errors through these interfaces; nothing is assumed of it.
#[verifier::external_type_specification]
#[verifier::external_body]
pub struct ExIoError(std::io::Error);

/// A transport that can send one message to its connected peer.
///
/// Implementations live with the socket types; nothing is specified of
/// them here.
pub trait SendMessage {
    /// Sends the gathered buffers with the given ancillary data; returns
    /// the number of payload bytes sent.
    fn send_message(
        &self,
        bufs: &[&[u8]],
        ancillary_data: &mut AncillaryData,
        options: SendOptions,
    ) -> Result<usize, std::io::Error>;
}

/// A transport that can send one message to an explicit address.
pub trait SendMessageTo {
    /// The address type of this transport.
    type SocketAddr;

    /// Sends the gathered buffers to `addr` with the given ancillary
    /// data; returns the number of payload bytes sent.
    fn send_message_to(
        &self,
        addr: &Self::SocketAddr,
        bufs: &[&[u8]],
        ancillary_data: &mut AncillaryData,
        options: SendOptions,
    ) -> Result<usize, std::io::Error>;
}

/// The mathematical state of a [`SendOptions`].
pub struct SendOptionsModel {
    /// End-of-record marking requested.
    pub eor: bool,
    /// End-of-block marking requested; carries no flag bit on this
    /// platform.
    pub eob: bool,
    /// Suppress signals on stream-socket errors.
    pub no_signal: bool,
}

/// Options of one send operation.
#[derive(Clone, Copy, Debug)]
pub struct SendOptions {
    eor: bool,
    eob: bool,
    no_signal: bool,
}

impl View for SendOptions {
    type V = SendOptionsModel;

    closed spec fn view(&self) -> SendOptionsModel {
        SendOptionsModel { eor: self.eor, eob: self.eob, no_signal: self.no_signal }
    }
}

/// The flag word a set of send options denotes.
pub open spec fn spec_send_flags(m: SendOptionsModel) -> i32 {
    (if m.eor {
        MSG_EOR
    } else {
        0
    }) | (if m.no_signal {
        MSG_NOSIGNAL
    } else {
        0
    })
}

impl SendOptions {
    /// Default options: nothing set.
    pub fn new() -> (r: SendOptions)
        ensures
            !r@.eor,
            !r@.eob,
            !r@.no_signal,
    {
        SendOptions { eor: false, eob: false, no_signal: false }
    }

    /// The flag word for a plain send call.
    pub fn as_send_flags(&self) -> (r: i32)
        ensures
            r == spec_send_flags(self@),
    {
        (if self.eor {
            MSG_EOR
        } else {
            0
        }) | (if self.no_signal {
            MSG_NOSIGNAL
        } else {
            0
        })
    }

    /// The flag word for a `sendmsg` call.
    pub fn as_sendmsg_flags(&self) -> (r: i32)
        ensures
            r == spec_send_flags(self@),
    {
        self.as_send_flags()
    }

    /// Requests end-of-record marking.
    pub fn set_eor(&mut self, eor: bool)
        ensures
            final(self)@ == (SendOptionsModel { eor, ..old(self)@ }),
    {
        self.eor = eor;
    }

    /// Requests end-of-block marking; recorded, but mapped to no flag bit
    /// on this platform.
    pub fn set_eob(&mut self, eob: bool)
        ensures
            final(self)@ == (SendOptionsModel { eob, ..old(self)@ }),
    {
        self.eob = eob;
    }

    /// Suppresses signals on stream-socket errors.
    pub fn set_no_signal(&mut self, no_signal: bool)
        ensures
            final(self)@ == (SendOptionsModel { no_signal, ..old(self)@ }),
    {
        self.no_signal = no_signal;
    }
}

impl Default for SendOptions {
    /// Default options: nothing set.
    fn default() -> (r: SendOptions)
        ensures
            !r@.eor,
            !r@.eob,
            !r@.no_signal,
    {
        SendOptions::new()
    }
}

/// The mathematical state of a [`MessageSender`]: buffer contents, send
/// options and attached ancillary data.
pub struct SenderModel {
    /// The gathered buffer contents.
    pub bufs: Seq<Seq<u8>>,
    /// The send options.
    pub options: SendOptionsModel,
    /// The attached ancillary data, if any.
    pub ancillary: Option<crate::ancillary::AncillaryModel>,
}

/// Bundles the buffers, options and ancillary data of one send
/// operation.
pub struct MessageSender<'a, S> {
    bufs: Vec<&'a [u8]>,
    socket: &'a S,
    options: SendOptions,
    ancillary_data: Option<AncillaryData>,
}

impl<'a, S> View for MessageSender<'a, S> {
    type V = SenderModel;

    closed spec fn view(&self) -> SenderModel {
        SenderModel {
            bufs: Seq::new(self.bufs@.len(), |i: int| self.bufs@[i]@),
            options: self.options@,
            ancillary: match self.ancillary_data {
                Some(a) => Some(a@),
                None => None,
            },
        }
    }
}

impl<'a, S> MessageSender<'a, S> {
    /// A sender for one gathered buffer.
    pub fn new(socket: &'a S, buf: &'a [u8]) -> (r: MessageSender<'a, S>)
        ensures
            r@.bufs =~= seq![buf@],
            !r@.options.eor && !r@.options.eob && !r@.options.no_signal,
            r@.ancillary is None,
    {
        let mut bufs: Vec<&'a [u8]> = Vec::new();
        bufs.push(buf);
        let r = MessageSender { bufs, socket, options: SendOptions::new(), ancillary_data: None };
        proof {
            assert(r@.bufs =~= seq![buf@]);
        }
        r
    }

    /// A sender for several gathered buffers.
    pub fn new_vectored(socket: &'a S, bufs: &[&'a [u8]]) -> (r: MessageSender<'a, S>)
        ensures
            r@.bufs =~= Seq::new(bufs@.len(), |i: int| bufs@[i]@),
            !r@.options.eor && !r@.options.eob && !r@.options.no_signal,
            r@.ancillary is None,
    {
        let r = MessageSender {
            bufs: vstd::slice::slice_to_vec(bufs),
            socket,
            options: SendOptions::new(),
            ancillary_data: None,
        };
        proof {
            assert(r@.bufs =~= Seq::new(bufs@.len(), |i: int| bufs@[i]@));
        }
        r
    }

    /// Attaches ancillary data to the message.
    pub fn ancillary_data(&mut self, ancillary_data: AncillaryData)
        ensures
            final(self)@.ancillary == Some(ancillary_data@),
            final(self)@.bufs == old(self)@.bufs,
            final(self)@.options == old(self)@.options,
    {
        self.ancillary_data = Some(ancillary_data);
    }

    /// Takes the attached ancillary data back, e.g. after a send.
    pub fn take_ancillary_data(&mut self) -> (r: Option<AncillaryData>)
        ensures
            match r {
                Some(a) => old(self)@.ancillary == Some(a@),
                None => old(self)@.ancillary is None,
            },
            final(self)@.ancillary is None,
            final(self)@.bufs == old(self)@.bufs,
            final(self)@.options == old(self)@.options,
    {
        self.ancillary_data.take()
    }
}

impl<'a, S: SendMessage> MessageSender<'a, S> {
    /// Sends the message through the transport; what comes back is the
    /// transport's to decide.  Without attached ancillary data an empty
    /// ancillary buffer is used, as a send call requires one.
    pub fn send(&mut self) -> (r: Result<usize, std::io::Error>)
        ensures
            final(self)@.bufs == old(self)@.bufs,
            final(self)@.options == old(self)@.options,
    {
        let bufs = self.bufs.as_slice();
        match &mut self.ancillary_data {
            Some(a) => self.socket.send_message(bufs, a, self.options),
            None => {
                let mut ancillary_empty = AncillaryData::new(0);
                self.socket.send_message(bufs, &mut ancillary_empty, self.options)
            },
        }
    }
}

impl<'a, S: SendMessageTo> MessageSender<'a, S> {
    /// Sends the message to an explicit address through the transport.
    pub fn send_to(&mut self, addr: &S::SocketAddr) -> (r: Result<usize, std::io::Error>)
        ensures
            final(self)@.bufs == old(self)@.bufs,
            final(self)@.options == old(self)@.options,
    {
        let bufs = self.bufs.as_slice();
        match &mut self.ancillary_data {
            Some(a) => self.socket.send_message_to(addr, bufs, a, self.options),
            None => {
                let mut ancillary_empty = AncillaryData::new(0);
                self.socket.send_message_to(addr, bufs, &mut ancillary_empty, self.options)
            },
        }
    }
}

/// A transport that can receive one message from its connected peer.
pub trait RecvMessage {
    /// Receives into the scattered buffers, filling the given ancillary
    /// data; returns the number of payload bytes received and the
    /// message flags.
    fn recv_message(
        &self,
        bufs: &mut Vec<Vec<u8>>,
        ancillary_data: &mut AncillaryData,
        options: RecvOptions,
    ) -> Result<(usize, MessageFlags), std::io::Error>;
}

/// A transport that can receive one message and report its source
/// address.
pub trait RecvMessageFrom {
    /// The address type of this transport.
    type SocketAddr;

    /// Receives into the scattered buffers, filling the given ancillary
    /// data; returns the byte count, the message flags and the source.
    fn recv_message_from(
        &self,
        bufs: &mut Vec<Vec<u8>>,
        ancillary_data: &mut AncillaryData,
        options: RecvOptions,
    ) -> Result<(usize, MessageFlags, Self::SocketAddr), std::io::Error>;
}

/// The mathematical state of a [`RecvOptions`].
pub struct RecvOptionsModel {
    /// Receive out-of-band data.
    pub oob: bool,
    /// Peek without consuming.
    pub peek: bool,
    /// Wait for the full request.
    pub waitall: bool,
}

/// Options of one receive operation.
#[derive(Clone, Copy, Debug)]
pub struct RecvOptions {
    oob: bool,
    peek: bool,
    waitall: bool,
}

impl View for RecvOptions {
    type V = RecvOptionsModel;

    closed spec fn view(&self) -> RecvOptionsModel {
        RecvOptionsModel { oob: self.oob, peek: self.peek, waitall: self.waitall }
    }
}

/// The flag word a set of receive options denotes.
pub open spec fn spec_recv_flags(m: RecvOptionsModel) -> i32 {
    (if m.oob {
        MSG_OOB
    } else {
        0
    }) | (if m.peek {
        MSG_PEEK
    } else {
        0
    }) | (if m.waitall {
        MSG_WAITALL
    } else {
        0
    })
}

impl RecvOptions {
    /// Default options: nothing set.
    pub fn new() -> (r: RecvOptions)
        ensures
            !r@.oob,
            !r@.peek,
            !r@.waitall,
    {
        RecvOptions { oob: false, peek: false, waitall: false }
    }

    /// The flag word for a plain receive call.
    pub fn as_recv_flags(&self) -> (r: i32)
        ensures
            r == spec_recv_flags(self@),
    {
        (if self.oob {
            MSG_OOB
        } else {
            0
        }) | (if self.peek {
            MSG_PEEK
        } else {
            0
        }) | (if self.waitall {
            MSG_WAITALL
        } else {
            0
        })
    }

    /// The flag word for a `recvmsg` call: the receive flags plus
    /// close-on-exec for received descriptors.
    pub fn as_recvmsg_flags(&self) -> (r: i32)
        ensures
            r == (spec_recv_flags(self@) | MSG_CMSG_CLOEXEC),
    {
        self.as_recv_flags() | MSG_CMSG_CLOEXEC
    }

    /// Requests out-of-band data.
    pub fn set_oob(&mut self, oob: bool)
        ensures
            final(self)@ == (RecvOptionsModel { oob, ..old(self)@ }),
    {
        self.oob = oob;
    }

    /// Peeks without consuming.
    pub fn set_peek(&mut self, peek: bool)
        ensures
            final(self)@ == (RecvOptionsModel { peek, ..old(self)@ }),
    {
        self.peek = peek;
    }

    /// Waits for the full request.
    pub fn set_waitall(&mut self, waitall: bool)
        ensures
            final(self)@ == (RecvOptionsModel { waitall, ..old(self)@ }),
    {
        self.waitall = waitall;
    }
}

impl Default for RecvOptions {
    /// Default options: nothing set.
    fn default() -> (r: RecvOptions)
        ensures
            !r@.oob,
            !r@.peek,
            !r@.waitall,
    {
        RecvOptions::new()
    }
}

/// The flag word a receive operation reported.
#[derive(Clone, Copy, Debug)]
pub struct MessageFlags {
    raw: i32,
}

impl View for MessageFlags {
    type V = i32;

    closed spec fn view(&self) -> i32 {
        self.raw
    }
}

impl MessageFlags {
    /// Wraps a raw flag word.
    pub fn from_raw(raw: i32) -> (r: MessageFlags)
        ensures
            r@ == raw,
    {
        MessageFlags { raw }
    }

    /// Whether the end of a record was received.
    pub fn end_of_record(&self) -> (r: bool)
        ensures
            r == ((self@ & MSG_EOR) != 0),
    {
        (self.raw & MSG_EOR) != 0
    }

    /// Whether out-of-band data was received.
    pub fn oob_received(&self) -> (r: bool)
        ensures
            r == ((self@ & MSG_OOB) != 0),
    {
        (self.raw & MSG_OOB) != 0
    }

    /// Whether normal data was truncated.
    pub fn normal_data_truncated(&self) -> (r: bool)
        ensures
            r == ((self@ & MSG_TRUNC) != 0),
    {
        (self.raw & MSG_TRUNC) != 0
    }

    /// Whether control data was truncated.
    pub fn control_data_truncated(&self) -> (r: bool)
        ensures
            r == ((self@ & MSG_CTRUNC) != 0),
    {
        (self.raw & MSG_CTRUNC) != 0
    }
}

/// The mathematical state of a [`MessageReceiver`].
pub struct ReceiverModel {
    /// The scattered buffer contents.
    pub bufs: Seq<Seq<u8>>,
    /// The receive options.
    pub options: RecvOptionsModel,
    /// The attached ancillary data, if any.
    pub ancillary: Option<crate::ancillary::AncillaryModel>,
}

/// Bundles the buffers, options and ancillary data of one receive
/// operation.
pub struct MessageReceiver<'a, S> {
    bufs: Vec<Vec<u8>>,
    socket: &'a S,
    options: RecvOptions,
    ancillary_data: Option<AncillaryData>,
}

impl<'a, S> View for MessageReceiver<'a, S> {
    type V = ReceiverModel;

    closed spec fn view(&self) -> ReceiverModel {
        ReceiverModel {
            bufs: Seq::new(self.bufs@.len(), |i: int| self.bufs@[i]@),
            options: self.options@,
            ancillary: match self.ancillary_data {
                Some(a) => Some(a@),
                None => None,
            },
        }
    }
}

impl<'a, S> MessageReceiver<'a, S> {
    /// A receiver for one scattered buffer.
    pub fn new(socket: &'a S, buf: Vec<u8>) -> (r: MessageReceiver<'a, S>)
        ensures
            r@.bufs =~= seq![buf@],
            !r@.options.oob && !r@.options.peek && !r@.options.waitall,
            r@.ancillary is None,
    {
        let mut bufs: Vec<Vec<u8>> = Vec::new();
        bufs.push(buf);
        let r = MessageReceiver { bufs, socket, options: RecvOptions::new(), ancillary_data: None };
        proof {
            assert(r@.bufs =~= seq![buf@]);
        }
        r
    }

    /// A receiver for several scattered buffers.
    pub fn new_vectored(socket: &'a S, bufs: Vec<Vec<u8>>) -> (r: MessageReceiver<'a, S>)
        ensures
            r@.bufs =~= Seq::new(bufs@.len(), |i: int| bufs@[i]@),
            !r@.options.oob && !r@.options.peek && !r@.options.waitall,
            r@.ancillary is None,
    {
        let r = MessageReceiver { bufs, socket, options: RecvOptions::new(), ancillary_data: None };
        proof {
            assert(r@.bufs =~= Seq::new(bufs@.len(), |i: int| bufs@[i]@));
        }
        r
    }

    /// Sets the receive options.
    pub fn options(&mut self, options: RecvOptions)
        ensures
            final(self)@.options == options@,
            final(self)@.bufs == old(self)@.bufs,
            final(self)@.ancillary == old(self)@.ancillary,
    {
        self.options = options;
    }

    /// Attaches an ancillary-data buffer for received control messages.
    pub fn ancillary_data(&mut self, ancillary_data: AncillaryData)
        ensures
            final(self)@.ancillary == Some(ancillary_data@),
            final(self)@.bufs == old(self)@.bufs,
            final(self)@.options == old(self)@.options,
    {
        self.ancillary_data = Some(ancillary_data);
    }

    /// Takes the attached ancillary data back, e.g. to drain received
    /// file descriptors after a receive.
    pub fn take_ancillary_data(&mut self) -> (r: Option<AncillaryData>)
        ensures
            match r {
                Some(a) => old(self)@.ancillary == Some(a@),
                None => old(self)@.ancillary is None,
            },
            final(self)@.ancillary is None,
            final(self)@.bufs == old(self)@.bufs,
            final(self)@.options == old(self)@.options,
    {
        self.ancillary_data.take()
    }

    /// The receive buffers, e.g. to read the payload after a receive.
    pub fn buffers(&self) -> (r: &Vec<Vec<u8>>)
        ensures
            r@.len() == self@.bufs.len(),
            forall|i: int| 0 <= i < r@.len() ==> (#[trigger] r@[i])@ == self@.bufs[i],
    {
        &self.bufs
    }
}

impl<'a, S: RecvMessage> MessageReceiver<'a, S> {
    /// Receives one message through the transport; what comes back is the
    /// transport's to decide.  Without attached ancillary data an empty
    /// ancillary buffer is used, as a receive call requires one.
    pub fn recv(&mut self) -> (r: Result<(usize, MessageFlags), std::io::Error>)
        ensures
            final(self)@.options == old(self)@.options,
    {
        let socket = self.socket;
        let options = self.options;
        match &mut self.ancillary_data {
            Some(a) => socket.recv_message(&mut self.bufs, a, options),
            None => {
                let mut ancillary_empty = AncillaryData::new(0);
                socket.recv_message(&mut self.bufs, &mut ancillary_empty, options)
            },
        }
    }
}

impl<'a, S: RecvMessageFrom> MessageReceiver<'a, S> {
    /// Receives one message and its source address through the transport.
    pub fn recv_from(&mut self) -> (r: Result<
        (usize, MessageFlags, S::SocketAddr),
        std::io::Error,
    >)
        ensures
            final(self)@.options == old(self)@.options,
    {
        let socket = self.socket;
        let options = self.options;
        match &mut self.ancillary_data {
            Some(a) => socket.recv_message_from(&mut self.bufs, a, options),
            None => {
                let mut ancillary_empty = AncillaryData::new(0);
                socket.recv_message_from(&mut self.bufs, &mut ancillary_empty, options)
            },
        }
    }
}

} // verus!

//! Ancillary data: control-message buffers for sending and receiving, and
//! extraction of received file descriptors.
//!
//! [`AncillaryDataBuf`] is the growable owner of encoded control messages;
//! [`AncillaryData`] is the per-call view handed to send and receive
//! operations; [`AncillaryDataReceivedFds`] drains the file descriptors of
//! received `SCM_RIGHTS` control messages.  File descriptors are plain
//! `i32` values here; turning them into owned OS handles is the caller's
//! concern.

use vstd::prelude::*;

use vstd::bytes::spec_u32_from_le_bytes;
use vstd::bytes::spec_u32_to_le_bytes;
use vstd::bytes::lemma_auto_spec_u32_to_from_le_bytes;
use vstd::bytes::u32_from_le_bytes;
use vstd::bytes::u32_to_le_bytes;
use vstd::slice::slice_subrange;

use crate::cmsg::CmsgModel;
use crate::cmsg::ControlMessage;
use crate::cmsg::ControlMessages;
use crate::cmsg::ControlMessagesIter;
use crate::cmsg::spec_cmsg_space;
use crate::cmsg::spec_encode_cmsg;
use crate::cmsg::spec_i32_to_u32;
use crate::cmsg::spec_parse_cmsgs;
use crate::cmsg::spec_parse_head;
use crate::cmsg::spec_parse_rest;
use crate::cmsg::spec_u32_to_i32;
use crate::cmsg::u32_to_i32;

verus! {

/// The socket-level control-message category, as on Linux.
pub const SOL_SOCKET: i32 = 1;

/// The file-descriptor-passing control-message type, as on Linux.
pub const SCM_RIGHTS: i32 = 1;

/// The encoded size of one file descriptor.
pub const FD_SIZE: usize = 4;

/// Whether a control message carries passed file descriptors.
pub open spec fn spec_is_scm_rights(m: CmsgModel) -> bool {
    m.cmsg_level == SOL_SOCKET && m.cmsg_type == SCM_RIGHTS
}

/// The file descriptors encoded in `SCM_RIGHTS` data: consecutive 4-byte
/// native words, with the reserved value `-1` skipped and a trailing
/// fragment ignored.
pub open spec fn spec_parse_fds(data: Seq<u8>) -> Seq<i32>
    decreases data.len(),
{
    if data.len() < 4 {
        Seq::empty()
    } else {
        let w = spec_u32_from_le_bytes(data.subrange(0, 4));
        let rest = spec_parse_fds(data.skip(4));
        if w == 0xffff_ffffu32 {
            rest
        } else {
            seq![spec_u32_to_i32(w)] + rest
        }
    }
}

/// The file descriptors one control message contributes.
pub open spec fn spec_msg_fds(m: CmsgModel) -> Seq<i32> {
    if spec_is_scm_rights(m) {
        spec_parse_fds(m.data)
    } else {
        Seq::empty()
    }
}

/// The file descriptors a message list contributes, in order.
pub open spec fn spec_fds_of_cmsgs(ms: Seq<CmsgModel>) -> Seq<i32>
    decreases ms.len(),
{
    if ms.len() == 0 {
        Seq::empty()
    } else {
        spec_msg_fds(ms[0]) + spec_fds_of_cmsgs(ms.drop_first())
    }
}

/// Every file descriptor passed in the encoded control messages of a
/// buffer, in order.
pub open spec fn spec_all_fds(bytes: Seq<u8>) -> Seq<i32> {
    spec_fds_of_cmsgs(spec_parse_cmsgs(bytes))
}

/// The fd list of a non-empty message list splits into the head message's
/// contribution and the rest's.
proof fn lemma_fds_cons(m: CmsgModel, ms: Seq<CmsgModel>)
    ensures
        spec_fds_of_cmsgs(seq![m] + ms) == spec_msg_fds(m) + spec_fds_of_cmsgs(ms),
{
    let all = seq![m] + ms;
    assert(all[0] == m);
    assert(all.drop_first() =~= ms);
}

/// The encoded `SCM_RIGHTS` data of a list of file descriptors.
pub open spec fn spec_fds_data(fds: Seq<i32>) -> Seq<u8>
    decreases fds.len(),
{
    if fds.len() == 0 {
        Seq::empty()
    } else {
        spec_u32_to_le_bytes(spec_i32_to_u32(fds[0])) + spec_fds_data(fds.drop_first())
    }
}

/// An iterator over the file descriptors of received `SCM_RIGHTS` control
/// messages.
#[derive(Debug)]
pub struct AncillaryDataReceivedFds {
    fds: Vec<i32>,
    idx: usize,
}

impl View for AncillaryDataReceivedFds {
    type V = Seq<i32>;

    closed spec fn view(&self) -> Seq<i32> {
        if self.idx <= self.fds@.len() {
            self.fds@.skip(self.idx as int)
        } else {
            Seq::empty()
        }
    }
}

impl AncillaryDataReceivedFds {
    /// Whether a control message carries passed file descriptors.
    pub fn is_scm_rights(cmsg: &ControlMessage<'_>) -> (r: bool)
        ensures
            r == spec_is_scm_rights(cmsg@),
    {
        cmsg.cmsg_level() == SOL_SOCKET && cmsg.cmsg_type() == SCM_RIGHTS
    }

    /// Scans `SCM_RIGHTS` data from byte offset `off` for the next file
    /// descriptor that is not the reserved value `-1`; returns it with the
    /// offset just past it.
    pub fn next_owned_fd(data: &[u8], off: usize) -> (r: Option<(i32, usize)>)
        requires
            off <= data@.len(),
        ensures
            match r {
                None => spec_parse_fds(data@.skip(off as int)) == Seq::<i32>::empty(),
                Some((fd, off2)) => {
                    &&& off < off2 <= data@.len()
                    &&& spec_parse_fds(data@.skip(off as int)) == seq![fd] + spec_parse_fds(
                        data@.skip(off2 as int),
                    )
                },
            },
        decreases data@.len() - off,
    {
        if data.len() - off < 4 {
            return None;
        }
        let chunk = slice_subrange(data, off, off + 4);
        let w = u32_from_le_bytes(chunk);
        proof {
            assert(data@.skip(off as int).subrange(0, 4) =~= data@.subrange(
                off as int,
                off + 4 as int,
            ));
            assert(data@.skip(off as int).skip(4) =~= data@.skip(off + 4 as int));
        }
        if w == 0xffff_ffffu32 {
            Self::next_owned_fd(data, off + 4)
        } else {
            Some((u32_to_i32(w), off + 4))
        }
    }

    /// Advances the iterator to the next `SCM_RIGHTS` control message with
    /// non-empty data, consuming everything before it; the skipped
    /// messages contribute no file descriptors.
    pub fn advance_to_next_scm_rights<'a>(it: &mut ControlMessagesIter<'a>) -> (r: Option<
        ControlMessage<'a>,
    >)
        requires
            old(it)@.len() + 7 <= usize::MAX,
        ensures
            final(it)@.len() <= old(it)@.len(),
            match r {
                None => spec_all_fds(old(it)@) == Seq::<i32>::empty() && spec_all_fds(final(it)@)
                    == Seq::<i32>::empty(),
                Some(m) => {
                    &&& spec_is_scm_rights(m@)
                    &&& m@.data.len() > 0
                    &&& final(it)@.len() < old(it)@.len()
                    &&& spec_all_fds(old(it)@) == spec_parse_fds(m@.data) + spec_all_fds(
                        final(it)@,
                    )
                },
            },
    {
        let ghost start = it@;
        let mut res: Option<ControlMessage<'a>> = None;
        let mut done = false;
        while !done
            invariant
                it@.len() <= start.len(),
                start.len() + 7 <= usize::MAX,
                !done ==> res is None && spec_all_fds(start) == spec_all_fds(it@),
                done ==> match res {
                    None => spec_all_fds(start) == Seq::<i32>::empty() && spec_all_fds(it@)
                        == Seq::<i32>::empty(),
                    Some(m) => {
                        &&& spec_is_scm_rights(m@)
                        &&& m@.data.len() > 0
                        &&& it@.len() < start.len()
                        &&& spec_all_fds(start) == spec_parse_fds(m@.data) + spec_all_fds(it@)
                    },
                },
            decreases (if done {
                0int
            } else {
                1int
            }), it@.len(),
        {
            let ghost before = it@;
            match it.next() {
                None => {
                    proof {
                        assert(spec_parse_cmsgs(it@) =~= Seq::<CmsgModel>::empty());
                        assert(spec_all_fds(it@) =~= Seq::<i32>::empty());
                    }
                    done = true;
                },
                Some(m) => {
                    proof {
                        lemma_fds_cons(spec_parse_head(before), spec_parse_cmsgs(it@));
                        assert(spec_parse_rest(before).len() < before.len());
                        assert(spec_all_fds(before) == spec_msg_fds(m@) + spec_all_fds(it@));
                    }
                    if Self::is_scm_rights(&m) && m.data().len() > 0 {
                        res = Some(m);
                        done = true;
                    } else {
                        proof {
                            assert(spec_msg_fds(m@) =~= Seq::<i32>::empty());
                            assert(spec_all_fds(start) =~= spec_all_fds(it@));
                        }
                    }
                },
            }
        }
        res
    }

    /// Collects every file descriptor passed in the buffer's control
    /// messages, in order.
    fn gather_fds(bytes: &[u8]) -> (r: Vec<i32>)
        requires
            bytes@.len() + 7 <= usize::MAX,
        ensures
            r@ == spec_all_fds(bytes@),
    {
        let mut out: Vec<i32> = Vec::new();
        let mut it = ControlMessages::from_bytes(bytes).iter();
        let mut done = false;
        while !done
            invariant
                it@.len() <= bytes@.len(),
                bytes@.len() + 7 <= usize::MAX,
                out@ + spec_all_fds(it@) == spec_all_fds(bytes@),
                done ==> out@ == spec_all_fds(bytes@),
            decreases (if done {
                0int
            } else {
                1int
            }), it@.len(),
        {
            let ghost pre = it@;
            match Self::advance_to_next_scm_rights(&mut it) {
                None => {
                    proof {
                        assert(out@ + spec_all_fds(it@) =~= out@);
                        assert(out@ + spec_all_fds(pre) =~= out@);
                        assert(out@ =~= spec_all_fds(bytes@));
                    }
                    done = true;
                },
                Some(m) => {
                    let data = m.data();
                    let ghost mid = it@;
                    proof {
                        assert(data@.skip(0) =~= data@);
                        assert((out@ + spec_parse_fds(data@.skip(0))) + spec_all_fds(it@)
                            =~= out@ + (spec_parse_fds(m@.data) + spec_all_fds(it@)));
                    }
                    let mut off: usize = 0;
                    let mut scanning = true;
                    while scanning
                        invariant
                            off <= data@.len(),
                            it@ == mid,
                            out@ + spec_parse_fds(data@.skip(off as int)) + spec_all_fds(it@)
                                == spec_all_fds(bytes@),
                            !scanning ==> spec_parse_fds(data@.skip(off as int))
                                == Seq::<i32>::empty(),
                        decreases (if scanning {
                            1int
                        } else {
                            0int
                        }), data@.len() - off,
                    {
                        let ghost out0 = out@;
                        let ghost off0 = off;
                        match Self::next_owned_fd(data, off) {
                            None => {
                                scanning = false;
                            },
                            Some((fd, off2)) => {
                                out.push(fd);
                                off = off2;
                                proof {
                                    assert(out@ =~= out0 + seq![fd]);
                                    assert((out0 + seq![fd]) + spec_parse_fds(
                                        data@.skip(off as int),
                                    ) =~= out0 + (seq![fd] + spec_parse_fds(
                                        data@.skip(off as int),
                                    )));
                                    assert(out0 + spec_parse_fds(data@.skip(off0 as int)) =~= out0
                                        + (seq![fd] + spec_parse_fds(data@.skip(off as int))));
                                    assert(out@ + spec_parse_fds(data@.skip(off as int))
                                        + spec_all_fds(it@) =~= spec_all_fds(bytes@));
                                }
                            },
                        }
                    }
                    proof {
                        assert(out@ + spec_parse_fds(data@.skip(off as int)) =~= out@);
                        assert(out@ + spec_all_fds(it@) =~= spec_all_fds(bytes@));
                    }
                },
            }
        }
        proof {
            assert(out@ =~= spec_all_fds(bytes@));
        }
        out
    }

    /// The next file descriptor, if any remain.
    pub fn next(&mut self) -> (r: Option<i32>)
        ensures
            match r {
                None => old(self)@.len() == 0 && final(self)@ == old(self)@,
                Some(fd) => old(self)@.len() > 0 && fd == old(self)@[0] && final(self)@ == old(
                    self,
                )@.drop_first(),
            },
    {
        if self.idx < self.fds.len() {
            let fd = self.fds[self.idx];
            self.idx = self.idx + 1;
            proof {
                assert(self.fds@.skip(self.idx as int) =~= old(self)@.drop_first());
            }
            Some(fd)
        } else {
            proof {
                if self.idx <= self.fds@.len() {
                    assert(self.fds@.skip(self.idx as int) =~= Seq::<i32>::empty());
                }
            }
            None
        }
    }
}

/// The encoded `SCM_RIGHTS` data has four bytes per descriptor.
pub proof fn lemma_fds_data_len(fds: Seq<i32>)
    ensures
        spec_fds_data(fds).len() == 4 * fds.len(),
    decreases fds.len(),
{
    lemma_auto_spec_u32_to_from_le_bytes();
    if fds.len() > 0 {
        lemma_fds_data_len(fds.drop_first());
    }
}

fn fds_data_from(fds: &[i32], i: usize) -> (r: Vec<u8>)
    requires
        i <= fds@.len(),
    ensures
        r@ == spec_fds_data(fds@.skip(i as int)),
    decreases fds@.len() - i,
{
    if i == fds.len() {
        proof {
            assert(fds@.skip(i as int) =~= Seq::<i32>::empty());
        }
        Vec::new()
    } else {
        proof {
            assert(fds@.skip(i as int).drop_first() =~= fds@.skip(i + 1 as int));
            assert(fds@.skip(i as int)[0] == fds@[i as int]);
        }
        let mut out = u32_to_le_bytes(crate::cmsg::i32_to_u32(fds[i]));
        let mut rest = fds_data_from(fds, i + 1);
        out.append(&mut rest);
        proof {
            assert(out@ =~= spec_u32_to_le_bytes(spec_i32_to_u32(fds@[i as int]))
                + spec_fds_data(fds@.skip(i + 1 as int)));
        }
        out
    }
}

/// The control-message description that passing these file descriptors
/// produces.
pub open spec fn spec_fds_cmsg(fds: Seq<i32>) -> CmsgModel {
    CmsgModel {
        cmsg_len: (16 + 4 * fds.len()) as usize,
        cmsg_level: SOL_SOCKET,
        cmsg_type: SCM_RIGHTS,
        data: spec_fds_data(fds),
    }
}

/// Parsing the encoded data of a file-descriptor list yields the list
/// back, provided no descriptor is the reserved value `-1`.
proof fn lemma_parse_fds_data(fds: Seq<i32>)
    requires
        forall|i: int| 0 <= i < fds.len() ==> fds[i] != -1,
    ensures
        spec_parse_fds(spec_fds_data(fds)) == fds,
    decreases fds.len(),
{
    lemma_auto_spec_u32_to_from_le_bytes();
    lemma_fds_data_len(fds);
    if fds.len() == 0 {
    } else {
        let rest = fds.drop_first();
        let data = spec_fds_data(fds);
        let head_bytes = spec_u32_to_le_bytes(spec_i32_to_u32(fds[0]));
        lemma_fds_data_len(rest);
        assert(data.subrange(0, 4) =~= head_bytes);
        assert(data.skip(4) =~= spec_fds_data(rest));
        crate::cmsg::lemma_i32_u32_round_trip(fds[0], 0);
        assert(spec_i32_to_u32(fds[0]) != 0xffff_ffffu32) by {
            crate::cmsg::lemma_i32_u32_round_trip(-1i32, 0xffff_ffffu32);
        }
        lemma_parse_fds_data(rest);
        assert(seq![fds[0]] + rest =~= fds);
    }
}

/// **Round trip, file descriptors.** Encoding a file-descriptor list as a
/// control message and extracting the passed descriptors from the encoded
/// buffer yields the original list, provided no descriptor is the
/// reserved value `-1`.
pub proof fn lemma_fd_passing_round_trip(fds: Seq<i32>)
    requires
        4 * fds.len() + 23 <= usize::MAX,
        forall|i: int| 0 <= i < fds.len() ==> fds[i] != -1,
    ensures
        spec_all_fds(spec_encode_cmsg(spec_fds_cmsg(fds))) == fds,
{
    let m = spec_fds_cmsg(fds);
    lemma_fds_data_len(fds);
    crate::cmsg::lemma_encode_parse_round_trip(m, Seq::empty());
    let enc = spec_encode_cmsg(m);
    assert(enc + Seq::<u8>::empty() =~= enc);
    assert(spec_parse_cmsgs(enc) == seq![m] + spec_parse_cmsgs(Seq::empty()));
    assert(spec_parse_cmsgs(Seq::<u8>::empty()) =~= Seq::<CmsgModel>::empty());
    lemma_fds_cons(m, Seq::empty());
    assert(seq![m] + Seq::<CmsgModel>::empty() =~= seq![m]);
    lemma_parse_fds_data(fds);
    assert(spec_msg_fds(m) + Seq::<i32>::empty() =~= spec_msg_fds(m));
}

/// There was not enough capacity to add a control message.
#[derive(Clone, Copy, Debug, PartialEq, Eq, Structural)]
pub struct AncillaryDataNoCapacity;

/// The mathematical state of an [`AncillaryData`].
pub struct AncillaryModel {
    /// The encoded control messages currently held.
    pub bytes: Seq<u8>,
    /// The buffer capacity available for control messages.
    pub cap: usize,
    /// Whether the whole capacity was zero-initialized and handed out for
    /// a receive operation since the last content change.
    pub fully_initialized: bool,
    /// Whether received `SCM_RIGHTS` descriptors are owned and still to be
    /// drained.
    pub scm_rights_received: bool,
    /// The received length within which `SCM_RIGHTS` messages may occur.
    pub scm_rights_max_len: Option<usize>,
}

/// A fixed-capacity holder of encoded control messages, used as the
/// ancillary-data argument of send and receive operations.
#[derive(Debug)]
pub struct AncillaryData {
    buf: Vec<u8>,
    cap: usize,
    fully_initialized: bool,
    scm_rights_received: bool,
    scm_rights_max_len: Option<usize>,
}

impl View for AncillaryData {
    type V = AncillaryModel;

    closed spec fn view(&self) -> AncillaryModel {
        AncillaryModel {
            bytes: self.buf@,
            cap: self.cap,
            fully_initialized: self.fully_initialized,
            scm_rights_received: self.scm_rights_received,
            scm_rights_max_len: self.scm_rights_max_len,
        }
    }
}

impl AncillaryData {
    /// An empty holder with the given control-message capacity.
    pub fn new(capacity: usize) -> (r: AncillaryData)
        ensures
            r@.bytes == Seq::<u8>::empty(),
            r@.cap == capacity,
            r@.fully_initialized == (capacity == 0),
            !r@.scm_rights_received,
            r@.scm_rights_max_len is None,
    {
        AncillaryData {
            buf: Vec::new(),
            cap: capacity,
            fully_initialized: capacity == 0,
            scm_rights_received: false,
            scm_rights_max_len: None,
        }
    }

    /// The control messages currently held.
    pub fn control_messages(&self) -> (r: ControlMessages<'_>)
        ensures
            r@ == self@.bytes,
    {
        ControlMessages::from_bytes(self.buf.as_slice())
    }

    fn add_cmsg(&mut self, cmsg: &ControlMessage<'_>) -> (r: Result<(), AncillaryDataNoCapacity>)
        requires
            cmsg@.data.len() + 23 <= usize::MAX,
        ensures
            ({
                let space = spec_cmsg_space(cmsg@.data.len() as int);
                if old(self)@.bytes.len() + space > old(self)@.cap {
                    r is Err && final(self)@ == old(self)@
                } else {
                    r is Ok && final(self)@ == (AncillaryModel {
                        bytes: old(self)@.bytes + spec_encode_cmsg(cmsg@),
                        ..old(self)@
                    })
                }
            }),
    {
        let space = cmsg.cmsg_space();
        if space > self.cap || self.buf.len() > self.cap - space {
            return Err(AncillaryDataNoCapacity);
        }
        cmsg.encode_into(&mut self.buf);
        Ok(())
    }

    /// Copies a control message into the ancillary data; fails without
    /// changing anything when the encoded message does not fit the
    /// remaining capacity.
    pub fn add_control_message(&mut self, control_message: &ControlMessage<'_>) -> (r: Result<
        (),
        AncillaryDataNoCapacity,
    >)
        requires
            control_message@.data.len() + 23 <= usize::MAX,
        ensures
            ({
                let space = spec_cmsg_space(control_message@.data.len() as int);
                if old(self)@.bytes.len() + space > old(self)@.cap {
                    r is Err && final(self)@ == old(self)@
                } else {
                    r is Ok && final(self)@ == (AncillaryModel {
                        bytes: old(self)@.bytes + spec_encode_cmsg(control_message@),
                        ..old(self)@
                    })
                }
            }),
    {
        self.add_cmsg(control_message)
    }

    /// Adds an `SCM_RIGHTS` control message passing the given file
    /// descriptors; fails without changing anything when it does not fit.
    pub fn add_file_descriptors(&mut self, borrowed_fds: &[i32]) -> (r: Result<
        (),
        AncillaryDataNoCapacity,
    >)
        requires
            borrowed_fds@.len() * 4 + 23 <= usize::MAX,
        ensures
            ({
                let m = spec_fds_cmsg(borrowed_fds@);
                let space = spec_cmsg_space(m.data.len() as int);
                if old(self)@.bytes.len() + space > old(self)@.cap {
                    r is Err && final(self)@ == old(self)@
                } else {
                    r is Ok && final(self)@ == (AncillaryModel {
                        bytes: old(self)@.bytes + spec_encode_cmsg(m),
                        ..old(self)@
                    })
                }
            }),
    {
        proof {
            lemma_fds_data_len(borrowed_fds@);
            assert(borrowed_fds@.skip(0) =~= borrowed_fds@);
        }
        let data = fds_data_from(borrowed_fds, 0);
        let cmsg = ControlMessage::new(SOL_SOCKET, SCM_RIGHTS, data.as_slice());
        self.add_cmsg(&cmsg)
    }

    /// Transfers ownership of the received file descriptors to the
    /// returned iterator; afterwards the descriptors are no longer owned
    /// here, so draining twice yields nothing.
    pub fn received_fds(&mut self) -> (r: AncillaryDataReceivedFds)
        requires
            old(self)@.scm_rights_received ==> old(self)@.scm_rights_max_len is Some,
            old(self)@.bytes.len() + 7 <= usize::MAX,
        ensures
            final(self)@ == (AncillaryModel { scm_rights_received: false, ..old(self)@ }),
            r@ == ({
                if old(self)@.scm_rights_received {
                    let ml0 = match old(self)@.scm_rights_max_len {
                        Some(v) => v,
                        None => 0,
                    };
                    let ml = if ml0 > old(self)@.bytes.len() {
                        old(self)@.bytes.len() as int
                    } else {
                        ml0 as int
                    };
                    spec_all_fds(old(self)@.bytes.take(ml))
                } else {
                    Seq::<i32>::empty()
                }
            }),
    {
        if !self.scm_rights_received {
            let r = AncillaryDataReceivedFds { fds: Vec::new(), idx: 0 };
            proof {
                assert(r@ =~= Seq::<i32>::empty());
            }
            return r;
        }
        let ml0 = match self.scm_rights_max_len {
            Some(v) => v,
            None => 0,
        };
        let ml = if ml0 > self.buf.len() {
            self.buf.len()
        } else {
            ml0
        };
        let prefix = slice_subrange(self.buf.as_slice(), 0, ml);
        let fds = AncillaryDataReceivedFds::gather_fds(prefix);
        self.scm_rights_received = false;
        let r = AncillaryDataReceivedFds { fds, idx: 0 };
        proof {
            assert(r@ =~= fds@);
        }
        r
    }

    /// Hands out the full, zero-padded control-message buffer for a
    /// `sendmsg` or `recvmsg` call: the encoded messages followed by
    /// zeroed spare capacity.  Clears the held messages and the received
    /// state; `None` when there is no capacity at all.
    pub fn control_messages_buf(&mut self) -> (r: Option<Vec<u8>>)
        requires
            old(self)@.bytes.len() <= old(self)@.cap,
        ensures
            match r {
                None => old(self)@.cap == 0 && final(self)@ == old(self)@,
                Some(b) => {
                    &&& old(self)@.cap > 0
                    &&& b@ == old(self)@.bytes + Seq::new(
                        (old(self)@.cap - old(self)@.bytes.len()) as nat,
                        |i: int| 0u8,
                    )
                    &&& final(self)@ == (AncillaryModel {
                        bytes: Seq::<u8>::empty(),
                        cap: old(self)@.cap,
                        fully_initialized: true,
                        scm_rights_received: false,
                        scm_rights_max_len: None,
                    })
                },
            },
    {
        if self.cap == 0 {
            return None;
        }
        let mut out = vstd::slice::slice_to_vec(self.buf.as_slice());
        let ghost base = out@;
        let pad = self.cap - self.buf.len();
        let mut k: usize = 0;
        while k < pad
            invariant
                k <= pad,
                out@ == base + Seq::new(k as nat, |i: int| 0u8),
            decreases pad - k,
        {
            out.push(0u8);
            proof {
                assert(out@ =~= base + Seq::new((k + 1) as nat, |i: int| 0u8));
            }
            k = k + 1;
        }
        self.buf.clear();
        self.fully_initialized = true;
        self.scm_rights_received = false;
        self.scm_rights_max_len = None;
        Some(out)
    }

    /// Installs the buffer a receive operation filled, marking `len` bytes
    /// as the valid control-message prefix and as the window within which
    /// received `SCM_RIGHTS` may occur.  Requires that the buffer handed
    /// out by [`Self::control_messages_buf`] was used, unchanged in
    /// length.
    pub fn set_control_messages_len(&mut self, buf: Vec<u8>, len: usize)
        requires
            old(self)@.fully_initialized,
            buf@.len() == old(self)@.cap,
            len <= old(self)@.cap,
        ensures
            final(self)@ == (AncillaryModel {
                bytes: if old(self)@.cap > 0 {
                    buf@.take(len as int)
                } else {
                    old(self)@.bytes
                },
                cap: old(self)@.cap,
                fully_initialized: if old(self)@.cap > 0 {
                    false
                } else {
                    old(self)@.fully_initialized
                },
                scm_rights_received: old(self)@.scm_rights_received,
                scm_rights_max_len: Some(len),
            }),
    {
        if self.cap > 0 {
            let mut content = buf;
            content.truncate(len);
            self.buf = content;
            self.fully_initialized = false;
        }
        self.scm_rights_max_len = Some(len);
    }

    /// Takes ownership of any file descriptors passed in the received
    /// control messages; they can then be drained with
    /// [`Self::received_fds`].
    pub fn take_ownership_of_scm_rights(&mut self)
        requires
            old(self)@.scm_rights_max_len is Some,
        ensures
            final(self)@ == (AncillaryModel { scm_rights_received: true, ..old(self)@ }),
    {
        self.scm_rights_received = true;
    }
}

/// Reserving additional capacity failed.  Capacity bookkeeping here never
/// fails, so this error is never produced; it exists so that the
/// fallible-reservation entry points keep their result shape.
#[derive(Clone, Copy, Debug, PartialEq, Eq, Structural)]
pub struct TryReserveError;

/// The mathematical state of an [`AncillaryDataBuf`].
pub struct AncillaryBufModel {
    /// The encoded control messages currently held.
    pub bytes: Seq<u8>,
    /// The capacity guaranteed so far.
    pub cap: usize,
}

/// A growable owner of encoded control messages.
#[derive(Debug)]
pub struct AncillaryDataBuf {
    cmsgs_buf: Vec<u8>,
    cap: usize,
}

impl View for AncillaryDataBuf {
    type V = AncillaryBufModel;

    closed spec fn view(&self) -> AncillaryBufModel {
        AncillaryBufModel { bytes: self.cmsgs_buf@, cap: self.cap }
    }
}

impl AncillaryDataBuf {
    /// An empty buffer with no capacity guaranteed yet.
    pub fn new() -> (r: AncillaryDataBuf)
        ensures
            r@.bytes == Seq::<u8>::empty(),
            r@.cap == 0,
    {
        AncillaryDataBuf { cmsgs_buf: Vec::new(), cap: 0 }
    }

    /// An empty buffer guaranteeing the given capacity.
    pub fn with_capacity(capacity: usize) -> (r: AncillaryDataBuf)
        ensures
            r@.bytes == Seq::<u8>::empty(),
            r@.cap == capacity,
    {
        AncillaryDataBuf { cmsgs_buf: Vec::with_capacity(capacity), cap: capacity }
    }

    /// The capacity guaranteed so far; the underlying allocation may be
    /// larger.
    pub fn capacity(&self) -> (r: usize)
        ensures
            r == self@.cap,
    {
        self.cap
    }

    /// The control messages currently held.
    pub fn control_messages(&self) -> (r: ControlMessages<'_>)
        ensures
            r@ == self@.bytes,
    {
        ControlMessages::from_bytes(self.cmsgs_buf.as_slice())
    }

    fn add_cmsg(&mut self, cmsg: &ControlMessage<'_>)
        requires
            cmsg@.data.len() + 23 <= usize::MAX,
            old(self)@.bytes.len() + spec_cmsg_space(cmsg@.data.len() as int) <= usize::MAX,
        ensures
            final(self)@.bytes == old(self)@.bytes + spec_encode_cmsg(cmsg@),
            final(self)@.cap == ({
                let n = old(self)@.bytes.len() + spec_cmsg_space(cmsg@.data.len() as int);
                if old(self)@.cap >= n {
                    old(self)@.cap as int
                } else {
                    n
                }
            }),
    {
        let space = cmsg.cmsg_space();
        let needed = self.cmsgs_buf.len() + space;
        if self.cap < needed {
            self.cap = needed;
        }
        cmsg.encode_into(&mut self.cmsgs_buf);
    }

    /// Copies a control message into the buffer, growing it as needed.
    pub fn add_control_message(&mut self, control_message: &ControlMessage<'_>)
        requires
            control_message@.data.len() + 23 <= usize::MAX,
            old(self)@.bytes.len() + spec_cmsg_space(control_message@.data.len() as int)
                <= usize::MAX,
        ensures
            final(self)@.bytes == old(self)@.bytes + spec_encode_cmsg(control_message@),
            final(self)@.cap == ({
                let n = old(self)@.bytes.len() + spec_cmsg_space(
                    control_message@.data.len() as int,
                );
                if old(self)@.cap >= n {
                    old(self)@.cap as int
                } else {
                    n
                }
            }),
    {
        self.add_cmsg(control_message);
    }

    /// Adds an `SCM_RIGHTS` control message passing the given file
    /// descriptors, growing the buffer as needed.
    pub fn add_file_descriptors(&mut self, borrowed_fds: &[i32])
        requires
            borrowed_fds@.len() * 4 + 23 <= usize::MAX,
            old(self)@.bytes.len() + spec_cmsg_space(4 * borrowed_fds@.len() as int) <= usize::MAX,
        ensures
            final(self)@.bytes == old(self)@.bytes + spec_encode_cmsg(
                spec_fds_cmsg(borrowed_fds@),
            ),
            final(self)@.cap == ({
                let n = old(self)@.bytes.len() + spec_cmsg_space(4 * borrowed_fds@.len() as int);
                if old(self)@.cap >= n {
                    old(self)@.cap as int
                } else {
                    n
                }
            }),
    {
        proof {
            lemma_fds_data_len(borrowed_fds@);
            assert(borrowed_fds@.skip(0) =~= borrowed_fds@);
        }
        let data = fds_data_from(borrowed_fds, 0);
        let cmsg = ControlMessage::new(SOL_SOCKET, SCM_RIGHTS, data.as_slice());
        self.add_cmsg(&cmsg);
    }

    /// Transfers the held control messages into an [`AncillaryData`] for
    /// one send or receive call, leaving this buffer empty (its capacity
    /// is kept).
    pub fn to_ancillary_data(&mut self) -> (r: AncillaryData)
        ensures
            r@ == (AncillaryModel {
                bytes: old(self)@.bytes,
                cap: if old(self)@.cap as int >= old(self)@.bytes.len() {
                    old(self)@.cap
                } else {
                    old(self)@.bytes.len() as usize
                },
                fully_initialized: false,
                scm_rights_received: false,
                scm_rights_max_len: None,
            }),
            final(self)@.bytes == Seq::<u8>::empty(),
            final(self)@.cap == old(self)@.cap,
    {
        let bytes = vstd::slice::slice_to_vec(self.cmsgs_buf.as_slice());
        let cap = if self.cap >= bytes.len() {
            self.cap
        } else {
            bytes.len()
        };
        self.cmsgs_buf.clear();
        AncillaryData {
            buf: bytes,
            cap,
            fully_initialized: false,
            scm_rights_received: false,
            scm_rights_max_len: None,
        }
    }

    /// Clears the control messages without affecting capacity.
    pub fn clear(&mut self)
        ensures
            final(self)@.bytes == Seq::<u8>::empty(),
            final(self)@.cap == old(self)@.cap,
    {
        self.cmsgs_buf.clear();
    }

    /// Guarantees capacity for at least `capacity` more bytes.
    pub fn reserve(&mut self, capacity: usize)
        requires
            old(self)@.bytes.len() + capacity <= usize::MAX,
        ensures
            final(self)@.bytes == old(self)@.bytes,
            final(self)@.cap == ({
                let n = old(self)@.bytes.len() + capacity;
                if old(self)@.cap >= n {
                    old(self)@.cap as int
                } else {
                    n
                }
            }),
    {
        self.cmsgs_buf.reserve(capacity);
        let needed = self.cmsgs_buf.len() + capacity;
        if self.cap < needed {
            self.cap = needed;
        }
    }

    /// Guarantees capacity for at least `capacity` more bytes, without
    /// over-allocating beyond the guarantee.
    pub fn reserve_exact(&mut self, capacity: usize)
        requires
            old(self)@.bytes.len() + capacity <= usize::MAX,
        ensures
            final(self)@.bytes == old(self)@.bytes,
            final(self)@.cap == ({
                let n = old(self)@.bytes.len() + capacity;
                if old(self)@.cap >= n {
                    old(self)@.cap as int
                } else {
                    n
                }
            }),
    {
        self.cmsgs_buf.reserve(capacity);
        let needed = self.cmsgs_buf.len() + capacity;
        if self.cap < needed {
            self.cap = needed;
        }
    }

    /// Fallibly guarantees capacity; capacity bookkeeping never fails
    /// here, so the result is always `Ok`.
    pub fn try_reserve(&mut self, capacity: usize) -> (r: Result<(), TryReserveError>)
        requires
            old(self)@.bytes.len() + capacity <= usize::MAX,
        ensures
            r is Ok,
            final(self)@.bytes == old(self)@.bytes,
            final(self)@.cap == ({
                let n = old(self)@.bytes.len() + capacity;
                if old(self)@.cap >= n {
                    old(self)@.cap as int
                } else {
                    n
                }
            }),
    {
        self.reserve(capacity);
        Ok(())
    }

    /// Fallibly guarantees exact capacity; always `Ok` here.
    pub fn try_reserve_exact(&mut self, capacity: usize) -> (r: Result<(), TryReserveError>)
        requires
            old(self)@.bytes.len() + capacity <= usize::MAX,
        ensures
            r is Ok,
            final(self)@.bytes == old(self)@.bytes,
            final(self)@.cap == ({
                let n = old(self)@.bytes.len() + capacity;
                if old(self)@.cap >= n {
                    old(self)@.cap as int
                } else {
                    n
                }
            }),
    {
        self.reserve_exact(capacity);
        Ok(())
    }
}

} // verus!

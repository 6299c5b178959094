//! The frame codec: `MAGIC(4) || LENGTH(8, big-endian) || ENVELOPE`, answered
//! by `MAGIC(4) || LENGTH(8) || "OK"`. Each side is a state machine fed with
//! the bytes that its connection delivered, one exact read at a time.
use crate::envelope::{decrypt, decrypt_result, result_is};
use crate::error::FileTransferError;
use crate::wire::{
    append_bytes, be8, be_u64, is_magic, lemma_be8_round_trip, magic, magic_vec, u64_from_be,
    u64_to_be,
};
use vstd::prelude::*;

verus! {

/// The largest envelope a server accepts: 1 GiB.
pub const LENGTH_CAP: u64 = 1024 * 1024 * 1024;

/// Bytes of the magic header.
pub const HEADER_SIZE: usize = 4;

/// Bytes of the length field.
pub const LENGTH_SIZE: usize = 8;

/// Bytes of the closing "OK" of an acknowledgement.
pub const OK_SIZE: usize = 2;

/// The closing bytes of an acknowledgement, "OK".
pub open spec fn ok_bytes() -> Seq<u8> {
    seq![0x4fu8, 0x4bu8]
}

/// The frame that carries `e`.
pub open spec fn frame_of(e: Seq<u8>) -> Seq<u8> {
    magic() + be8(e.len() as u64) + e
}

/// The acknowledgement that echoes the length field `len_bytes`.
pub open spec fn ack_of(len_bytes: Seq<u8>) -> Seq<u8> {
    magic() + len_bytes + ok_bytes()
}

/// Where a client stands while it waits for the acknowledgement.
#[derive(Debug, Clone, Copy, PartialEq, Eq, Structural)]
pub enum AckStage {
    AwaitHeader,
    AwaitLength,
    AwaitOk,
    Accepted,
}

/// Where a server stands while it receives one frame.
#[derive(Debug, Clone, Copy, PartialEq, Eq, Structural)]
pub enum FrameStage {
    AwaitHeader,
    AwaitLength,
    AwaitPayload,
    Complete,
}

/// One client exchange: the frame to write, then the acknowledgement to check.
pub struct ClientExchange {
    pub frame: Vec<u8>,
    pub sent_len: u64,
    pub stage: AckStage,
}

/// One server exchange: the frame read so far.
pub struct ServerExchange {
    pub stage: FrameStage,
    pub len_bytes: Vec<u8>,
    pub declared: u64,
    pub payload: Vec<u8>,
}

impl View for ServerExchange {
    type V = (FrameStage, Seq<u8>, u64, Seq<u8>);

    open spec fn view(&self) -> Self::V {
        (self.stage, self.len_bytes@, self.declared, self.payload@)
    }
}

/// How many bytes a client reads next at `stage`.
pub open spec fn ack_read_len(stage: AckStage) -> nat {
    match stage {
        AckStage::AwaitHeader => HEADER_SIZE as nat,
        AckStage::AwaitLength => LENGTH_SIZE as nat,
        AckStage::AwaitOk => OK_SIZE as nat,
        AckStage::Accepted => 0,
    }
}

/// A client at `stage`, having sent `sent_len` bytes of envelope, reads `b`:
/// the next stage and the verdict. A failed check leaves the stage as it was.
pub open spec fn ack_step(stage: AckStage, sent_len: u64, b: Seq<u8>) -> (AckStage, Result<(), FileTransferError>) {
    match stage {
        AckStage::AwaitHeader => if b == magic() {
            (AckStage::AwaitLength, Ok(()))
        } else {
            (stage, Err(FileTransferError::InvalidHeader))
        },
        AckStage::AwaitLength => if b.len() == LENGTH_SIZE && be_u64(b) == sent_len {
            (AckStage::AwaitOk, Ok(()))
        } else {
            (stage, Err(FileTransferError::InvalidLength))
        },
        AckStage::AwaitOk => if b == ok_bytes() {
            (AckStage::Accepted, Ok(()))
        } else {
            (stage, Err(FileTransferError::Generic))
        },
        AckStage::Accepted => (stage, Err(FileTransferError::Generic)),
    }
}

/// The state of a server exchange before anything was read.
pub open spec fn server_start() -> (FrameStage, Seq<u8>, u64, Seq<u8>) {
    (FrameStage::AwaitHeader, Seq::empty(), 0, Seq::empty())
}

/// How many bytes a server reads next in state `s`.
pub open spec fn frame_read_len(s: (FrameStage, Seq<u8>, u64, Seq<u8>)) -> nat {
    match s.0 {
        FrameStage::AwaitHeader => HEADER_SIZE as nat,
        FrameStage::AwaitLength => LENGTH_SIZE as nat,
        FrameStage::AwaitPayload => s.2 as nat,
        FrameStage::Complete => 0,
    }
}

/// A server in state `s` reads `b`: the next state and the verdict. A failed
/// check leaves the state as it was; a length above the cap never reaches the
/// payload stage.
pub open spec fn frame_step(s: (FrameStage, Seq<u8>, u64, Seq<u8>), b: Seq<u8>) -> (
    (FrameStage, Seq<u8>, u64, Seq<u8>),
    Result<(), FileTransferError>,
) {
    match s.0 {
        FrameStage::AwaitHeader => if b == magic() {
            ((FrameStage::AwaitLength, s.1, s.2, s.3), Ok(()))
        } else {
            (s, Err(FileTransferError::InvalidHeader))
        },
        FrameStage::AwaitLength => if b.len() == LENGTH_SIZE && be_u64(b) <= LENGTH_CAP {
            ((FrameStage::AwaitPayload, b, be_u64(b), s.3), Ok(()))
        } else {
            (s, Err(FileTransferError::InvalidLength))
        },
        FrameStage::AwaitPayload => if b.len() == s.2 {
            ((FrameStage::Complete, s.1, s.2, b), Ok(()))
        } else {
            (s, Err(FileTransferError::InvalidLength))
        },
        FrameStage::Complete => (s, Err(FileTransferError::Generic)),
    }
}

/// The closing "OK" of an acknowledgement.
fn ok_vec() -> (r: Vec<u8>)
    ensures
        r@ == ok_bytes(),
{
    let r = vec![0x4fu8, 0x4bu8];
    assert(r@ =~= ok_bytes());
    r
}

impl ClientExchange {
    /// Starts the exchange that carries the envelope `data`.
    pub fn new(data: &[u8]) -> (r: Self)
        ensures
            r.frame@ == frame_of(data@),
            r.sent_len == data@.len(),
            r.stage == AckStage::AwaitHeader,
    {
        let len = data.len() as u64;
        let mut frame = magic_vec();
        let mut len_bytes = u64_to_be(len);
        frame.append(&mut len_bytes);
        append_bytes(&mut frame, data);
        ClientExchange { frame, sent_len: len, stage: AckStage::AwaitHeader }
    }

    /// How many bytes of acknowledgement to read next; 0 once accepted.
    pub fn want(&self) -> (r: usize)
        ensures
            r == ack_read_len(self.stage),
    {
        match self.stage {
            AckStage::AwaitHeader => HEADER_SIZE,
            AckStage::AwaitLength => LENGTH_SIZE,
            AckStage::AwaitOk => OK_SIZE,
            AckStage::Accepted => 0,
        }
    }

    /// Checks the next piece of acknowledgement.
    pub fn feed(&mut self, bytes: &[u8]) -> (r: Result<(), FileTransferError>)
        ensures
            (final(self).stage, r) == ack_step(old(self).stage, old(self).sent_len, bytes@),
            final(self).frame == old(self).frame,
            final(self).sent_len == old(self).sent_len,
    {
        match self.stage {
            AckStage::AwaitHeader => {
                if is_magic(bytes) {
                    self.stage = AckStage::AwaitLength;
                    Ok(())
                } else {
                    Err(FileTransferError::InvalidHeader)
                }
            },
            AckStage::AwaitLength => {
                if bytes.len() == LENGTH_SIZE && u64_from_be(bytes) == self.sent_len {
                    self.stage = AckStage::AwaitOk;
                    Ok(())
                } else {
                    Err(FileTransferError::InvalidLength)
                }
            },
            AckStage::AwaitOk => {
                if bytes.len() == OK_SIZE && bytes[0] == 0x4f && bytes[1] == 0x4b {
                    assert(bytes@ =~= ok_bytes());
                    self.stage = AckStage::Accepted;
                    Ok(())
                } else {
                    Err(FileTransferError::Generic)
                }
            },
            AckStage::Accepted => Err(FileTransferError::Generic),
        }
    }

    /// Whether the server confirmed the frame.
    pub fn is_accepted(&self) -> (r: bool)
        ensures
            r == (self.stage == AckStage::Accepted),
    {
        self.stage == AckStage::Accepted
    }
}

impl ServerExchange {
    /// A server exchange before anything was read.
    pub fn new() -> (r: Self)
        ensures
            r@ == server_start(),
    {
        ServerExchange {
            stage: FrameStage::AwaitHeader,
            len_bytes: Vec::new(),
            declared: 0,
            payload: Vec::new(),
        }
    }

    /// How many bytes of frame to read next; 0 once complete. Never more
    /// than the cap.
    pub fn want(&self) -> (r: usize)
        requires
            self.declared <= LENGTH_CAP,
        ensures
            r == frame_read_len(self@),
    {
        match self.stage {
            FrameStage::AwaitHeader => HEADER_SIZE,
            FrameStage::AwaitLength => LENGTH_SIZE,
            FrameStage::AwaitPayload => self.declared as usize,
            FrameStage::Complete => 0,
        }
    }

    /// Checks and records the next piece of frame.
    pub fn feed(&mut self, bytes: &[u8]) -> (r: Result<(), FileTransferError>)
        ensures
            (final(self)@, r) == frame_step(old(self)@, bytes@),
    {
        match self.stage {
            FrameStage::AwaitHeader => {
                if is_magic(bytes) {
                    self.stage = FrameStage::AwaitLength;
                    Ok(())
                } else {
                    Err(FileTransferError::InvalidHeader)
                }
            },
            FrameStage::AwaitLength => {
                if bytes.len() != LENGTH_SIZE {
                    return Err(FileTransferError::InvalidLength);
                }
                let len = u64_from_be(bytes);
                if len > LENGTH_CAP {
                    return Err(FileTransferError::InvalidLength);
                }
                self.len_bytes = vstd::slice::slice_to_vec(bytes);
                self.declared = len;
                self.stage = FrameStage::AwaitPayload;
                Ok(())
            },
            FrameStage::AwaitPayload => {
                if bytes.len() as u64 != self.declared {
                    return Err(FileTransferError::InvalidLength);
                }
                self.payload = vstd::slice::slice_to_vec(bytes);
                self.stage = FrameStage::Complete;
                Ok(())
            },
            FrameStage::Complete => Err(FileTransferError::Generic),
        }
    }

    /// Whether the whole frame has been read.
    pub fn is_complete(&self) -> (r: bool)
        ensures
            r == (self.stage == FrameStage::Complete),
    {
        self.stage == FrameStage::Complete
    }

    /// The acknowledgement to write back: the magic header, the length field
    /// exactly as it was received, and "OK".
    pub fn ack(&self) -> (r: Vec<u8>)
        ensures
            r@ == ack_of(self.len_bytes@),
    {
        let mut r = magic_vec();
        append_bytes(&mut r, self.len_bytes.as_slice());
        let mut ok = ok_vec();
        r.append(&mut ok);
        r
    }

    /// Opens the received envelope with `password`.
    pub fn open(&self, password: &[u8]) -> (r: Result<Vec<u8>, FileTransferError>)
        ensures
            result_is(r, decrypt_result(self.payload@, password@)),
            forall|p: Seq<u8>|
                crate::envelope::sealed_by(self.payload@, password@, p) ==> (r is Ok && r->Ok_0@ == p),
    {
        decrypt(self.payload.as_slice(), password)
    }
}

/// Every envelope up to the cap goes through: a server fed the three parts of
/// its frame completes with that envelope as payload, and a client that sent
/// it accepts the server's acknowledgement piece by piece.
pub proof fn lemma_frame_round_trip(e: Seq<u8>)
    requires
        e.len() <= LENGTH_CAP,
    ensures
        frame_of(e) == magic() + be8(e.len() as u64) + e,
        ({
            let (s1, r1) = frame_step(server_start(), magic());
            let (s2, r2) = frame_step(s1, be8(e.len() as u64));
            let (s3, r3) = frame_step(s2, e);
            let ack = ack_of(s2.1);
            let (c1, a1) = ack_step(AckStage::AwaitHeader, e.len() as u64, ack.take(4));
            let (c2, a2) = ack_step(c1, e.len() as u64, ack.subrange(4, 12));
            let (c3, a3) = ack_step(c2, e.len() as u64, ack.skip(12));
            &&& r1 is Ok && r2 is Ok && r3 is Ok
            &&& s3.0 == FrameStage::Complete && s3.3 == e && s3.1 == s2.1
            &&& be_u64(s3.1) == e.len()
            &&& a1 is Ok && a2 is Ok && a3 is Ok
            &&& c3 == AckStage::Accepted
        }),
{
    let n = e.len() as u64;
    lemma_be8_round_trip(n);
    let ack = ack_of(be8(n));
    assert(ack.take(4) =~= magic());
    assert(ack.subrange(4, 12) =~= be8(n));
    assert(ack.skip(12) =~= ok_bytes());
}

/// A declared length above the cap is refused, and the server never moves on
/// to read a payload of that size.
pub proof fn lemma_cap_enforced(s: (FrameStage, Seq<u8>, u64, Seq<u8>), n: u64)
    requires
        s.0 == FrameStage::AwaitLength,
        n > LENGTH_CAP,
    ensures
        frame_step(s, be8(n)) == (s, Err::<(), FileTransferError>(FileTransferError::InvalidLength)),
{
    lemma_be8_round_trip(n);
}

/// Bytes other than the magic header at a frame boundary are a header
/// mismatch, for the server reading a frame and for the client reading an
/// acknowledgement.
pub proof fn lemma_header_mismatch(b: Seq<u8>, sent_len: u64)
    requires
        b != magic(),
    ensures
        frame_step(server_start(), b).1 == Err::<(), FileTransferError>(FileTransferError::InvalidHeader),
        ack_step(AckStage::AwaitHeader, sent_len, b).1 == Err::<(), FileTransferError>(FileTransferError::InvalidHeader),
{
}

} // verus!

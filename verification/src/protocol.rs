use vstd::prelude::*;
use crate::error::DriverError;
use crate::session::OdroidShow2;
use crate::ACKNOWLEDGE_BYTE;

verus! {

/// Protocol state of a packet transaction. Only the write-request
/// handshake and the ready-to-receive poll are wired up; `Sent` and
/// `DoNotSend` belong to the data-transfer phase, which this engine
/// does not reach yet, and no transition here enters them.
#[derive(Debug, Clone, Copy, PartialEq, Eq)]
pub enum OdroidShow2PacketState {
    /// No write request has completed for this packet.
    Unsent,
    /// A write request went out. No transition reaches this state
    /// yet: a completed handshake deliberately leaves the packet
    /// `Unsent` (see `reply_read`), and wiring the advance in is
    /// still open.
    RequestSent,
    /// The device acknowledged the poll: the payload body may go out.
    ReadyToSend,
    /// Terminal refusal, reserved for the data-transfer phase.
    DoNotSend,
    /// The payload body went out; reserved for the data-transfer
    /// phase.
    Sent,
}

/// Where the write-request handshake stands. The transaction
/// prescribes each bulk transfer to its caller and judges the
/// outcome the caller reports back, so between those calls the packet
/// records which transfer is outstanding.
#[derive(Debug, Clone, Copy, PartialEq, Eq)]
pub enum StartProgress {
    /// No handshake under way.
    Idle,
    /// The acknowledge marker is to be written to the OUT endpoint.
    MarkerRequested,
    /// The length byte is to be written to the OUT endpoint.
    LengthRequested,
    /// One byte is to be read from the IN endpoint, without waiting.
    ReplyRequested,
}

/// The outcome of one poll attempt against the IN endpoint, as the
/// caller observed it.
#[derive(Debug, Clone, Copy, PartialEq, Eq)]
pub enum PollEvent {
    /// The read returned: `bytes_read` bytes came back, the first of
    /// them being `byte`.
    Reply { bytes_read: usize, byte: u8 },
    /// The read failed (typically: no data within the attempt's
    /// short timeout); `timed_out` says whether the caller's overall
    /// timeout has elapsed.
    NoReply { timed_out: bool },
}

/// What one poll attempt decides: try again, the device is ready, or
/// the check is over with an error.
#[derive(Debug, Clone, Copy, PartialEq, Eq)]
pub enum PollVerdict {
    /// No reply yet and time remains: poll again.
    Retry,
    /// The device acknowledged: it is ready to receive.
    Ready,
    /// The check failed, terminally, with the carried error.
    Failed(DriverError),
}

/// One payload exchange against a bound device: the payload, its
/// one-byte length, and the protocol state. A packet borrows both the
/// session it operates through and the payload bytes, so it can
/// outlive neither.
///
/// The packet is the protocol's decision engine: it prescribes each
/// bulk transfer (which byte to write, when to read) and judges the
/// outcome the caller reports back, so the transfers themselves stay
/// with the code that owns the device handle.
pub struct OdroidShow2Packet<'device, 'data> {
    pub device: &'device OdroidShow2,
    pub length: u8,
    pub payload: &'data [u8],
    pub state: OdroidShow2PacketState,
    pub progress: StartProgress,
    /// Byte count the caller reported for the length write; a
    /// completed handshake hands it back as its progress signal.
    pub length_bytes_sent: usize,
}

/// What every handshake step leaves untouched: the packet's binding
/// to its device, payload and computed length.
pub open spec fn same_binding<'device, 'data>(a: OdroidShow2Packet<'device, 'data>, b: OdroidShow2Packet<'device, 'data>) -> bool {
    a.device == b.device && a.payload == b.payload && a.length == b.length
}

impl<'device, 'data> OdroidShow2Packet<'device, 'data> {
    /// Builds a packet over `payload`, bound to `device`. The
    /// transport's length field is a single byte, so any payload
    /// longer than 255 bytes is rejected here, before any I/O.
    pub fn new(payload: &'data [u8], device: &'device OdroidShow2) -> (r: Result<Self, DriverError>)
        ensures
            (r is Ok <==> payload@.len() <= 255),
            (r matches Ok(p) ==> p.length == payload@.len()
                && p.payload == payload
                && p.device == device
                && p.state is Unsent
                && p.progress is Idle
                && p.length_bytes_sent == 0),
            (r matches Err(e) ==> e == DriverError::PayloadTooLarge),
    {
        if payload.len() > 255 {
            Err(DriverError::PayloadTooLarge)
        } else {
            Ok(OdroidShow2Packet {
                device: device,
                length: payload.len() as u8,
                payload: payload,
                state: OdroidShow2PacketState::Unsent,
                progress: StartProgress::Idle,
                length_bytes_sent: 0,
            })
        }
    }

    /// Step 1 of the write-request handshake, valid only while the
    /// packet is `Unsent` with no handshake under way: returns the
    /// acknowledge marker, to be written to the OUT endpoint as a
    /// single byte.
    pub fn begin_start_transaction(&mut self) -> (b: u8)
        requires
            old(self).state is Unsent,
            old(self).progress is Idle,
        ensures
            b == ACKNOWLEDGE_BYTE,
            final(self).progress is MarkerRequested,
            final(self).state == old(self).state,
            final(self).length_bytes_sent == old(self).length_bytes_sent,
            same_binding(*final(self), *old(self)),
    {
        self.progress = StartProgress::MarkerRequested;
        ACKNOWLEDGE_BYTE
    }

    /// Step 2: judges the marker write and returns the length byte,
    /// to be written to the OUT endpoint as a single byte. Exactly
    /// one marker byte must have gone out; any other count is a fatal
    /// transport inconsistency, outside the protocol's domain, and
    /// the caller must abort rather than continue.
    pub fn marker_written(&mut self, bytes_sent: usize) -> (b: u8)
        requires
            old(self).progress is MarkerRequested,
            bytes_sent == 1,
        ensures
            b == old(self).length,
            final(self).progress is LengthRequested,
            final(self).state == old(self).state,
            final(self).length_bytes_sent == old(self).length_bytes_sent,
            same_binding(*final(self), *old(self)),
    {
        self.progress = StartProgress::LengthRequested;
        self.length
    }

    /// Step 3: judges the length write and asks for the reply: one
    /// byte is now to be read from the IN endpoint, immediately and
    /// without waiting. As with the marker, exactly one byte must
    /// have gone out. The count is kept to be handed back when the
    /// handshake completes.
    pub fn length_written(&mut self, bytes_sent: usize)
        requires
            old(self).progress is LengthRequested,
            bytes_sent == 1,
        ensures
            final(self).progress is ReplyRequested,
            final(self).state == old(self).state,
            final(self).length_bytes_sent == bytes_sent,
            same_binding(*final(self), *old(self)),
    {
        self.progress = StartProgress::ReplyRequested;
        self.length_bytes_sent = bytes_sent;
    }

    /// Step 4, the end of the write request: judges the reply read.
    /// The device must have answered with exactly one byte, the
    /// acknowledge marker; anything else is a `ProtocolError`. On
    /// acknowledgment the byte count of the length write comes back
    /// as the caller's progress signal.
    ///
    /// The packet deliberately stays `Unsent` either way: the advance
    /// to `RequestSent` is not wired up yet, and is left visible as a
    /// gap rather than guessed at.
    pub fn reply_read(&mut self, bytes_read: usize, reply: u8) -> (r: Result<usize, DriverError>)
        requires
            old(self).progress is ReplyRequested,
        ensures
            (bytes_read == 1 && reply == ACKNOWLEDGE_BYTE
                ==> r == Ok::<usize, DriverError>(old(self).length_bytes_sent)),
            (!(bytes_read == 1 && reply == ACKNOWLEDGE_BYTE)
                ==> r == Err::<usize, DriverError>(DriverError::ProtocolError)),
            final(self).progress is Idle,
            final(self).state == old(self).state,
            final(self).length_bytes_sent == old(self).length_bytes_sent,
            same_binding(*final(self), *old(self)),
    {
        self.progress = StartProgress::Idle;
        if bytes_read != 1 || reply != ACKNOWLEDGE_BYTE {
            Err(DriverError::ProtocolError)
        } else {
            Ok(self.length_bytes_sent)
        }
    }

    /// One attempt of the ready-to-receive poll, valid only from
    /// `RequestSent`. A failed read is retried until the caller's
    /// overall timeout elapses, and only then becomes `Timeout`; a
    /// reply that is not exactly one acknowledge byte fails at once
    /// with `ProtocolError`; the acknowledge byte moves the packet to
    /// `ReadyToSend`.
    pub fn check_is_ready_to_receive_step(&mut self, event: PollEvent) -> (v: PollVerdict)
        requires
            old(self).state is RequestSent,
        ensures
            (event matches PollEvent::NoReply { timed_out } && timed_out
                ==> v == PollVerdict::Failed(DriverError::Timeout)),
            (event matches PollEvent::NoReply { timed_out } && !timed_out
                ==> v is Retry),
            (event matches PollEvent::Reply { bytes_read, byte }
                && !(bytes_read == 1 && byte == ACKNOWLEDGE_BYTE)
                ==> v == PollVerdict::Failed(DriverError::ProtocolError)),
            (event matches PollEvent::Reply { bytes_read, byte }
                && bytes_read == 1 && byte == ACKNOWLEDGE_BYTE
                ==> v is Ready && final(self).state is ReadyToSend),
            (v is Ready <==> final(self).state is ReadyToSend),
            (!(v is Ready) ==> final(self).state == old(self).state),
            final(self).progress == old(self).progress,
            final(self).length_bytes_sent == old(self).length_bytes_sent,
            same_binding(*final(self), *old(self)),
    {
        match event {
            PollEvent::NoReply { timed_out } => {
                if timed_out {
                    PollVerdict::Failed(DriverError::Timeout)
                } else {
                    PollVerdict::Retry
                }
            }
            PollEvent::Reply { bytes_read, byte } => {
                if bytes_read != 1 || byte != ACKNOWLEDGE_BYTE {
                    PollVerdict::Failed(DriverError::ProtocolError)
                } else {
                    self.state = OdroidShow2PacketState::ReadyToSend;
                    PollVerdict::Ready
                }
            }
        }
    }
}

impl OdroidShow2 {
    /// Builds a packet transaction over `data`, bound to this
    /// session; fails with `PayloadTooLarge` if `data` does not fit
    /// the single-byte length field.
    pub fn into_packet<'device, 'data>(&'device self, data: &'data [u8]) -> (r: Result<OdroidShow2Packet<'device, 'data>, DriverError>)
        ensures
            (r is Ok <==> data@.len() <= 255),
            (r matches Ok(p) ==> p.length == data@.len()
                && p.payload == data
                && p.device == self
                && p.state is Unsent
                && p.progress is Idle),
            (r matches Err(e) ==> e == DriverError::PayloadTooLarge),
    {
        OdroidShow2Packet::new(data, self)
    }
}

} // verus!

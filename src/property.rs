//! The property-tag client: the request record handed to the VideoCore
//! through the mailbox, the decoding of its reply, and the clock-rate calls
//! built on it.
use vstd::prelude::*;
use crate::mbox::{frame_word, read_result, PROPERTY_TAGS_VC};

verus! {

/// Number of payload cells in a request record.
pub const VALUE_BUFFER_LEN: usize = 16;

/// Size in bytes of a request record: five header words, the payload
/// cells and the end tag.
pub const MSG_LEN: u32 = 88;

/// Request/response code of a record that has not been answered.
pub const REQUEST: u32 = 0x0;

/// Response code of a record that the firmware answered.
pub const RESPONSE_OK: u32 = 0x8000_0000;

/// Response code of a record that the firmware could not parse.
pub const RESPONSE_ERR: u32 = 0x8000_0001;

/// The bits of a tag response code that give the response length.
pub const RESPONSE_LEN_MASK: u32 = 0x7FFF_FFFF;

/// Tag: read whether a clock is on.
pub const GET_CLOCK_STATE: u32 = 0x30001;

/// Tag: switch a clock on or off.
pub const SET_CLOCK_STATE: u32 = 0x38001;

/// Tag: read the rate of a clock.
pub const GET_CLOCK_RATE: u32 = 0x30002;

/// Tag: set the rate of a clock.
pub const SET_CLOCK_RATE: u32 = 0x38002;

/// Clock id of the UART.
pub const CLOCK_UART: u32 = 0x2;

/// Clock id of the ARM core.
pub const CLOCK_CORE: u32 = 0x4;

/// Length in bytes of a clock-rate reply: the clock id and the rate.
pub const CLOCK_RATE_RESP_LEN: u32 = 8;

/// Why a mailbox or property-tag call failed.
#[derive(Clone, Copy, Debug, PartialEq, Eq, Structural)]
pub enum MboxError {
    /// The firmware rejected the request record.
    BadRequest,
    /// The record still held the request code after the handshake.
    NoResponse,
    /// The response code was none of the known ones.
    UnexpectedResponse,
    /// The tag's response length was not the one expected.
    UnexpectedLength,
    /// The clock-rate tag answered with a zero rate.
    NoSuchClock,
    /// The firmware set another UART clock rate than the one asked for.
    ClockProgrammingFailed,
}

/// The payload cells of a property call, and the length in bytes of their
/// meaningful part.
#[derive(Clone, Copy, Debug)]
pub struct SendMailPayload {
    pub buffer: [u32; 16],
    pub len: u32,
}

/// The request record, as laid out in memory (the caller places it at a
/// 16-byte aligned address).
#[derive(Clone, Copy, Debug)]
pub struct Msg {
    pub buffer_len: u32,
    pub reqresp_code: u32,
    pub tag_id: u32,
    pub request_value_len: u32,
    pub tag_reqresp_code: u32,
    pub value: [u32; 16],
    pub must_be_zero: u32,
}

/// A property call to make: the channel, the tag and the payload.
#[derive(Clone, Copy, Debug)]
pub struct PropertyCall {
    pub channel: u32,
    pub tag: u32,
    pub payload: SendMailPayload,
}

/// `args` followed by zero cells, up to the sixteen cells of a record.
pub open spec fn padded(args: Seq<u32>) -> Seq<u32> {
    Seq::new(16, |i: int| if i < args.len() { args[i] } else { 0u32 })
}

/// What the reply to a request record yields: on success the cells and the
/// response length; else the error that the response code names.
pub open spec fn reply_of(msg: Msg) -> Result<(Seq<u32>, u32), MboxError> {
    if msg.reqresp_code == RESPONSE_OK {
        Ok((msg.value@, msg.tag_reqresp_code & RESPONSE_LEN_MASK))
    } else if msg.reqresp_code == RESPONSE_ERR {
        Err(MboxError::BadRequest)
    } else if msg.reqresp_code == REQUEST {
        Err(MboxError::NoResponse)
    } else {
        Err(MboxError::UnexpectedResponse)
    }
}

impl SendMailPayload {
    /// The payload that holds `args` in its first cells and zero after
    /// them, with a length of four bytes for each argument.
    pub fn new(args: &[u32]) -> (r: SendMailPayload)
        requires
            args@.len() <= VALUE_BUFFER_LEN,
        ensures
            r.buffer@ == padded(args@),
            r.len == 4 * args@.len(),
    {
        let mut buffer = [0u32; 16];
        let mut i: usize = 0;
        while i < args.len()
            invariant
                i <= args@.len(),
                args@.len() <= 16,
                buffer@.len() == 16,
                forall|j: int| 0 <= j < 16 ==> buffer@[j] == (if j < i { args@[j] } else { 0u32 }),
            decreases args@.len() - i,
        {
            buffer[i] = args[i];
            i += 1;
        }
        assert(buffer@ =~= padded(args@));
        SendMailPayload { buffer, len: 4 * args.len() as u32 }
    }
}

impl Msg {
    /// The request record for `tag` carrying `payload`.
    pub fn request(tag: u32, payload: &SendMailPayload) -> (r: Msg)
        ensures
            r.buffer_len == MSG_LEN,
            r.reqresp_code == REQUEST,
            r.tag_id == tag,
            r.request_value_len == payload.len,
            r.tag_reqresp_code == 0,
            r.value@ == payload.buffer@,
            r.must_be_zero == 0,
    {
        Msg {
            buffer_len: MSG_LEN,
            reqresp_code: REQUEST,
            tag_id: tag,
            request_value_len: payload.len,
            tag_reqresp_code: 0,
            value: payload.buffer,
            must_be_zero: 0,
        }
    }
}

/// Takes in the answered record `msg`: on success the cells come back into
/// `payload` with the response length; on failure `payload` is left alone
/// and the error that the response code names is returned.
pub fn send_mail_reply(msg: &Msg, payload: &mut SendMailPayload) -> (r: Result<(), MboxError>)
    ensures
        match reply_of(*msg) {
            Ok((cells, len)) => r is Ok && final(payload).buffer@ == cells && final(payload).len == len,
            Err(e) => r == Err::<(), MboxError>(e) && *final(payload) == *old(payload),
        },
{
    if msg.reqresp_code == RESPONSE_OK {
        payload.len = msg.tag_reqresp_code & RESPONSE_LEN_MASK;
        payload.buffer = msg.value;
        Ok(())
    } else if msg.reqresp_code == RESPONSE_ERR {
        Err(MboxError::BadRequest)
    } else if msg.reqresp_code == REQUEST {
        Err(MboxError::NoResponse)
    } else {
        Err(MboxError::UnexpectedResponse)
    }
}

/// The mailbox data word for a request record at `addr`: the address
/// itself, where it fits in 32 bits, is 16-byte aligned (its low four bits
/// are left for the channel) and leaves the high four bits clear; else
/// `None`, and the record cannot be sent.
pub fn record_word(addr: usize) -> (r: Option<u32>)
    ensures
        r == (if addr <= 0x0FFF_FFFF && addr % 16 == 0 {
            Some(addr as u32)
        } else {
            None::<u32>
        }),
{
    if addr <= 0x0FFF_FFFF && addr % 16 == 0 {
        Some(addr as u32)
    } else {
        None
    }
}

/// What a clock-rate call yields for the outcome of its mailbox exchange
/// and the payload that came back.
pub open spec fn clock_rate_result(sent: Result<(), MboxError>, payload: SendMailPayload) -> Result<u32, MboxError> {
    match sent {
        Err(e) => Err(e),
        Ok(()) => if payload.len != CLOCK_RATE_RESP_LEN {
            Err(MboxError::UnexpectedLength)
        } else if payload.buffer@[1] == 0 {
            Err(MboxError::NoSuchClock)
        } else {
            Ok(payload.buffer@[1])
        },
    }
}

/// The call that reads the rate of clock `clock_id`: the clock id alone,
/// on the property-tag channel.
pub fn get_clock_rate(clock_id: u32) -> (r: PropertyCall)
    ensures
        r.channel == PROPERTY_TAGS_VC,
        r.tag == GET_CLOCK_RATE,
        r.payload.buffer@ == padded(seq![clock_id]),
        r.payload.len == 4,
{
    let args: [u32; 1] = [clock_id];
    let payload = SendMailPayload::new(&args);
    proof {
        assert(args@ =~= seq![clock_id]);
    }
    PropertyCall { channel: PROPERTY_TAGS_VC, tag: GET_CLOCK_RATE, payload }
}

/// The call that sets the rate of clock `clock_id` to `rate`: the clock
/// id, the rate and the skip-turbo flag (1 or 0), on the property-tag
/// channel.
pub fn set_clock_rate(clock_id: u32, rate: u32, skip_turbo: bool) -> (r: PropertyCall)
    ensures
        r.channel == PROPERTY_TAGS_VC,
        r.tag == SET_CLOCK_RATE,
        r.payload.buffer@ == padded(seq![clock_id, rate, if skip_turbo { 1u32 } else { 0u32 }]),
        r.payload.len == 12,
{
    let turbo: u32 = if skip_turbo { 1 } else { 0 };
    let args: [u32; 3] = [clock_id, rate, turbo];
    let payload = SendMailPayload::new(&args);
    proof {
        assert(args@ =~= seq![clock_id, rate, turbo]);
    }
    PropertyCall { channel: PROPERTY_TAGS_VC, tag: SET_CLOCK_RATE, payload }
}

/// The outcome of a clock-rate call (read or set), given the outcome of its
/// mailbox exchange and the payload that came back: the error of the
/// exchange; else `UnexpectedLength` unless the reply is eight bytes long;
/// else `NoSuchClock` where the rate cell is zero; else that rate.
pub fn clock_rate_reply(sent: Result<(), MboxError>, payload: &SendMailPayload) -> (r: Result<u32, MboxError>)
    ensures
        r == clock_rate_result(sent, *payload),
{
    match sent {
        Err(e) => Err(e),
        Ok(()) => {
            if payload.len != CLOCK_RATE_RESP_LEN {
                Err(MboxError::UnexpectedLength)
            } else if payload.buffer[1] == 0 {
                Err(MboxError::NoSuchClock)
            } else {
                Ok(payload.buffer[1])
            }
        },
    }
}

/// A request record at a 16-byte aligned address `addr`, sent on the
/// property-tag channel, comes back as `addr` itself when the firmware
/// echoes the word; and once the firmware has marked the record answered,
/// its reply is taken as a success that carries the record's cells.
pub proof fn lemma_mailbox_round_trip(addr: u32, msg: Msg)
    requires
        addr & 0xFu32 == 0,
        msg.reqresp_code == RESPONSE_OK,
    ensures
        read_result(PROPERTY_TAGS_VC, frame_word(PROPERTY_TAGS_VC, addr)) == Some(addr),
        reply_of(msg) == Ok::<(Seq<u32>, u32), MboxError>((msg.value@, msg.tag_reqresp_code & RESPONSE_LEN_MASK)),
{
    crate::mbox::lemma_framing(PROPERTY_TAGS_VC, addr, 0);
}

} // verus!

use lkernel::mbox::{frame, mailbox_empty, read_msg, write_msg, PROPERTY_TAGS_VC};
use lkernel::property::{
    clock_rate_reply, get_clock_rate, record_word, send_mail_reply, set_clock_rate, MboxError, Msg,
    SendMailPayload, CLOCK_UART, GET_CLOCK_RATE, MSG_LEN, SET_CLOCK_RATE,
};

fn answered(request: &Msg, code: u32, tag_code: u32, cells: &[u32]) -> Msg {
    let mut m = *request;
    m.reqresp_code = code;
    m.tag_reqresp_code = tag_code;
    for (i, c) in cells.iter().enumerate() {
        m.value[i] = *c;
    }
    m
}

#[test]
fn framing_puts_channel_in_low_nibble() {
    assert_eq!(frame(8, 0x0010_0000), 0x0010_0008);
    assert_eq!(frame(0, 0x0010_0000), 0x0010_0000);
    assert_eq!(frame(15, 0xFFFF_FFF0), 0xFFFF_FFFF);
    // the low nibble of the address and the high bits of the channel are dropped
    assert_eq!(frame(3, 0x1234_5678), 0x1234_5673);
    assert_eq!(frame(0x13, 0x1000), 0x1003);
}

#[test]
fn framing_round_trips_for_every_channel() {
    for c in 0u32..16 {
        for a in [0u32, 0x10, 0x3B40_0000, 0xFFFF_FFF0] {
            let w = frame(c, a);
            assert_eq!(w, a | c);
            assert_eq!(read_msg(c, w), Some(a));
        }
    }
}

#[test]
fn read_clears_low_nibble_of_word() {
    assert_eq!(read_msg(8, 0xDEAD_BEE8), Some(0xDEAD_BEE0));
}

#[test]
fn read_drops_word_of_other_channel() {
    assert_eq!(read_msg(8, 0x0010_0005), None);
    assert_eq!(read_msg(5, 0x0010_0005), Some(0x0010_0000));
}

#[test]
fn write_waits_while_full() {
    assert_eq!(write_msg(8, 0x1000, 0x8000_0000), None);
    assert_eq!(write_msg(8, 0x1000, 0xFFFF_FFFF), None);
    assert_eq!(write_msg(8, 0x1000, 0x4000_0000), Some(0x1008));
    assert_eq!(write_msg(8, 0x1000, 0), Some(0x1008));
}

#[test]
fn empty_status_bit() {
    assert!(mailbox_empty(0x4000_0000));
    assert!(mailbox_empty(0xC000_0000));
    assert!(!mailbox_empty(0x8000_0000));
    assert!(!mailbox_empty(0));
}

#[test]
fn mailbox_round_trip_on_property_channel() {
    let addr: u32 = 0x0008_1230;
    let word = write_msg(PROPERTY_TAGS_VC, addr, 0).unwrap();
    assert_eq!(read_msg(PROPERTY_TAGS_VC, word), Some(addr));

    let call = get_clock_rate(CLOCK_UART);
    let req = Msg::request(call.tag, &call.payload);
    let reply = answered(&req, 0x8000_0000, 0x8000_0008, &[2, 3_000_000]);
    let mut payload = call.payload;
    assert_eq!(send_mail_reply(&reply, &mut payload), Ok(()));
    assert_eq!(reply.reqresp_code, 0x8000_0000);
}

#[test]
fn payload_packs_arguments() {
    let p = SendMailPayload::new(&[7, 8, 9]);
    assert_eq!(p.len, 12);
    assert_eq!(&p.buffer[..4], &[7, 8, 9, 0]);
    assert!(p.buffer[3..].iter().all(|c| *c == 0));
    let e = SendMailPayload::new(&[]);
    assert_eq!(e.len, 0);
    assert_eq!(e.buffer, [0u32; 16]);
    let full = SendMailPayload::new(&[1u32; 16]);
    assert_eq!(full.len, 64);
    assert_eq!(full.buffer, [1u32; 16]);
}

#[test]
fn request_record_layout() {
    let call = set_clock_rate(CLOCK_UART, 460_800, false);
    let m = Msg::request(call.tag, &call.payload);
    assert_eq!(m.buffer_len, MSG_LEN);
    assert_eq!(MSG_LEN, 88);
    assert_eq!(m.reqresp_code, 0);
    assert_eq!(m.tag_id, 0x38002);
    assert_eq!(m.request_value_len, 12);
    assert_eq!(m.tag_reqresp_code, 0);
    assert_eq!(&m.value[..4], &[2, 460_800, 0, 0]);
    assert_eq!(m.must_be_zero, 0);
}

#[test]
fn get_clock_rate_uart() {
    let call = get_clock_rate(0x2);
    assert_eq!(call.channel, 8);
    assert_eq!(call.tag, GET_CLOCK_RATE);
    assert_eq!(call.tag, 0x30002);
    assert_eq!(call.payload.len, 4);
    assert_eq!(&call.payload.buffer[..2], &[0x2, 0]);

    let req = Msg::request(call.tag, &call.payload);
    let reply = answered(&req, 0x8000_0000, 0x8000_0008, &[0x2, 48_000_000]);
    let mut payload = call.payload;
    let sent = send_mail_reply(&reply, &mut payload);
    assert_eq!(sent, Ok(()));
    assert_eq!(payload.len, 8);
    assert_eq!(clock_rate_reply(sent, &payload), Ok(48_000_000));
}

#[test]
fn set_clock_rate_uart_to_460800() {
    let call = set_clock_rate(0x2, 460_800, false);
    assert_eq!(call.channel, 8);
    assert_eq!(call.tag, SET_CLOCK_RATE);
    assert_eq!(call.payload.len, 12);
    assert_eq!(&call.payload.buffer[..3], &[0x2, 460_800, 0]);

    let req = Msg::request(call.tag, &call.payload);
    let reply = answered(&req, 0x8000_0000, 0x8000_0008, &[0x2, 460_800]);
    let mut payload = call.payload;
    let sent = send_mail_reply(&reply, &mut payload);
    assert_eq!(clock_rate_reply(sent, &payload), Ok(460_800));

    // the read that follows, answered with the rate now set
    let get = get_clock_rate(0x2);
    let req = Msg::request(get.tag, &get.payload);
    let reply = answered(&req, 0x8000_0000, 0x8000_0008, &[0x2, 460_800]);
    let mut payload = get.payload;
    let sent = send_mail_reply(&reply, &mut payload);
    assert_eq!(clock_rate_reply(sent, &payload), Ok(460_800));
}

#[test]
fn set_clock_rate_skip_turbo_flag() {
    let call = set_clock_rate(0x4, 1_200_000_000, true);
    assert_eq!(&call.payload.buffer[..3], &[0x4, 1_200_000_000, 1]);
}

#[test]
fn reply_errors_leave_payload_alone() {
    let call = get_clock_rate(0x2);
    let req = Msg::request(call.tag, &call.payload);
    for (code, err) in [
        (0x8000_0001u32, MboxError::BadRequest),
        (0x0, MboxError::NoResponse),
        (0x1234, MboxError::UnexpectedResponse),
        (0x8000_0002, MboxError::UnexpectedResponse),
    ] {
        let reply = answered(&req, code, 0x8000_0008, &[9, 9, 9]);
        let mut payload = call.payload;
        let sent = send_mail_reply(&reply, &mut payload);
        assert_eq!(sent, Err(err));
        assert_eq!(payload.buffer, call.payload.buffer);
        assert_eq!(payload.len, 4);
        assert_eq!(clock_rate_reply(sent, &payload), Err(err));
    }
}

#[test]
fn response_length_is_masked() {
    let call = get_clock_rate(0x2);
    let req = Msg::request(call.tag, &call.payload);
    let reply = answered(&req, 0x8000_0000, 0x0000_0008, &[2, 5]);
    let mut payload = call.payload;
    let sent = send_mail_reply(&reply, &mut payload);
    assert_eq!(payload.len, 8);
    assert_eq!(clock_rate_reply(sent, &payload), Ok(5));
}

#[test]
fn clock_rate_unexpected_length() {
    let call = get_clock_rate(0x2);
    let req = Msg::request(call.tag, &call.payload);
    let reply = answered(&req, 0x8000_0000, 0x8000_0004, &[2, 5]);
    let mut payload = call.payload;
    let sent = send_mail_reply(&reply, &mut payload);
    assert_eq!(sent, Ok(()));
    assert_eq!(clock_rate_reply(sent, &payload), Err(MboxError::UnexpectedLength));
}

#[test]
fn clock_rate_no_such_clock() {
    let call = get_clock_rate(0x99);
    let req = Msg::request(call.tag, &call.payload);
    let reply = answered(&req, 0x8000_0000, 0x8000_0008, &[0x99, 0]);
    let mut payload = call.payload;
    let sent = send_mail_reply(&reply, &mut payload);
    assert_eq!(clock_rate_reply(sent, &payload), Err(MboxError::NoSuchClock));
}

#[test]
fn record_word_needs_aligned_low_address() {
    assert_eq!(record_word(0x0008_1230), Some(0x0008_1230));
    assert_eq!(record_word(0), Some(0));
    assert_eq!(record_word(0x0FFF_FFF0), Some(0x0FFF_FFF0));
    assert_eq!(record_word(0x0008_1238), None);
    assert_eq!(record_word(0x1000_0000), None);
}

use yprox::session::{
    backend_read, backend_send, client_read, client_write, Message, Next, Read, CHANNEL_CAPACITY,
    LABEL_WIDTH,
};
use yprox::target::LinkNext;
use yprox::utils::{hex_dump, hex_lines, HEX_WIDTH, WIDTH};

#[test]
fn a_short_payload_is_one_padded_line() {
    let lines = hex_dump(&[0x48, 0x65, 0x6C, 0x6C, 0x6F], "OUTGOING");
    assert_eq!(
        lines,
        vec![format!("OUTGOING: {:47}  |Hello|", "48 65 6C 6C 6F")]
    );
    assert_eq!(lines[0].len(), "OUTGOING: ".len() + 47 + "  |Hello|".len());
}

#[test]
fn no_bytes_give_no_lines() {
    assert!(hex_dump(&[], "x").is_empty());
}

#[test]
fn sixteen_bytes_fill_a_line() {
    let data: Vec<u8> = (0..16).collect();
    let lines = hex_dump(&data, "d");
    assert_eq!(
        lines,
        vec!["d: 00 01 02 03 04 05 06 07 08 09 0A 0B 0C 0D 0E 0F  |................|".to_string()]
    );
    assert_eq!(WIDTH, 16);
    assert_eq!(HEX_WIDTH, 47);
}

#[test]
fn seventeen_bytes_take_two_lines() {
    let data: Vec<u8> = (0x30..0x41).collect();
    let lines = hex_dump(&data, "");
    assert_eq!(lines.len(), 2);
    assert_eq!(
        lines[0],
        ": 30 31 32 33 34 35 36 37 38 39 3A 3B 3C 3D 3E 3F  |0123456789:;<=>?|"
    );
    assert_eq!(lines[1], format!(": {:47}  |@|", "40"));
}

#[test]
fn bytes_that_do_not_print_are_dots() {
    let lines = hex_dump(&[0x1f, 0x20, 0x7e, 0x7f, 0xff, 0x00], "b");
    assert_eq!(lines, vec![format!("b: {:47}  |. ~...|", "1F 20 7E 7F FF 00")]);
}

#[test]
fn the_dump_agrees_with_a_plain_rendering() {
    let data: Vec<u8> = (0..=255).collect();
    let expected: Vec<String> = data
        .chunks(16)
        .map(|chunk| {
            let hex: Vec<String> = chunk.iter().map(|b| format!("{:02X}", b)).collect();
            let ascii: String = chunk
                .iter()
                .map(|&b| if (0x20..=0x7e).contains(&b) { b as char } else { '.' })
                .collect();
            format!("{}: {:47}  |{}|", "127.0.0.1:1 -> A", hex.join(" "), ascii)
        })
        .collect();
    assert_eq!(hex_dump(&data, "127.0.0.1:1 -> A"), expected);
}

#[test]
fn the_session_dump_pads_its_label() {
    let lines = yprox::session::hex_dump(b"Hi", "A -|");
    assert_eq!(lines, vec![format!("{:35}: {:47}  |Hi|", "A -|", "48 69")]);
    assert_eq!(LABEL_WIDTH, 35);
    let long = "a label that is longer than thirty-five characters";
    assert_eq!(
        yprox::session::hex_dump(b"Hi", long),
        vec![format!("{}: {:47}  |Hi|", long, "48 69")]
    );
    assert_eq!(hex_lines(b"Hi", "é", 3), vec![format!("é  : {:47}  |Hi|", "48 69")]);
}

fn data_of(message: Option<Message>) -> Option<Vec<u8>> {
    match message {
        Some(Message::Data(bytes)) => Some(bytes),
        _ => None,
    }
}

#[test]
fn the_client_reader_passes_bytes_on_and_stops_at_the_end() {
    let step = client_read(Read::Bytes(b"abc".to_vec()));
    assert_eq!(step.next, Next::Continue);
    assert_eq!(data_of(step.send), Some(b"abc".to_vec()));
    let step = client_read(Read::Bytes(vec![]));
    assert_eq!(step.next, Next::Stop);
    assert!(matches!(step.send, Some(Message::Disconnect)));
    let step = client_read(Read::Failed);
    assert_eq!(step.next, Next::Stop);
    assert!(step.send.is_none());
}

#[test]
fn only_the_selected_backend_is_passed_on() {
    let a = "A".to_string();
    let b = "B".to_string();
    let step = backend_read(&b, &b, Read::Bytes(b"fromB".to_vec()));
    assert_eq!(step.next, LinkNext::Read);
    assert_eq!(data_of(step.send), Some(b"fromB".to_vec()));
    let step = backend_read(&a, &b, Read::Bytes(b"fromA".to_vec()));
    assert_eq!(step.next, LinkNext::Read);
    assert!(step.send.is_none());
}

#[test]
fn the_end_of_a_backend_stream_disconnects_only_its_link() {
    let a = "A".to_string();
    let b = "B".to_string();
    for name in [&a, &b] {
        let step = backend_read(name, &b, Read::Bytes(vec![]));
        assert_eq!(step.next, LinkNext::Retry { after_secs: 1 });
        assert!(step.send.is_none());
        let step = backend_read(name, &b, Read::Failed);
        assert_eq!(step.next, LinkNext::Retry { after_secs: 1 });
        assert!(step.send.is_none());
    }
}

#[test]
fn channels_hold_thirty_two_messages() {
    assert_eq!(CHANNEL_CAPACITY, 32);
}

#[test]
fn the_sender_writes_data_and_stops_on_a_disconnect() {
    let step = backend_send(Some(Message::Data(b"x".to_vec())));
    assert_eq!(step.write, Some(b"x".to_vec()));
    assert!(!step.client_gone);
    assert_eq!(step.next, Next::Continue);
    let step = backend_send(Some(Message::Disconnect));
    assert_eq!(step.write, None);
    assert!(step.client_gone);
    assert_eq!(step.next, Next::Stop);
    let step = backend_send(None);
    assert_eq!(step.write, None);
    assert!(!step.client_gone);
    assert_eq!(step.next, Next::Stop);
}

#[test]
fn the_writer_writes_data_and_stops_otherwise() {
    let step = client_write(Some(Message::Data(b"x".to_vec()).clone()));
    assert_eq!(step.write, Some(b"x".to_vec()));
    assert_eq!(step.next, Next::Continue);
    let step = client_write(Some(Message::Disconnect));
    assert_eq!(step.write, None);
    assert_eq!(step.next, Next::Stop);
    let step = client_write(None);
    assert_eq!(step.write, None);
    assert_eq!(step.next, Next::Stop);
}

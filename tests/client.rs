use alpr_client::{
    describe, hex, parse_plate_line, record_event, trim, verify_handshake, white_space, CarRow,
    Frame, Input, Outcome, Phase, Reaction, Sequencer, WebSocketState, WebSocketStates, Worker,
    CONNECT_BACKOFF_SECS, STREAM_BACKOFF_SECS,
};
use egui_extras::RetainedImage;

const ID_TEXT: &str = "3fa85f64-5717-4562-b3fc-2c963f66afa6";
const ID_VALUE: u128 = 0x3fa85f64_5717_4562_b3fc_2c963f66afa6;

fn png(width: u32, height: u32) -> Vec<u8> {
    let img = image::RgbaImage::new(width, height);
    let mut bytes: Vec<u8> = Vec::new();
    image::DynamicImage::ImageRgba8(img)
        .write_to(&mut std::io::Cursor::new(&mut bytes), image::ImageOutputFormat::Png)
        .unwrap();
    bytes
}

fn text(s: &str) -> Result<Frame, String> {
    Ok(Frame::Text(s.to_string()))
}

fn binary(b: Vec<u8>) -> Result<Frame, String> {
    Ok(Frame::Binary(b))
}

fn closed_text(status: &Option<WebSocketStates>) -> String {
    match status {
        Some(WebSocketStates::Closed(s)) => s.clone(),
        other => panic!("expected a closed status, got {:?}", other),
    }
}

fn is_quiet(r: &Reaction) -> bool {
    r.publish.is_none() && r.insert.is_none() && !r.close && r.wait_secs == 0 && r.publish_after_wait.is_none()
}

fn streaming_worker() -> Worker {
    let mut w = Worker::new();
    assert!(is_quiet(&w.step(Input::Opened)));
    let r = w.step(Input::Received(text("echo")));
    assert!(matches!(r.publish, Some(WebSocketStates::Connected)));
    assert_eq!(w.phase, Phase::Streaming);
    w
}

#[test]
fn handshake_accepts_echo() {
    assert!(verify_handshake(&text("echo")).is_ok());
}

#[test]
fn handshake_rejects_other_text_with_its_content() {
    let reason = verify_handshake(&text("hello")).unwrap_err();
    assert_eq!(
        reason,
        "First message received was supposed to be echo, but got \"text: hello\" instead. Retrying in 5 seconds..."
    );
    assert!(verify_handshake(&text("echo ")).is_err());
    assert!(verify_handshake(&text("ECHO")).is_err());
}

#[test]
fn handshake_rejects_binary_frame() {
    let reason = verify_handshake(&binary(vec![0x0a, 0xff])).unwrap_err();
    assert!(reason.contains("\"binary: 0aff\""));
    let reason = verify_handshake(&binary(b"echo".to_vec())).unwrap_err();
    assert!(reason.contains("binary: 6563686f"));
}

#[test]
fn handshake_rejects_receive_error() {
    let reason = verify_handshake(&Err("connection reset".to_string())).unwrap_err();
    assert!(reason.contains("\"receive error: connection reset\""));
    let reason = verify_handshake(&Ok(Frame::Close)).unwrap_err();
    assert!(reason.contains("\"close frame\""));
}

#[test]
fn full_event_round_trip() {
    let mut s = Sequencer::new();
    assert!(matches!(s.feed(binary(png(4, 3))), Outcome::Pending));
    assert!(matches!(s.feed(binary(png(2, 1))), Outcome::Pending));
    match s.feed(text(&format!("ABC123 => {}", ID_TEXT))) {
        Outcome::Decoded(row) => {
            assert_eq!(row.license_plate_as_string, "ABC123");
            assert_eq!(row.uuid, ID_VALUE);
            assert_eq!(row.car_image.size(), [4, 3]);
            assert_eq!(row.license_plate_image.size(), [2, 1]);
        }
        _ => panic!("expected an event"),
    }
    assert!(matches!(s, Sequencer::AwaitVehicle));
}

#[test]
fn leading_frame_leniency() {
    let mut s = Sequencer::new();
    let mut events = 0;
    assert!(matches!(s.feed(text("unexpected")), Outcome::Skipped));
    let frames = vec![
        binary(png(1, 1)),
        binary(png(1, 1)),
        text(&format!("ABC123 => {}", ID_TEXT)),
    ];
    for f in frames {
        match s.feed(f) {
            Outcome::Decoded(_) => events += 1,
            Outcome::Fatal(e) => panic!("unexpected error {}", e),
            _ => {}
        }
    }
    assert_eq!(events, 1);
}

#[test]
fn trailing_malformation_leniency() {
    let mut w = streaming_worker();
    assert!(is_quiet(&w.step(Input::Received(binary(png(1, 1))))));
    assert!(is_quiet(&w.step(Input::Received(binary(png(1, 1))))));
    assert!(is_quiet(&w.step(Input::Received(text("no-separator-here")))));
    assert_eq!(w.phase, Phase::Streaming);
    assert!(matches!(w.sequencer, Sequencer::AwaitVehicle));
}

#[test]
fn image_corruption_is_fatal_to_connection() {
    let mut w = streaming_worker();
    let r = w.step(Input::Received(binary(b"not an image".to_vec())));
    assert_eq!(
        closed_text(&r.publish),
        "Error while receiving car: Unable to parse car image from binary representation.. Refreshing connection in 1 second..."
    );
    assert!(r.close);
    assert!(r.insert.is_none());
    assert_eq!(r.wait_secs, 1);
    assert!(matches!(r.publish_after_wait, Some(WebSocketStates::Reconnecting)));
    assert_eq!(w.phase, Phase::Connecting);
}

#[test]
fn corrupt_plate_image_is_fatal_too() {
    let mut w = streaming_worker();
    assert!(is_quiet(&w.step(Input::Received(binary(png(1, 1))))));
    let r = w.step(Input::Received(binary(vec![1, 2, 3])));
    assert_eq!(
        closed_text(&r.publish),
        "Error while receiving car: Unable to parse license plate image from binary representation.. Refreshing connection in 1 second..."
    );
    assert_eq!(w.phase, Phase::Connecting);
    assert!(matches!(w.sequencer, Sequencer::AwaitVehicle));
}

#[test]
fn reconnect_backoff_timing() {
    assert_eq!(CONNECT_BACKOFF_SECS, 5);
    assert_eq!(STREAM_BACKOFF_SECS, 1);
    let mut w = Worker::new();
    let r = w.step(Input::ConnectFailed);
    assert_eq!(closed_text(&r.publish), "Unable to connect to websocket. Retrying in 5 seconds");
    assert_eq!(r.wait_secs, 5);
    assert!(!r.close);
    assert!(matches!(r.publish_after_wait, Some(WebSocketStates::Reconnecting)));
    assert_eq!(w.phase, Phase::Connecting);

    w.step(Input::Opened);
    assert_eq!(w.phase, Phase::Handshaking);
    let r = w.step(Input::Received(text("hello")));
    assert_eq!(r.wait_secs, 5);
    assert!(r.close);
    assert_eq!(w.phase, Phase::Connecting);

    let mut w = streaming_worker();
    let r = w.step(Input::Received(Err("broken pipe".to_string())));
    assert_eq!(
        closed_text(&r.publish),
        "Error while receiving car: broken pipe. Refreshing connection in 1 second..."
    );
    assert_eq!(r.wait_secs, 1);
    assert!(r.close);
    assert_eq!(w.phase, Phase::Connecting);
}

#[test]
fn inputs_out_of_phase_change_nothing() {
    let mut w = Worker::new();
    assert!(is_quiet(&w.step(Input::Received(text("echo")))));
    assert_eq!(w.phase, Phase::Connecting);
    let mut w = streaming_worker();
    assert!(is_quiet(&w.step(Input::ConnectFailed)));
    assert!(is_quiet(&w.step(Input::Opened)));
    assert_eq!(w.phase, Phase::Streaming);
}

#[test]
fn ordering_is_newest_first() {
    let mut w = streaming_worker();
    let mut rows: Vec<CarRow> = Vec::new();
    for n in 1..=3u32 {
        w.step(Input::Received(binary(png(n, 1))));
        w.step(Input::Received(binary(png(1, 1))));
        let line = format!("ZG{} => 00000000-0000-0000-0000-00000000000{}", n, n);
        let r = w.step(Input::Received(text(&line)));
        record_event(&mut rows, r.insert.expect("an event"));
    }
    let order: Vec<u128> = rows.iter().map(|r| r.uuid).collect();
    assert_eq!(order, vec![3, 2, 1]);
    let plates: Vec<&str> = rows.iter().map(|r| r.license_plate_as_string.as_str()).collect();
    assert_eq!(plates, vec!["ZG3", "ZG2", "ZG1"]);
    assert_eq!(rows[0].car_image.size(), [3, 1]);
}

#[test]
fn invalid_identifier_never_produces_event() {
    for plate in ["", "ABC123", "X", "  ", "=>"] {
        let line = format!("{} => not-a-uuid", plate);
        assert!(parse_plate_line(&line).is_none());
        let mut s = Sequencer::new();
        s.feed(binary(png(1, 1)));
        s.feed(binary(png(1, 1)));
        assert!(matches!(s.feed(text(&line)), Outcome::Skipped));
    }
}

#[test]
fn plate_line_forms() {
    let (plate, id) = parse_plate_line(&format!("  ABC123\t=>  {}  ", ID_TEXT)).unwrap();
    assert_eq!(plate, "ABC123");
    assert_eq!(id, ID_VALUE);
    let (plate, id) = parse_plate_line(&format!("ZG 1234-AB=>{} => trailing", ID_TEXT)).unwrap();
    assert_eq!(plate, "ZG 1234-AB");
    assert_eq!(id, ID_VALUE);
    let (plate, id) = parse_plate_line("=> 3fa85f6457174562b3fc2c963f66afa6").unwrap();
    assert_eq!(plate, "");
    assert_eq!(id, ID_VALUE);
    assert!(parse_plate_line("no-separator-here").is_none());
    assert!(parse_plate_line("ABC =>").is_none());
    assert!(parse_plate_line("").is_none());
    assert!(parse_plate_line("ABC => => 3fa85f64-5717-4562-b3fc-2c963f66afa6").is_none());
}

#[test]
fn trim_removes_unicode_white_space() {
    assert_eq!(trim("  a b \t\n"), "a b");
    assert_eq!(trim("\u{3000}x\u{a0}"), "x");
    assert_eq!(trim(" \r\n "), "");
    assert_eq!(trim(""), "");
    assert_eq!(trim("_x_"), "_x_");
    assert!(white_space('\u{2009}'));
    assert!(!white_space('\u{200b}'));
    assert!(!white_space('a'));
}

#[test]
fn hex_and_describe() {
    assert_eq!(hex(&vec![]), "");
    assert_eq!(hex(&vec![0x00, 0x10, 0xab]), "0010ab");
    assert_eq!(describe(&Ok(Frame::Ping)), "ping frame");
    assert_eq!(describe(&Ok(Frame::Pong)), "pong frame");
    assert_eq!(describe(&text("x")), "text: x");
}

#[test]
fn default_status_is_reconnecting() {
    assert!(matches!(WebSocketState::default().value, WebSocketStates::Reconnecting));
}

#[test]
fn car_row_new_keeps_parts_and_stamps_time() {
    let car = RetainedImage::from_image_bytes("c", &png(5, 5)).unwrap();
    let plate = RetainedImage::from_image_bytes("p", &png(6, 2)).unwrap();
    let row = CarRow::new(7, car, plate, "AB1".to_string());
    assert_eq!(row.uuid, 7);
    assert_eq!(row.car_image.size(), [5, 5]);
    assert_eq!(row.license_plate_image.size(), [6, 2]);
    assert_eq!(row.license_plate_as_string, "AB1");
    assert_eq!(row.received_at_formatted.len(), 19);
    assert_eq!(&row.received_at_formatted[2..3], ".");
}

#[test]
fn identifier_layouts() {
    let forms = [
        "{3fa85f64-5717-4562-b3fc-2c963f66afa6}",
        "URN:uuid:3fa85f64-5717-4562-b3fc-2c963f66afa6",
        "3FA85F64-5717-4562-B3FC-2C963F66AFA6",
    ];
    for f in forms {
        let (plate, id) = parse_plate_line(&format!("A1 => {}", f)).unwrap();
        assert_eq!(plate, "A1");
        assert_eq!(id, ID_VALUE);
    }
    assert!(parse_plate_line("A1 => 3fa85f64_5717-4562-b3fc-2c963f66afa6").is_none());
    assert!(parse_plate_line("A1 => 3fa85f64-5717-4562-b3fc-2c963f66afag").is_none());
    assert!(parse_plate_line("A1 => urx:uuid:3fa85f64-5717-4562-b3fc-2c963f66afa6").is_none());
    assert!(parse_plate_line("A1 => 3fa85f64-5717-4562-b3fc-2c963f66afa").is_none());
}

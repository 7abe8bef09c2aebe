use modbus485::crc::compute_crc;
use modbus485::gui::{Baud, Entry, Gui, GuiError, Message, HISTORY_LIMIT};
use modbus485::serial_interface::{Mode, SerialMessage, Status};
use modbus485::settings::BaudRate;

fn panel() -> Gui {
    Gui::new()
}

#[test]
fn new_panel_and_init() {
    let g = panel();
    assert!(g.checksum);
    assert!(g.modbus_display);
    assert!(!g.daemon_connected);
    assert_eq!(g.request, "");
    assert_eq!(g.baud_rates, vec![Baud::Bauds9600, Baud::Bauds19200, Baud::Bauds38400, Baud::Bauds115200]);
    let mut out = Vec::new();
    g.init(&mut out);
    assert!(matches!(
        out.as_slice(),
        [SerialMessage::ListPorts, SerialMessage::GetStatus, SerialMessage::GetConnectionStatus]
    ));
}

#[test]
fn baud_labels_and_rates() {
    assert_eq!(Baud::Bauds9600.to_string(), "9600");
    assert_eq!(Baud::Bauds19200.to_string(), "19200");
    assert_eq!(Baud::Bauds38400.to_string(), "38400");
    assert_eq!(Baud::Bauds115200.to_string(), "115200");
    assert_eq!(BaudRate::from(Baud::Bauds38400), BaudRate::Baud38400);
    let r: BaudRate = Baud::Bauds115200.into();
    assert_eq!(r, BaudRate::Baud115200);
    assert_eq!(GuiError::WrongRequestData.to_string(), "");
}

#[test]
fn typing_keeps_hex_pairs() {
    let mut g = panel();
    g.process_input("01 03 00".to_string());
    assert_eq!(g.request, "010300");
    // A dangling hex digit is kept.
    g.process_input("0103a".to_string());
    assert_eq!(g.request, "0103a");
    // A dangling non-hex character is dropped.
    g.process_input("0103z".to_string());
    assert_eq!(g.request, "0103");
    // Anything that is not hex leaves the request as it was.
    g.process_input("01zz".to_string());
    assert_eq!(g.request, "0103");
    g.process_input(String::new());
    assert_eq!(g.request, "");
    // Non-ASCII characters are not hex.
    g.process_input("é0".to_string());
    assert_eq!(g.request, "");
    g.process_input("éé".to_string());
    assert_eq!(g.request, "");
}

#[test]
fn history_keeps_the_latest_frames() {
    let mut g = panel();
    for i in 0..(HISTORY_LIMIT + 5) {
        g.add_history(Entry::Receive(Some(vec![i as u8, 0, 0])));
    }
    assert_eq!(g.history.len(), HISTORY_LIMIT);
    match &g.history[0] {
        Entry::Receive(Some(d)) => assert_eq!(d[0], 5),
        _ => panic!("unexpected entry"),
    }
    match &g.history[HISTORY_LIMIT - 1] {
        Entry::Receive(Some(d)) => assert_eq!(d[0], (HISTORY_LIMIT + 4) as u8),
        _ => panic!("unexpected entry"),
    }
    g.clear_history();
    assert!(g.history.is_empty());
}

#[test]
fn send_request_adds_checksum() {
    let mut g = panel();
    g.process_input("010300000001".to_string());
    let mut out = Vec::new();
    assert!(g.send_request(&mut out).is_ok());
    match out.as_slice() {
        [SerialMessage::Send(f)] => assert_eq!(f, &vec![0x01, 0x03, 0x00, 0x00, 0x00, 0x01, 0x84, 0x0A]),
        _ => panic!("nothing sent"),
    }
    g.set_checksum(false);
    let mut out = Vec::new();
    assert!(g.send_request(&mut out).is_ok());
    match out.as_slice() {
        [SerialMessage::Send(f)] => assert_eq!(f, &vec![0x01, 0x03, 0x00, 0x00, 0x00, 0x01]),
        _ => panic!("nothing sent"),
    }
    g.process_input("010".to_string());
    let mut out = Vec::new();
    assert_eq!(g.send_request(&mut out), Err(GuiError::WrongRequestData));
    assert!(out.is_empty());
}

#[test]
fn data_to_str_lines() {
    let mut g = panel();
    let frame = vec![0x01, 0x03, 0x00, 0x00, 0x00, 0x01, 0x84, 0x0A];
    assert_eq!(
        g.data_to_str(Some(frame.clone()), "Sent:".to_string()),
        "Sent: Id:1, ReadHoldingRegisters(0, 1)"
    );
    g.set_modbus_display(false);
    assert_eq!(g.data_to_str(Some(frame), "Sent:".to_string()), "Sent: 01 03 00 00 00 01 84 0a");
    g.set_modbus_display(true);
    assert_eq!(g.data_to_str(Some(vec![0x07, 0x01, 0xab, 0xcd]), "Rx".to_string()), "Rx 07 01 ab cd");
    assert_eq!(g.data_to_str(None, "Rx".to_string()), "Error");
}

#[test]
fn update_sends_and_records() {
    let mut g = panel();
    let mut out = Vec::new();
    assert!(g.update(Message::PortSelected("/dev/x".to_string()), &mut out).is_none());
    assert!(g.update(Message::BaudSelected(Baud::Bauds9600), &mut out).is_none());
    assert!(g.update(Message::ConnectClicked, &mut out).is_none());
    assert!(g.update(Message::ListPort, &mut out).is_none());
    assert!(matches!(
        out.as_slice(),
        [
            SerialMessage::SetPort(_),
            SerialMessage::SetBauds(BaudRate::Baud9600),
            SerialMessage::Connect,
            SerialMessage::ListPorts
        ]
    ));
    assert_eq!(g.port_selected.as_deref(), Some("/dev/x"));
    assert_eq!(g.baud_selected, Some(Baud::Bauds9600));

    // Sending is ignored while disconnected.
    let mut out = Vec::new();
    g.update(Message::RequestInput("0106".to_string()), &mut out);
    assert!(g.update(Message::SendClicked, &mut out).is_none());
    assert!(out.is_empty());

    // Connected: the daemon is asked to sniff, and sends go out.
    g.update(Message::SerialReceive(SerialMessage::Connected(true)), &mut out);
    assert!(g.daemon_connected);
    assert!(matches!(out.as_slice(), [SerialMessage::SetMode(Mode::Sniff)]));
    let mut out = Vec::new();
    assert!(g.update(Message::SendClicked, &mut out).is_none());
    assert!(matches!(out.as_slice(), [SerialMessage::Send(_)]));

    // A bad request asks for an error message.
    g.update(Message::RequestInput("010".to_string()), &mut out);
    let mut out = Vec::new();
    assert!(matches!(
        g.update(Message::SendClicked, &mut out),
        Some(Message::GuiError(GuiError::WrongRequestData))
    ));
    assert!(out.is_empty());
    assert!(g.update(Message::GuiError(GuiError::WrongRequestData), &mut out).is_none());

    // Disconnecting stops the daemon first.
    let mut out = Vec::new();
    g.update(Message::ConnectClicked, &mut out);
    assert!(matches!(out.as_slice(), [SerialMessage::SetMode(Mode::Stop), SerialMessage::Disconnect]));
}

#[test]
fn daemon_messages() {
    let mut g = panel();
    let mut out = Vec::new();
    g.update(Message::PortSelected("/dev/y".to_string()), &mut out);
    let mut out = Vec::new();
    g.update(Message::SerialReceive(SerialMessage::AvailablePorts(vec![])), &mut out);
    assert_eq!(g.port_selected, None);
    assert_eq!(g.ports, Some(vec![]));
    g.update(Message::SerialReceive(SerialMessage::AvailablePorts(vec!["a".to_string()])), &mut out);
    assert_eq!(g.ports, Some(vec!["a".to_string()]));
    g.update(Message::SerialReceive(SerialMessage::Status(Status::Read)), &mut out);
    assert_eq!(g.daemon_status, Some(Status::Read));
    g.update(Message::SerialReceive(SerialMessage::Mode(Mode::Master)), &mut out);
    assert_eq!(g.daemon_mode, Some(Mode::Master));
    g.update(Message::SerialReceive(SerialMessage::DataSent(vec![1, 2, 3])), &mut out);
    g.update(Message::SerialReceive(SerialMessage::Receive(vec![4, 5, 6])), &mut out);
    assert!(matches!(g.history.as_slice(), [Entry::Send(Some(_)), Entry::Receive(Some(_))]));
    assert!(matches!(g.last_message, Some(SerialMessage::Receive(_))));

    // The daemon's echo of the request clears the field; another frame does not.
    g.update(Message::RequestInput("0a0b".to_string()), &mut out);
    g.update(Message::SerialReceive(SerialMessage::Send(vec![0x0a])), &mut out);
    assert_eq!(g.request, "0a0b");
    g.update(Message::SerialReceive(SerialMessage::Send(vec![0x0a, 0x0b])), &mut out);
    assert_eq!(g.request, "");
    assert!(out.is_empty());

    g.update(Message::ModbusDisplayChecked(false), &mut out);
    assert!(!g.modbus_display);
    g.update(Message::ClearHistory, &mut out);
    assert!(g.history.is_empty());
    g.update(Message::SerialSend(SerialMessage::Ping), &mut out);
    assert!(matches!(out.as_slice(), [SerialMessage::Ping]));
}

#[test]
fn view_of_the_panel() {
    let mut g = panel();
    let p = g.view();
    assert_eq!(p.connect_label, "Connect");
    assert!(p.connect_action.is_none());
    assert!(p.send_action.is_none());
    assert_eq!(p.display_label, "Modbus");
    let mut out = Vec::new();
    g.update(Message::PortSelected("/dev/x".to_string()), &mut out);
    g.update(Message::BaudSelected(Baud::Bauds19200), &mut out);
    g.update(Message::SerialReceive(SerialMessage::Connected(true)), &mut out);
    g.add_history(Entry::Send(Some(vec![0x01, 0x03, 0x00, 0x00, 0x00, 0x01, 0x84, 0x0A])));
    g.add_history(Entry::Receive(None));
    g.set_modbus_display(false);
    let p = g.view();
    assert_eq!(p.connect_label, "Disconnect");
    assert!(matches!(p.connect_action, Some(Message::ConnectClicked)));
    assert!(matches!(p.send_action, Some(Message::SendClicked)));
    assert_eq!(p.display_label, "Hex");
    assert_eq!(p.history.len(), 2);
    assert!(p.history[0].sent);
    assert_eq!(p.history[0].text, "Sent:   01 03 00 00 00 01 84 0a");
    match &p.history[0].on_press {
        Some(Message::SerialSend(SerialMessage::Send(d))) => assert_eq!(d.len(), 8),
        _ => panic!("a sent frame can be sent again"),
    }
    assert!(!p.history[1].sent);
    assert_eq!(p.history[1].text, "Error");
    assert!(p.history[1].on_press.is_none());
}

#[test]
fn sent_request_passes_the_checksum_test() {
    let mut g = panel();
    let mut out = Vec::new();
    g.update(Message::SerialReceive(SerialMessage::Connected(true)), &mut out);
    g.update(Message::RequestInput("11 06 00 01 00 03".to_string()), &mut out);
    let mut out = Vec::new();
    g.update(Message::SendClicked, &mut out);
    match out.as_slice() {
        [SerialMessage::Send(frame)] => {
            assert_eq!(frame, &vec![0x11, 0x06, 0x00, 0x01, 0x00, 0x03, 0x9A, 0x9B]);
            assert_eq!(compute_crc(frame), [0, 0]);
        }
        _ => panic!("nothing sent"),
    }
}

#[test]
fn panel_errors_are_recorded() {
    let mut g = panel();
    let mut out = Vec::new();
    assert!(g.internal_error.is_none());
    assert!(g.update(Message::GuiError(GuiError::WrongRequestData), &mut out).is_none());
    assert_eq!(g.internal_error, Some(GuiError::WrongRequestData));
    assert!(out.is_empty());
}

#[test]
fn short_and_long_frames_are_shown_in_hex() {
    let g = panel();
    assert_eq!(g.data_to_str(Some(vec![0x01, 0x03]), "Sent:".to_string()), "Sent: 01 03");
    assert_eq!(g.data_to_str(Some(vec![]), "Sent:".to_string()), "Sent: ");
    let long = vec![0xABu8; 257];
    let text = g.data_to_str(Some(long), "Rx".to_string());
    assert!(text.starts_with("Rx ab ab"));
    let mut g = panel();
    g.add_history(Entry::Receive(Some(vec![0x07])));
    g.add_history(Entry::Send(Some(vec![0x01, 0x03])));
    let p = g.view();
    assert_eq!(p.history[0].text, "Received:   07");
    assert_eq!(p.history[1].text, "Sent:   01 03");
    assert!(matches!(&p.history[1].on_press, Some(Message::SerialSend(SerialMessage::Send(d))) if d == &vec![0x01, 0x03]));
}

#[test]
fn dangling_byte_inside_a_character_is_not_hex() {
    let mut g = panel();
    g.process_input("0103".to_string());
    // "ab€" is 5 bytes: its dangling byte falls inside the euro sign.
    g.process_input("ab€".to_string());
    assert_eq!(g.request, "0103");
    g.process_input("aé".to_string());
    assert_eq!(g.request, "0103");
}

#[test]
fn view_shows_pickers_header_and_message_bar() {
    let mut g = panel();
    let p = g.view();
    assert!(p.ports.is_empty());
    assert!(p.port_selected.is_none());
    assert_eq!(p.baud_rates.len(), g.baud_rates.len());
    assert!(p.baud_rates.iter().zip(g.baud_rates.iter()).all(|(a, b)| a == b));
    assert!(p.baud_selected.is_none());
    assert_eq!(p.history_title, "History");
    assert_eq!(p.clear_label, "Clear");
    assert!(matches!(p.clear_action, Message::ClearHistory));
    assert!(p.last_message.is_none());
    assert!(p.internal_error.is_none());

    let mut out = Vec::new();
    let ports = vec!["/dev/ttyUSB0".to_string(), "/dev/ttyUSB1".to_string()];
    g.update(Message::SerialReceive(SerialMessage::AvailablePorts(ports.clone())), &mut out);
    g.update(Message::PortSelected("/dev/ttyUSB1".to_string()), &mut out);
    g.update(Message::BaudSelected(Baud::Bauds9600), &mut out);
    g.update(Message::GuiError(GuiError::WrongRequestData), &mut out);
    let p = g.view();
    assert_eq!(p.ports, ports);
    assert_eq!(p.port_selected.as_deref(), Some("/dev/ttyUSB1"));
    assert_eq!(p.baud_selected, Some(Baud::Bauds9600));
    assert!(matches!(p.last_message, Some(SerialMessage::AvailablePorts(v)) if v == &ports));
    assert_eq!(p.internal_error, Some(GuiError::WrongRequestData));
}

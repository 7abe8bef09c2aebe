use modbus485::serial_interface::{
    ExchangeStep, ListenStep, MasterStep, Mode, ReadLoop, ReadStep, Reaction, Round, RoundOutcome, SerialInterface,
    SerialInterfaceError, SerialMessage, Status, TimeoutStep,
};
use modbus485::serial_interface::{port_read_outcome, received_byte};
use modbus485::settings::{BaudRate, CharSize, FlowControl, Parity, StopBits};

fn fresh() -> SerialInterface {
    SerialInterface::new().unwrap()
}

fn replies(r: Reaction) -> Vec<SerialMessage> {
    match r {
        Reaction::Reply(v) => v,
        _ => panic!("expected replies"),
    }
}

#[test]
fn new_interface_defaults() {
    let s = fresh();
    assert_eq!(s.path, None);
    assert_eq!(s.mode, Mode::Stop);
    assert_eq!(s.status, Status::Idle);
    assert_eq!(s.modbus_id, None);
    assert_eq!(s.baud_rate, BaudRate::Baud19200);
    assert_eq!(s.char_size, CharSize::Bits8);
    assert_eq!(s.parity, Parity::ParityNone);
    assert_eq!(s.stop_bits, StopBits::Stop2);
    assert_eq!(s.flow_control, FlowControl::FlowNone);
    assert!(!s.port_open);
    assert_eq!(s.silence, Some(15_000_000));
    assert_eq!(s.timeout, 10_000);
}

#[test]
fn builders_set_fields() {
    let s = fresh()
        .path("/dev/ttyUSB0".to_string())
        .bauds(BaudRate::Baud9600)
        .char_size(CharSize::Bits7)
        .parity(Parity::ParityEven)
        .stop_bits(StopBits::Stop1)
        .flow_control(FlowControl::FlowHardware)
        .modbus_id(3)
        .silence(4_000_000);
    assert_eq!(s.path.as_deref(), Some("/dev/ttyUSB0"));
    assert_eq!(s.baud_rate, BaudRate::Baud9600);
    assert_eq!(s.char_size, CharSize::Bits7);
    assert_eq!(s.parity, Parity::ParityEven);
    assert_eq!(s.stop_bits, StopBits::Stop1);
    assert_eq!(s.flow_control, FlowControl::FlowHardware);
    assert_eq!(s.modbus_id, Some(3));
    assert_eq!(s.silence, Some(4_000_000));
    let s = s.mode(Mode::Master).unwrap();
    assert_eq!(*s.get_mode(), Mode::Master);
    assert!(matches!(s.mode(Mode::Slave), Err(SerialInterfaceError::StopToChangeSettings)));
}

#[test]
fn set_mode_rules() {
    let mut s = fresh();
    assert!(matches!(s.set_mode(Mode::Slave), Err(SerialInterfaceError::SlaveModeNeedModbusID)));
    assert_eq!(s.mode, Mode::Stop);
    assert!(s.set_mode(Mode::Sniff).is_ok());
    assert_eq!(s.mode, Mode::Sniff);
    assert!(matches!(s.set_mode(Mode::Stop), Err(SerialInterfaceError::StopToChangeSettings)));

    let mut s = fresh().modbus_id(1);
    s.port_opened();
    assert!(matches!(s.set_mode(Mode::Master), Err(SerialInterfaceError::DisconnectToChangeSettings)));
    assert!(s.close().is_ok());
    assert!(s.set_mode(Mode::Slave).is_ok());
    assert_eq!(*s.get_state(), Status::Idle);
}

#[test]
fn open_and_close() {
    let mut s = fresh();
    assert!(matches!(s.open(), Err(SerialInterfaceError::PathMissing)));
    let mut s = s.path("/dev/ttyS1".to_string());
    assert_eq!(s.open().unwrap(), "/dev/ttyS1");
    s.port_opened();
    assert!(matches!(s.open(), Err(SerialInterfaceError::PortAlreadyOpen)));
    assert!(s.close().is_ok());
    assert!(matches!(s.close(), Err(SerialInterfaceError::NoPortToClose)));
}

#[test]
fn general_messages() {
    let mut s = fresh();
    let r = replies(s.handle_message(SerialMessage::Ping));
    assert!(matches!(r.as_slice(), [SerialMessage::Pong]));
    let r = replies(s.handle_message(SerialMessage::GetStatus));
    assert!(matches!(r.as_slice(), [SerialMessage::Status(Status::Idle)]));
    let r = replies(s.handle_message(SerialMessage::GetConnectionStatus));
    assert!(matches!(r.as_slice(), [SerialMessage::Connected(false)]));
    assert!(replies(s.handle_message(SerialMessage::SetTimeout(5))).is_empty());
    assert_eq!(s.timeout, 5);
    assert!(matches!(
        s.handle_message(SerialMessage::SetMode(Mode::Master)),
        Reaction::Forward(SerialMessage::SetMode(Mode::Master))
    ));
}

#[test]
fn settings_only_while_stopped() {
    let mut s = fresh();
    assert!(replies(s.handle_message(SerialMessage::SetPort("/dev/a".to_string()))).is_empty());
    assert_eq!(s.path.as_deref(), Some("/dev/a"));
    assert!(replies(s.handle_message(SerialMessage::SetBauds(BaudRate::Baud115200))).is_empty());
    assert_eq!(s.baud_rate, BaudRate::Baud115200);
    assert!(matches!(s.handle_message(SerialMessage::ListPorts), Reaction::ListPorts));
    // Data is dropped while stopped.
    assert!(replies(s.handle_message(SerialMessage::Send(vec![1, 2]))).is_empty());

    let mut s = s.mode(Mode::Sniff).unwrap();
    assert!(replies(s.handle_message(SerialMessage::SetPort("/dev/b".to_string()))).is_empty());
    assert_eq!(s.path.as_deref(), Some("/dev/a"));
    assert!(replies(s.handle_message(SerialMessage::SetParity(Parity::ParityOdd))).is_empty());
    assert_eq!(s.parity, Parity::ParityNone);
    assert!(replies(s.handle_message(SerialMessage::Connect)).is_empty());
    match s.handle_message(SerialMessage::Send(vec![1, 2])) {
        Reaction::Forward(SerialMessage::Send(d)) => assert_eq!(d, vec![1, 2]),
        _ => panic!("data not forwarded"),
    }
}

#[test]
fn connect_and_disconnect() {
    let mut s = fresh();
    let r = replies(s.handle_message(SerialMessage::Connect));
    assert!(matches!(
        r.as_slice(),
        [SerialMessage::Connected(false), SerialMessage::Error(SerialInterfaceError::PathMissing)]
    ));
    let mut s = s.path("/dev/x".to_string());
    match s.handle_message(SerialMessage::Connect) {
        Reaction::OpenPort(p) => assert_eq!(p, "/dev/x"),
        _ => panic!("expected to open"),
    }
    let r = s.connect_outcome(Err(SerialInterfaceError::CannotSetTimeout));
    assert!(matches!(
        r.as_slice(),
        [SerialMessage::Connected(false), SerialMessage::Error(SerialInterfaceError::CannotSetTimeout)]
    ));
    assert!(!s.port_open);
    let r = s.connect_outcome(Ok(()));
    assert!(matches!(r.as_slice(), [SerialMessage::Connected(true)]));
    assert!(s.port_open);
    let r = replies(s.handle_message(SerialMessage::Disconnect));
    assert!(matches!(r.as_slice(), [SerialMessage::Connected(false)]));
    assert!(!s.port_open);
    let r = replies(s.handle_message(SerialMessage::Disconnect));
    assert!(matches!(
        r.as_slice(),
        [SerialMessage::Connected(false), SerialMessage::Error(SerialInterfaceError::NoPortToClose)]
    ));
}

#[test]
fn read_loop_needs_an_end() {
    assert!(matches!(ReadLoop::new(None, None, None, 0), Err(SerialInterfaceError::WrongReadArguments)));
    let l = ReadLoop::new(Some(4), None, None, 7).unwrap();
    assert!(l.buffer.is_empty());
    assert_eq!(l.started, 7);
    assert_eq!(l.last_data, 7);
}

#[test]
fn read_until_size() {
    let mut s = fresh();
    let mut l = ReadLoop::new(Some(3), None, None, 0).unwrap();
    assert!(matches!(s.read_step(&mut l, Some(1), 1), ReadStep::Continue));
    assert_eq!(s.status, Status::Receipt);
    assert!(matches!(s.read_step(&mut l, None, 2), ReadStep::Continue));
    assert!(matches!(s.read_step(&mut l, Some(2), 3), ReadStep::Continue));
    match s.read_step(&mut l, Some(3), 4) {
        ReadStep::Deliver(d) => assert_eq!(d, vec![1, 2, 3]),
        _ => panic!("frame not delivered"),
    }
    assert_eq!(s.status, Status::Idle);
}

#[test]
fn read_until_silence() {
    let mut s = fresh();
    let mut l = ReadLoop::new(None, Some(100), None, 0).unwrap();
    // Nothing yet: look at the channel.
    assert!(matches!(s.read_step(&mut l, None, 10), ReadStep::Poll));
    l.message_polled(10);
    assert_eq!(l.last_data, 10);
    assert!(matches!(s.read_step(&mut l, Some(9), 20), ReadStep::Continue));
    assert_eq!(l.last_data, 20);
    assert!(matches!(s.read_step(&mut l, None, 120), ReadStep::Continue));
    match s.read_step(&mut l, None, 121) {
        ReadStep::Deliver(d) => assert_eq!(d, vec![9]),
        _ => panic!("frame not delivered"),
    }
    // A clock reading earlier than the last byte counts as no time passed.
    let mut l = ReadLoop::new(None, Some(0), None, 50).unwrap();
    assert!(matches!(s.read_step(&mut l, Some(1), 50), ReadStep::Continue));
    assert!(matches!(s.read_step(&mut l, None, 40), ReadStep::Continue));
}

#[test]
fn read_until_timeout() {
    let mut s = fresh();
    let l = ReadLoop::new(None, None, Some(100), 0).unwrap();
    assert!(matches!(s.timeout_step(&l, 100), TimeoutStep::Continue));
    assert!(matches!(s.timeout_step(&l, 101), TimeoutStep::Expire));
    let mut l = ReadLoop::new(None, None, Some(100), 0).unwrap();
    assert!(matches!(s.read_step(&mut l, Some(5), 50), ReadStep::Continue));
    match s.timeout_step(&l, 200) {
        TimeoutStep::Deliver(d) => assert_eq!(d, vec![5]),
        _ => panic!("frame not delivered"),
    }
    assert_eq!(s.status, Status::Idle);
}

#[test]
fn listen_steps() {
    let mut s = fresh();
    assert_eq!(s.begin_read().unwrap(), 15_000_000);
    assert_eq!(s.status, Status::Read);
    match s.listen_step(Some(SerialMessage::Send(vec![4]))) {
        ListenStep::Write(d) => assert_eq!(d, vec![4]),
        _ => panic!("expected a write"),
    }
    assert_eq!(s.status, Status::Write);
    assert!(matches!(s.write_done(Err(SerialInterfaceError::CannotWritePort)), Some(SerialInterfaceError::CannotWritePort)));
    assert_eq!(s.status, Status::Idle);
    assert!(matches!(
        s.listen_step(Some(SerialMessage::SetMode(Mode::Master))),
        ListenStep::Report(SerialInterfaceError::StopModeBeforeChange)
    ));
    assert!(matches!(s.listen_step(Some(SerialMessage::SetMode(Mode::Sniff))), ListenStep::Continue));
    assert!(matches!(s.listen_step(Some(SerialMessage::SetMode(Mode::Stop))), ListenStep::Finish(Some(Mode::Stop))));
    assert!(matches!(s.listen_step(None), ListenStep::Finish(None)));
    assert!(matches!(s.listen_step(Some(SerialMessage::Ping)), ListenStep::Continue));
}

#[test]
fn silence_is_needed_to_listen() {
    let mut s = fresh();
    s.silence = None;
    assert!(matches!(s.begin_read(), Err(SerialInterfaceError::SilenceMissing)));
    assert!(matches!(s.begin_exchange(), Err(SerialInterfaceError::SilenceMissing)));
    assert_eq!(s.status, Status::Idle);
}

#[test]
fn master_exchange_steps() {
    let mut s = fresh();
    assert_eq!(s.begin_exchange().unwrap(), 15_000_000);
    assert_eq!(s.status, Status::Write);
    assert!(s.request_written(Ok(())).is_ok());
    assert_eq!(s.status, Status::WaitingResponse);
    assert!(matches!(
        s.response_step(Some(SerialMessage::Send(vec![1]))),
        ExchangeStep::Report(SerialInterfaceError::WaitingForResponse)
    ));
    assert!(matches!(
        s.response_step(Some(SerialMessage::SetMode(Mode::Slave))),
        ExchangeStep::Report(SerialInterfaceError::StopModeBeforeChange)
    ));
    assert!(matches!(s.response_step(Some(SerialMessage::SetMode(Mode::Master))), ExchangeStep::Continue));
    assert!(matches!(
        s.response_step(Some(SerialMessage::SetMode(Mode::Stop))),
        ExchangeStep::Finish(Some(SerialMessage::SetMode(Mode::Stop)))
    ));
    assert_eq!(s.status, Status::Idle);
    s.status = Status::Write;
    assert!(matches!(s.request_written(Err(SerialInterfaceError::CannotWritePort)), Err(SerialInterfaceError::CannotWritePort)));
    assert_eq!(s.status, Status::Idle);
}

#[test]
fn master_and_slave_decisions() {
    let s = fresh();
    assert!(matches!(s.master_step(SerialMessage::SetMode(Mode::Stop)), MasterStep::Stop));
    assert!(matches!(s.master_step(SerialMessage::SetMode(Mode::Sniff)), MasterStep::Idle));
    match s.master_step(SerialMessage::Send(vec![7, 8])) {
        MasterStep::Exchange(d) => assert_eq!(d, vec![7, 8]),
        _ => panic!("expected an exchange"),
    }
    assert!(SerialInterface::ends_with_stop(&Ok(Some(SerialMessage::SetMode(Mode::Stop)))));
    assert!(!SerialInterface::ends_with_stop(&Ok(None)));
    assert!(!SerialInterface::ends_with_stop(&Err(SerialInterfaceError::CannotReadPort(None))));

    let mut s = fresh();
    s.status = Status::Read;
    assert!(matches!(
        s.request_step(Ok(Some(SerialMessage::SetMode(Mode::Master)))),
        Ok(ExchangeStep::Report(SerialInterfaceError::StopModeBeforeChange))
    ));
    assert_eq!(s.status, Status::Idle);
    assert!(matches!(s.request_step(Ok(Some(SerialMessage::Pong))), Ok(ExchangeStep::Continue)));
    assert!(matches!(s.request_step(Err(SerialInterfaceError::PortNotOpened)), Err(SerialInterfaceError::PortNotOpened)));
    assert!(matches!(s.request_step(Ok(None)), Ok(ExchangeStep::Finish(None))));
}

#[test]
fn running_modes_end_in_stop() {
    assert!(matches!(SerialInterface::sniff_outcome(Ok(Some(Mode::Stop))), Some(Ok(Some(Mode::Stop)))));
    assert!(SerialInterface::sniff_outcome(Ok(None)).is_none());
    assert!(matches!(SerialInterface::sniff_outcome(Err(SerialInterfaceError::SilenceMissing)), Some(Err(_))));

    let mut s = fresh();
    s.stopped_step(Ok(Some(SerialMessage::SetMode(Mode::Slave))));
    assert_eq!(s.mode, Mode::Slave);
    s.mode_finished(Ok(None));
    assert_eq!(s.mode, Mode::Slave);
    s.mode_finished(Err(SerialInterfaceError::SilenceMissing));
    assert_eq!(s.mode, Mode::Stop);
    s.stopped_step(Ok(Some(SerialMessage::Ping)));
    assert_eq!(s.mode, Mode::Stop);
    s.mode = Mode::Sniff;
    s.mode_finished(Ok(Some(Mode::Stop)));
    assert_eq!(s.mode, Mode::Stop);
}

#[test]
fn port_read_outcomes() {
    assert!(matches!(port_read_outcome(Ok(3)), Ok(3)));
    assert!(matches!(port_read_outcome(Err("Operation timed out".to_string())), Ok(0)));
    match port_read_outcome(Err("Broken pipe".to_string())) {
        Err(SerialInterfaceError::CannotReadPort(Some(text))) => assert_eq!(text, "Broken pipe"),
        _ => panic!("expected a read failure"),
    }
    assert!(matches!(received_byte(Ok(1), 0x42), Ok(Some(0x42))));
    assert!(matches!(received_byte(Ok(0), 0x42), Ok(None)));
    assert!(matches!(received_byte(Err("Operation timed out".to_string()), 0x42), Ok(None)));
    assert!(matches!(received_byte(Err("gone".to_string()), 0), Err(SerialInterfaceError::CannotReadPort(_))));
}

#[test]
fn timeout_is_a_setting_taken_only_while_stopped() {
    let mut s = fresh().mode(Mode::Master).unwrap();
    assert!(replies(s.handle_message(SerialMessage::SetTimeout(5))).is_empty());
    assert_eq!(s.timeout, 10_000);
    let mut s = fresh();
    assert!(replies(s.handle_message(SerialMessage::SetTimeout(5))).is_empty());
    assert_eq!(s.timeout, 5);
}

#[test]
fn channel_is_checked_while_nothing_came() {
    let mut s = fresh();
    // A read bounded by a timeout only still looks at the panel's channel.
    let mut l = ReadLoop::new(None, None, Some(100), 0).unwrap();
    assert!(matches!(s.read_step(&mut l, None, 10), ReadStep::Poll));
    let mut l = ReadLoop::new(Some(4), None, None, 0).unwrap();
    assert!(matches!(s.read_step(&mut l, None, 10), ReadStep::Poll));
    assert!(matches!(s.read_step(&mut l, Some(1), 11), ReadStep::Continue));
    assert!(matches!(s.read_step(&mut l, None, 12), ReadStep::Continue));
}

#[test]
fn main_loop_rounds_follow_the_mode() {
    let mut s = fresh();
    s.path = Some("/dev/ttyUSB0".to_string());
    assert_eq!(s.round(), Round::Poll);
    // A stopped daemon takes any mode that is asked for, and only that.
    s.end_round(RoundOutcome::Polled(Ok(Some(SerialMessage::Ping))));
    assert_eq!(s.mode, Mode::Stop);
    s.end_round(RoundOutcome::Polled(Err(SerialInterfaceError::SilenceMissing)));
    assert_eq!(s.mode, Mode::Stop);
    s.end_round(RoundOutcome::Ran(Err(SerialInterfaceError::SilenceMissing)));
    assert_eq!(s.mode, Mode::Stop);
    s.end_round(RoundOutcome::Polled(Ok(Some(SerialMessage::SetMode(Mode::Master)))));
    assert_eq!(s.mode, Mode::Master);
    assert_eq!(s.round(), Round::Master);
    // A running mode that returns without stopping runs again.
    s.end_round(RoundOutcome::Ran(Ok(None)));
    assert_eq!(s.mode, Mode::Master);
    s.end_round(RoundOutcome::Polled(Ok(Some(SerialMessage::SetMode(Mode::Slave)))));
    assert_eq!(s.mode, Mode::Master);
    s.end_round(RoundOutcome::Ran(Ok(Some(Mode::Stop))));
    assert_eq!(s.mode, Mode::Stop);
    s.end_round(RoundOutcome::Polled(Ok(Some(SerialMessage::SetMode(Mode::Sniff)))));
    assert_eq!(s.round(), Round::Sniff);
    // Sniffing with no port open fails, which stops the daemon.
    s.end_round(RoundOutcome::Ran(Err(SerialInterfaceError::PortNotOpened)));
    assert_eq!(s.mode, Mode::Stop);
    s.end_round(RoundOutcome::Polled(Ok(Some(SerialMessage::SetMode(Mode::Slave)))));
    assert_eq!(s.round(), Round::Slave);
    assert_eq!(s.path.as_deref(), Some("/dev/ttyUSB0"));
}

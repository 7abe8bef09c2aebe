//! The serial line daemon's state and the decisions it takes. The daemon's
//! loops (port reads and writes, channel traffic, clocks) run around these
//! functions: each one takes what the line, the channel or the clock gave
//! and says what to do next.

use vstd::prelude::*;
use crate::settings::{BaudRate, CharSize, Parity, StopBits, FlowControl};

verus! {

/// Why the daemon refused or failed an operation.
#[derive(Debug, Clone)]
pub enum SerialInterfaceError {
    CannotListPorts,
    StopToChangeSettings,
    DisconnectToChangeSettings,
    CannotReadPort(Option<String>),
    WrongReadArguments,
    CannotOpenPort(String),
    PortNotOpened,
    SlaveModeNeedModbusID,
    PortAlreadyOpen,
    PortNeededToOpenPort,
    SilenceMissing,
    PathMissing,
    NoPortToClose,
    CannotSendMessage,
    WrongMode,
    CannotWritePort,
    StopModeBeforeChange,
    WaitingForResponse,
    CannotSetTimeout,
}

/// What the daemon is doing on the line.
#[derive(Debug, Clone, Copy, PartialEq, Eq, Structural)]
pub enum Status {
    Read,
    Receipt,
    Write,
    WaitingResponse,
    /// Nothing going on.
    Idle,
}

/// The daemon's operating mode.
#[derive(Debug, Clone, Copy, PartialEq, Eq, Structural)]
pub enum Mode {
    Master,
    Slave,
    Sniff,
    Stop,
}

/// Messages between the panel and the daemon. Durations are in nanoseconds.
#[derive(Debug, Clone)]
pub enum SerialMessage {
    // Settings / flow control (handled when the mode is Stop)
    ListPorts,
    AvailablePorts(Vec<String>),
    SetPort(String),
    SetBauds(BaudRate),
    SetCharSize(CharSize),
    SetParity(Parity),
    SetStopBits(StopBits),
    SetFlowControl(FlowControl),
    SetTimeout(u128),
    Connect,
    Disconnect,
    // Data messages (handled when the mode is not Stop)
    Send(Vec<u8>),
    DataSent(Vec<u8>),
    Receive(Vec<u8>),
    // General messages (always handled)
    GetStatus,
    Status(Status),
    GetConnectionStatus,
    Connected(bool),
    SetMode(Mode),
    Mode(Mode),
    Error(SerialInterfaceError),
    Ping,
    Pong,
}

/// The daemon's state. Durations are in nanoseconds; `port_open` tells
/// whether the driver holds an open port.
pub struct SerialInterface {
    pub path: Option<String>,
    pub mode: Mode,
    pub status: Status,
    pub modbus_id: Option<u8>,
    pub baud_rate: BaudRate,
    pub char_size: CharSize,
    pub parity: Parity,
    pub stop_bits: StopBits,
    pub flow_control: FlowControl,
    pub port_open: bool,
    pub silence: Option<u128>,
    pub timeout: u128,
}

/// Silence that ends a frame when none is configured: 15 ms.
pub const DEFAULT_SILENCE: u128 = 15_000_000;

/// Time given to a slave's answer when none is configured: 10 µs.
pub const DEFAULT_TIMEOUT: u128 = 10_000;

/// The state of a freshly made daemon.
pub open spec fn initial_interface() -> SerialInterface {
    SerialInterface {
        path: None,
        mode: Mode::Stop,
        status: Status::Idle,
        modbus_id: None,
        baud_rate: BaudRate::Baud19200,
        char_size: CharSize::Bits8,
        parity: Parity::ParityNone,
        stop_bits: StopBits::Stop2,
        flow_control: FlowControl::FlowNone,
        port_open: false,
        silence: Some(DEFAULT_SILENCE),
        timeout: DEFAULT_TIMEOUT,
    }
}

/// Why a port may not be opened now, if it may not.
pub open spec fn open_refusal(s: SerialInterface) -> Option<SerialInterfaceError> {
    if s.port_open || s.mode != Mode::Stop {
        Some(SerialInterfaceError::PortAlreadyOpen)
    } else if s.path is None {
        Some(SerialInterfaceError::PathMissing)
    } else {
        None
    }
}

/// The state and the answer after closing.
pub open spec fn closed(s: SerialInterface) -> (SerialInterface, Result<(), SerialInterfaceError>) {
    if s.port_open {
        (SerialInterface { port_open: false, ..s }, Ok(()))
    } else {
        (s, Err(SerialInterfaceError::NoPortToClose))
    }
}

/// The state and the answer after asking for mode `m`.
pub open spec fn mode_set(s: SerialInterface, m: Mode) -> (SerialInterface, Result<(), SerialInterfaceError>) {
    if s.mode != Mode::Stop {
        (s, Err(SerialInterfaceError::StopToChangeSettings))
    } else if s.modbus_id is None && m == Mode::Slave {
        (s, Err(SerialInterfaceError::SlaveModeNeedModbusID))
    } else if s.modbus_id is Some && s.port_open {
        (s, Err(SerialInterfaceError::DisconnectToChangeSettings))
    } else {
        (SerialInterface { mode: m, ..s }, Ok(()))
    }
}

impl SerialInterface {
    /// A stopped daemon with no port, 19200 bauds 8N2, no flow control.
    pub fn new() -> (r: Result<Self, SerialInterfaceError>)
        ensures
            r == Ok::<Self, SerialInterfaceError>(initial_interface()),
    {
        Ok(SerialInterface {
            path: None,
            mode: Mode::Stop,
            status: Status::Idle,
            modbus_id: None,
            baud_rate: BaudRate::Baud19200,
            char_size: CharSize::Bits8,
            parity: Parity::ParityNone,
            stop_bits: StopBits::Stop2,
            flow_control: FlowControl::FlowNone,
            port_open: false,
            silence: Some(DEFAULT_SILENCE),
            timeout: DEFAULT_TIMEOUT,
        })
    }

    pub fn path(self, path: String) -> (r: Self)
        ensures
            r == (SerialInterface { path: Some(path), ..self }),
    {
        SerialInterface { path: Some(path), ..self }
    }

    pub fn bauds(self, bauds: BaudRate) -> (r: Self)
        ensures
            r == (SerialInterface { baud_rate: bauds, ..self }),
    {
        SerialInterface { baud_rate: bauds, ..self }
    }

    pub fn char_size(self, size: CharSize) -> (r: Self)
        ensures
            r == (SerialInterface { char_size: size, ..self }),
    {
        SerialInterface { char_size: size, ..self }
    }

    pub fn parity(self, parity: Parity) -> (r: Self)
        ensures
            r == (SerialInterface { parity, ..self }),
    {
        SerialInterface { parity, ..self }
    }

    pub fn stop_bits(self, stop_bits: StopBits) -> (r: Self)
        ensures
            r == (SerialInterface { stop_bits, ..self }),
    {
        SerialInterface { stop_bits, ..self }
    }

    pub fn flow_control(self, flow_control: FlowControl) -> (r: Self)
        ensures
            r == (SerialInterface { flow_control, ..self }),
    {
        SerialInterface { flow_control, ..self }
    }

    /// Sets the mode of a stopped daemon; a running one refuses.
    pub fn mode(self, mode: Mode) -> (r: Result<Self, SerialInterfaceError>)
        ensures
            self.mode == Mode::Stop ==> r == Ok::<Self, SerialInterfaceError>(
                SerialInterface { mode, ..self },
            ),
            self.mode != Mode::Stop ==> r matches Err(SerialInterfaceError::StopToChangeSettings),
    {
        if let Mode::Stop = &self.mode {
            Ok(SerialInterface { mode, ..self })
        } else {
            Err(SerialInterfaceError::StopToChangeSettings)
        }
    }

    pub fn modbus_id(self, modbus_id: u8) -> (r: Self)
        ensures
            r == (SerialInterface { modbus_id: Some(modbus_id), ..self }),
    {
        SerialInterface { modbus_id: Some(modbus_id), ..self }
    }

    /// Sets the silence, in nanoseconds, that ends a frame.
    pub fn silence(self, silence: u128) -> (r: Self)
        ensures
            r == (SerialInterface { silence: Some(silence), ..self }),
    {
        SerialInterface { silence: Some(silence), ..self }
    }

    /// Switches mode while stopped: slave mode needs a modbus id, and with an
    /// id set the port must be closed first.
    pub fn set_mode(&mut self, m: Mode) -> (r: Result<(), SerialInterfaceError>)
        ensures
            (*final(self), r) == mode_set(*old(self), m),
    {
        if let Mode::Stop = &self.mode {
            if self.modbus_id.is_none() {
                if let Mode::Slave = m {
                    return Err(SerialInterfaceError::SlaveModeNeedModbusID);
                }
            } else if self.port_open {
                return Err(SerialInterfaceError::DisconnectToChangeSettings);
            }
            self.mode = m;
            Ok(())
        } else {
            Err(SerialInterfaceError::StopToChangeSettings)
        }
    }

    pub fn get_mode(&self) -> (r: &Mode)
        ensures
            *r == self.mode,
    {
        &self.mode
    }

    pub fn get_state(&self) -> (r: &Status)
        ensures
            *r == self.status,
    {
        &self.status
    }

    /// Decides whether a port may be opened, and at which path: only a
    /// stopped daemon without an open port, with a path set, opens one.
    pub fn open(&self) -> (r: Result<String, SerialInterfaceError>)
        ensures
            match r {
                Ok(p) => open_refusal(*self) is None && self.path == Some(p),
                Err(e) => open_refusal(*self) == Some(e),
            },
    {
        if self.port_open || self.mode != Mode::Stop {
            Err(SerialInterfaceError::PortAlreadyOpen)
        } else {
            match &self.path {
                Some(p) => Ok(p.clone()),
                None => Err(SerialInterfaceError::PathMissing),
            }
        }
    }

    /// Records that the driver now holds an open port.
    pub fn port_opened(&mut self)
        ensures
            *final(self) == (SerialInterface { port_open: true, ..*old(self) }),
    {
        self.port_open = true;
    }

    /// Closes the port, if one is open.
    pub fn close(&mut self) -> (r: Result<(), SerialInterfaceError>)
        ensures
            (*final(self), r) == closed(*old(self)),
    {
        if self.port_open {
            self.port_open = false;
            Ok(())
        } else {
            Err(SerialInterfaceError::NoPortToClose)
        }
    }
}

/// What to do with a message taken from the panel's channel.
pub enum Reaction {
    /// Send these replies, in order, then carry on.
    Reply(Vec<SerialMessage>),
    /// Hand the message to the running mode.
    Forward(SerialMessage),
    /// List the ports and send them back as `AvailablePorts`.
    ListPorts,
    /// Open the port at this path, then report with `connect_outcome`.
    OpenPort(String),
}

/// `r` sends exactly `msgs`.
pub open spec fn replies(r: Reaction, msgs: Seq<SerialMessage>) -> bool {
    r matches Reaction::Reply(v) && v@ == msgs
}

/// How a stopped daemon takes a settings or connection message.
pub open spec fn stopped_handles(
    s: SerialInterface,
    m: SerialMessage,
    t: SerialInterface,
    r: Reaction,
) -> bool {
    match m {
        SerialMessage::ListPorts => t == s && r is ListPorts,
        SerialMessage::SetPort(p) => t == (SerialInterface { path: Some(p), ..s }) && replies(r, seq![]),
        SerialMessage::SetBauds(b) => t == (SerialInterface { baud_rate: b, ..s }) && replies(r, seq![]),
        SerialMessage::SetCharSize(c) => t == (SerialInterface { char_size: c, ..s }) && replies(r, seq![]),
        SerialMessage::SetParity(p) => t == (SerialInterface { parity: p, ..s }) && replies(r, seq![]),
        SerialMessage::SetStopBits(b) => t == (SerialInterface { stop_bits: b, ..s }) && replies(r, seq![]),
        SerialMessage::SetFlowControl(f) => t == (SerialInterface { flow_control: f, ..s }) && replies(r, seq![]),
        SerialMessage::SetTimeout(d) => t == (SerialInterface { timeout: d, ..s }) && replies(r, seq![]),
        SerialMessage::Connect => t == s && match open_refusal(s) {
            Some(e) => replies(r, seq![SerialMessage::Connected(false), SerialMessage::Error(e)]),
            None => r == Reaction::OpenPort(s.path->0),
        },
        SerialMessage::Disconnect => t == closed(s).0 && match closed(s).1 {
            Ok(_) => replies(r, seq![SerialMessage::Connected(false)]),
            Err(e) => replies(r, seq![SerialMessage::Connected(false), SerialMessage::Error(e)]),
        },
        _ => t == s && replies(r, seq![]),
    }
}

/// How the daemon takes message `m` in state `s`, going to state `t` with
/// reaction `r`: status queries, mode requests and pings in any mode;
/// settings (the timeout among them) and connection only when stopped; data to send only when
/// running; anything else is dropped.
pub open spec fn handles(s: SerialInterface, m: SerialMessage, t: SerialInterface, r: Reaction) -> bool {
    match m {
        SerialMessage::GetConnectionStatus => t == s && replies(r, seq![SerialMessage::Connected(s.port_open)]),
        SerialMessage::GetStatus => t == s && replies(r, seq![SerialMessage::Status(s.status)]),
        SerialMessage::SetMode(mode) => t == s && r == Reaction::Forward(SerialMessage::SetMode(mode)),
        SerialMessage::Ping => t == s && replies(r, seq![SerialMessage::Pong]),
        _ => if s.mode == Mode::Stop {
            stopped_handles(s, m, t, r)
        } else {
            t == s && match m {
                SerialMessage::Send(data) => r == Reaction::Forward(SerialMessage::Send(data)),
                _ => replies(r, seq![]),
            }
        },
    }
}

fn no_reply() -> (r: Reaction)
    ensures
        replies(r, seq![]),
{
    let v: Vec<SerialMessage> = Vec::new();
    assert(v@ =~= seq![]);
    Reaction::Reply(v)
}

fn reply_one(m: SerialMessage) -> (r: Reaction)
    ensures
        replies(r, seq![m]),
{
    let mut v: Vec<SerialMessage> = Vec::new();
    v.push(m);
    assert(v@ =~= seq![m]);
    Reaction::Reply(v)
}

fn reply_two(a: SerialMessage, b: SerialMessage) -> (r: Reaction)
    ensures
        replies(r, seq![a, b]),
{
    let mut v: Vec<SerialMessage> = Vec::new();
    v.push(a);
    v.push(b);
    assert(v@ =~= seq![a, b]);
    Reaction::Reply(v)
}

impl SerialInterface {
    /// Takes one message from the panel's channel.
    pub fn handle_message(&mut self, message: SerialMessage) -> (r: Reaction)
        ensures
            handles(*old(self), message, *final(self), r),
    {
        match message {
            SerialMessage::GetConnectionStatus => {
                return reply_one(SerialMessage::Connected(self.port_open));
            },
            SerialMessage::GetStatus => {
                return reply_one(SerialMessage::Status(self.status));
            },
            SerialMessage::SetMode(mode) => {
                return Reaction::Forward(SerialMessage::SetMode(mode));
            },
            SerialMessage::Ping => {
                return reply_one(SerialMessage::Pong);
            },
            _ => {},
        }
        if self.mode == Mode::Stop {
            match message {
                SerialMessage::ListPorts => Reaction::ListPorts,
                SerialMessage::SetPort(port) => {
                    self.path = Some(port);
                    no_reply()
                },
                SerialMessage::SetBauds(bauds) => {
                    self.baud_rate = bauds;
                    no_reply()
                },
                SerialMessage::SetCharSize(char_size) => {
                    self.char_size = char_size;
                    no_reply()
                },
                SerialMessage::SetParity(parity) => {
                    self.parity = parity;
                    no_reply()
                },
                SerialMessage::SetStopBits(stop_bits) => {
                    self.stop_bits = stop_bits;
                    no_reply()
                },
                SerialMessage::SetFlowControl(flow_control) => {
                    self.flow_control = flow_control;
                    no_reply()
                },
                SerialMessage::SetTimeout(timeout) => {
                    self.timeout = timeout;
                    no_reply()
                },
                SerialMessage::Connect => match self.open() {
                    Ok(path) => Reaction::OpenPort(path),
                    Err(e) => reply_two(SerialMessage::Connected(false), SerialMessage::Error(e)),
                },
                SerialMessage::Disconnect => {
                    let result = self.close();
                    match result {
                        Ok(()) => reply_one(SerialMessage::Connected(false)),
                        Err(e) => reply_two(SerialMessage::Connected(false), SerialMessage::Error(e)),
                    }
                },
                _ => no_reply(),
            }
        } else {
            match message {
                SerialMessage::Send(data) => Reaction::Forward(SerialMessage::Send(data)),
                _ => no_reply(),
            }
        }
    }

    /// Records how opening the port went and says what to tell the panel.
    pub fn connect_outcome(&mut self, opened: Result<(), SerialInterfaceError>) -> (r: Vec<SerialMessage>)
        ensures
            match opened {
                Ok(_) => *final(self) == (SerialInterface { port_open: true, ..*old(self) })
                    && r@ == seq![SerialMessage::Connected(true)],
                Err(e) => *final(self) == *old(self)
                    && r@ == seq![SerialMessage::Connected(false), SerialMessage::Error(e)],
            },
    {
        match opened {
            Ok(()) => {
                self.port_opened();
                vec![SerialMessage::Connected(true)]
            },
            Err(e) => vec![SerialMessage::Connected(false), SerialMessage::Error(e)],
        }
    }
}

/// Time from `since` to `now`, in nanoseconds; zero when `now` is earlier.
pub open spec fn elapsed(since: u128, now: u128) -> int {
    if now >= since {
        now - since
    } else {
        0
    }
}

/// One read of the line in progress: it ends when `size` bytes have come,
/// when `silence` has passed after the last byte, or when `timeout` has
/// passed since it began. Times are nanoseconds on the driver's clock.
pub struct ReadLoop {
    pub size: Option<usize>,
    pub silence: Option<u128>,
    pub timeout: Option<u128>,
    /// The bytes received so far, in order.
    pub buffer: Vec<u8>,
    /// When the read began.
    pub started: u128,
    /// When the last byte came, or when the read last checked the channel.
    pub last_data: u128,
}

/// What to do after one attempt to read a byte.
pub enum ReadStep {
    /// The frame is complete: send it to the panel as `Receive` and stop.
    Deliver(Vec<u8>),
    /// Nothing has come yet: check the panel's channel; stop with the
    /// message if the running mode must see it, else call `message_polled`.
    Poll,
    /// Go on to the timeout check.
    Continue,
}

/// What the timeout check says.
pub enum TimeoutStep {
    /// Time is up: send what came to the panel as `Receive` and stop.
    Deliver(Vec<u8>),
    /// Time is up and nothing came: stop with nothing.
    Expire,
    /// Read again.
    Continue,
}

impl ReadLoop {
    /// Begins a read at time `now`; at least one way to end it is needed.
    pub fn new(size: Option<usize>, silence: Option<u128>, timeout: Option<u128>, now: u128) -> (r: Result<
        ReadLoop,
        SerialInterfaceError,
    >)
        ensures
            (size is None && silence is None && timeout is None) ==> r matches Err(
                SerialInterfaceError::WrongReadArguments,
            ),
            !(size is None && silence is None && timeout is None) ==> (r matches Ok(l) && l.size == size
                && l.silence == silence && l.timeout == timeout && l.buffer@ == Seq::<u8>::empty()
                && l.started == now && l.last_data == now),
    {
        if !(size.is_some() || timeout.is_some() || silence.is_some()) {
            return Err(SerialInterfaceError::WrongReadArguments);
        }
        Ok(ReadLoop { size, silence, timeout, buffer: Vec::new(), started: now, last_data: now })
    }

    /// The channel was checked at `now` and held nothing for the running mode.
    pub fn message_polled(&mut self, now: u128)
        ensures
            *final(self) == (ReadLoop { last_data: now, ..*old(self) }),
    {
        self.last_data = now;
    }
}

/// What to do after one step of listening in sniff mode.
pub enum ListenStep {
    /// Write these bytes on the line, then call `write_done`.
    Write(Vec<u8>),
    /// Tell the panel about this error and listen again.
    Report(SerialInterfaceError),
    /// Stop listening with this result.
    Finish(Option<Mode>),
    /// Listen again.
    Continue,
}

/// What to do after one read while exchanging with a slave, or while
/// waiting for a request.
pub enum ExchangeStep {
    /// Tell the panel about this error and read again.
    Report(SerialInterfaceError),
    /// Stop with this result.
    Finish(Option<SerialMessage>),
    /// Read again.
    Continue,
}

/// What the master mode does with a message for it.
pub enum MasterStep {
    /// Leave master mode.
    Stop,
    /// Write the request and wait for the answer.
    Exchange(Vec<u8>),
    /// Nothing to do.
    Idle,
}

/// `outcome` asks to stop: it is the mode request `SetMode(Stop)`.
pub open spec fn asks_stop(outcome: Result<Option<SerialMessage>, SerialInterfaceError>) -> bool {
    outcome matches Ok(Some(SerialMessage::SetMode(Mode::Stop)))
}

impl SerialInterface {
    /// Takes the result of one attempt to read a byte at time `now`.
    pub fn read_step(&mut self, rl: &mut ReadLoop, byte: Option<u8>, now: u128) -> (r: ReadStep)
        ensures
            match byte {
                Some(b) => {
                    &&& final(rl).buffer@ == old(rl).buffer@.push(b)
                    &&& *final(rl) == (ReadLoop { buffer: final(rl).buffer, last_data: now, ..*old(rl) })
                    &&& if old(rl).size == Some((old(rl).buffer@.len() + 1) as usize) {
                        &&& r matches ReadStep::Deliver(d) && d@ == final(rl).buffer@
                        &&& *final(self) == (SerialInterface { status: Status::Idle, ..*old(self) })
                    } else {
                        &&& r is Continue
                        &&& *final(self) == (SerialInterface { status: Status::Receipt, ..*old(self) })
                    }
                },
                None => {
                    &&& *final(rl) == *old(rl)
                    &&& if old(rl).buffer@.len() == 0 {
                        r is Poll && *final(self) == *old(self)
                    } else {
                        match old(rl).silence {
                            Some(s) => if elapsed(old(rl).last_data, now) > s {
                                &&& r matches ReadStep::Deliver(d) && d@ == old(rl).buffer@
                                &&& *final(self) == (SerialInterface { status: Status::Idle, ..*old(self) })
                            } else {
                                r is Continue && *final(self) == *old(self)
                            },
                            None => r is Continue && *final(self) == *old(self),
                        }
                    }
                },
            },
    {
        match byte {
            Some(b) => {
                self.status = Status::Receipt;
                rl.buffer.push(b);
                rl.last_data = now;
                if let Some(size) = rl.size {
                    if rl.buffer.len() == size {
                        self.status = Status::Idle;
                        return ReadStep::Deliver(rl.buffer.clone());
                    }
                }
                ReadStep::Continue
            },
            None => {
                if rl.buffer.len() == 0 {
                    ReadStep::Poll
                } else if let Some(silence) = rl.silence {
                    let from_last_data = if now >= rl.last_data { now - rl.last_data } else { 0 };
                    if from_last_data > silence {
                        self.status = Status::Idle;
                        ReadStep::Deliver(rl.buffer.clone())
                    } else {
                        ReadStep::Continue
                    }
                } else {
                    ReadStep::Continue
                }
            },
        }
    }

    /// Checks, at time `now`, whether the read has run out of time.
    pub fn timeout_step(&mut self, rl: &ReadLoop, now: u128) -> (r: TimeoutStep)
        ensures
            match rl.timeout {
                Some(t) if elapsed(rl.started, now) > t => if rl.buffer@.len() > 0 {
                    &&& r matches TimeoutStep::Deliver(d) && d@ == rl.buffer@
                    &&& *final(self) == (SerialInterface { status: Status::Idle, ..*old(self) })
                } else {
                    r is Expire && *final(self) == *old(self)
                },
                _ => r is Continue && *final(self) == *old(self),
            },
    {
        if let Some(timeout) = rl.timeout {
            let since_start = if now >= rl.started { now - rl.started } else { 0 };
            if since_start > timeout {
                if rl.buffer.len() > 0 {
                    self.status = Status::Idle;
                    return TimeoutStep::Deliver(rl.buffer.clone());
                }
                return TimeoutStep::Expire;
            }
        }
        TimeoutStep::Continue
    }

    /// Before reading until silence: the silence must be set; the line is
    /// being read.
    pub fn begin_read(&mut self) -> (r: Result<u128, SerialInterfaceError>)
        ensures
            match old(self).silence {
                Some(s) => r == Ok::<u128, SerialInterfaceError>(s)
                    && *final(self) == (SerialInterface { status: Status::Read, ..*old(self) }),
                None => r matches Err(SerialInterfaceError::SilenceMissing) && *final(self) == *old(self),
            },
    {
        match self.silence {
            Some(silence) => {
                self.status = Status::Read;
                Ok(silence)
            },
            None => Err(SerialInterfaceError::SilenceMissing),
        }
    }

    /// Sniff mode: what to do with what one read until silence ended with.
    /// `None` means the frame went to the panel or nothing came.
    pub fn listen_step(&mut self, read: Option<SerialMessage>) -> (r: ListenStep)
        ensures
            match read {
                None => r == ListenStep::Finish(None)
                    && *final(self) == (SerialInterface { status: Status::Idle, ..*old(self) }),
                Some(SerialMessage::Send(data)) => r == ListenStep::Write(data)
                    && *final(self) == (SerialInterface { status: Status::Write, ..*old(self) }),
                Some(SerialMessage::SetMode(Mode::Stop)) => r == ListenStep::Finish(Some(Mode::Stop))
                    && *final(self) == (SerialInterface { status: Status::Idle, ..*old(self) }),
                Some(SerialMessage::SetMode(Mode::Sniff)) => r is Continue && *final(self) == *old(self),
                Some(SerialMessage::SetMode(_)) => r matches ListenStep::Report(
                    SerialInterfaceError::StopModeBeforeChange,
                ) && *final(self) == *old(self),
                Some(_) => r is Continue && *final(self) == *old(self),
            },
    {
        match read {
            None => {
                self.status = Status::Idle;
                ListenStep::Finish(None)
            },
            Some(SerialMessage::Send(data)) => {
                self.status = Status::Write;
                ListenStep::Write(data)
            },
            Some(SerialMessage::SetMode(mode)) => {
                if mode != Mode::Stop && mode != Mode::Sniff {
                    ListenStep::Report(SerialInterfaceError::StopModeBeforeChange)
                } else if mode == Mode::Stop {
                    self.status = Status::Idle;
                    ListenStep::Finish(Some(mode))
                } else {
                    ListenStep::Continue
                }
            },
            Some(_) => ListenStep::Continue,
        }
    }

    /// Sniff mode: a write asked for by the panel is done; a failure is
    /// reported to the panel.
    pub fn write_done(&mut self, written: Result<(), SerialInterfaceError>) -> (r: Option<SerialInterfaceError>)
        ensures
            *final(self) == (SerialInterface { status: Status::Idle, ..*old(self) }),
            match written {
                Ok(_) => r is None,
                Err(e) => r == Some(e),
            },
    {
        self.status = Status::Idle;
        match written {
            Ok(()) => None,
            Err(e) => Some(e),
        }
    }

    /// Master mode, before writing a request: the silence must be set.
    pub fn begin_exchange(&mut self) -> (r: Result<u128, SerialInterfaceError>)
        ensures
            match old(self).silence {
                Some(s) => r == Ok::<u128, SerialInterfaceError>(s)
                    && *final(self) == (SerialInterface { status: Status::Write, ..*old(self) }),
                None => r matches Err(SerialInterfaceError::SilenceMissing) && *final(self) == *old(self),
            },
    {
        match self.silence {
            Some(silence) => {
                self.status = Status::Write;
                Ok(silence)
            },
            None => Err(SerialInterfaceError::SilenceMissing),
        }
    }

    /// Master mode: the request is written, or writing it failed.
    pub fn request_written(&mut self, written: Result<(), SerialInterfaceError>) -> (r: Result<
        (),
        SerialInterfaceError,
    >)
        ensures
            match written {
                Ok(_) => r is Ok && *final(self) == (SerialInterface {
                    status: Status::WaitingResponse,
                    ..*old(self)
                }),
                Err(e) => r == Err::<(), SerialInterfaceError>(e) && *final(self) == (SerialInterface {
                    status: Status::Idle,
                    ..*old(self)
                }),
            },
    {
        match written {
            Ok(()) => {
                self.status = Status::WaitingResponse;
                Ok(())
            },
            Err(e) => {
                self.status = Status::Idle;
                Err(e)
            },
        }
    }

    /// Master mode, waiting for the answer: what to do with what one read
    /// ended with. No new request is taken while waiting.
    pub fn response_step(&mut self, read: Option<SerialMessage>) -> (r: ExchangeStep)
        ensures
            match read {
                None => r == ExchangeStep::Finish(None)
                    && *final(self) == (SerialInterface { status: Status::Idle, ..*old(self) }),
                Some(SerialMessage::Send(_)) => r matches ExchangeStep::Report(
                    SerialInterfaceError::WaitingForResponse,
                ) && *final(self) == *old(self),
                Some(SerialMessage::SetMode(Mode::Stop)) => r == ExchangeStep::Finish(
                    Some(SerialMessage::SetMode(Mode::Stop)),
                ) && *final(self) == (SerialInterface { status: Status::Idle, ..*old(self) }),
                Some(SerialMessage::SetMode(Mode::Master)) => r is Continue && *final(self) == *old(self),
                Some(SerialMessage::SetMode(_)) => r matches ExchangeStep::Report(
                    SerialInterfaceError::StopModeBeforeChange,
                ) && *final(self) == *old(self),
                Some(_) => r is Continue && *final(self) == *old(self),
            },
    {
        match read {
            None => {
                self.status = Status::Idle;
                ExchangeStep::Finish(None)
            },
            Some(SerialMessage::Send(_)) => ExchangeStep::Report(SerialInterfaceError::WaitingForResponse),
            Some(SerialMessage::SetMode(mode)) => {
                if mode == Mode::Stop {
                    self.status = Status::Idle;
                    ExchangeStep::Finish(Some(SerialMessage::SetMode(Mode::Stop)))
                } else if mode == Mode::Slave || mode == Mode::Sniff {
                    ExchangeStep::Report(SerialInterfaceError::StopModeBeforeChange)
                } else {
                    ExchangeStep::Continue
                }
            },
            Some(_) => ExchangeStep::Continue,
        }
    }

    /// Slave mode, waiting for a request: what to do with how one read
    /// until silence ended.
    pub fn request_step(&mut self, read: Result<Option<SerialMessage>, SerialInterfaceError>) -> (r: Result<
        ExchangeStep,
        SerialInterfaceError,
    >)
        ensures
            *final(self) == (SerialInterface { status: Status::Idle, ..*old(self) }),
            match read {
                Err(e) => r == Err::<ExchangeStep, SerialInterfaceError>(e),
                Ok(None) => r == Ok::<ExchangeStep, SerialInterfaceError>(ExchangeStep::Finish(None)),
                Ok(Some(SerialMessage::Send(data))) => r == Ok::<ExchangeStep, SerialInterfaceError>(
                    ExchangeStep::Finish(Some(SerialMessage::Send(data))),
                ),
                Ok(Some(SerialMessage::SetMode(Mode::Stop))) => r == Ok::<
                    ExchangeStep,
                    SerialInterfaceError,
                >(ExchangeStep::Finish(Some(SerialMessage::SetMode(Mode::Stop)))),
                Ok(Some(SerialMessage::SetMode(_))) => r matches Ok(
                    ExchangeStep::Report(SerialInterfaceError::StopModeBeforeChange),
                ),
                Ok(Some(_)) => r matches Ok(ExchangeStep::Continue),
            },
    {
        self.status = Status::Idle;
        match read {
            Err(e) => Err(e),
            Ok(None) => Ok(ExchangeStep::Finish(None)),
            Ok(Some(SerialMessage::Send(data))) => Ok(ExchangeStep::Finish(Some(SerialMessage::Send(data)))),
            Ok(Some(SerialMessage::SetMode(mode))) => {
                if mode == Mode::Stop {
                    Ok(ExchangeStep::Finish(Some(SerialMessage::SetMode(Mode::Stop))))
                } else {
                    Ok(ExchangeStep::Report(SerialInterfaceError::StopModeBeforeChange))
                }
            },
            Ok(Some(_)) => Ok(ExchangeStep::Continue),
        }
    }

    /// Master mode: what to do with a message handed over by `handle_message`.
    pub fn master_step(&self, message: SerialMessage) -> (r: MasterStep)
        ensures
            match message {
                SerialMessage::SetMode(Mode::Stop) => r is Stop,
                SerialMessage::Send(data) => r == MasterStep::Exchange(data),
                _ => r is Idle,
            },
    {
        match message {
            SerialMessage::SetMode(mode) => {
                if mode == Mode::Stop {
                    MasterStep::Stop
                } else {
                    MasterStep::Idle
                }
            },
            SerialMessage::Send(data) => MasterStep::Exchange(data),
            _ => MasterStep::Idle,
        }
    }

    /// Whether an exchange (master) or a wait for a request (slave) ended on
    /// a request to stop.
    pub fn ends_with_stop(outcome: &Result<Option<SerialMessage>, SerialInterfaceError>) -> (r: bool)
        ensures
            r == asks_stop(*outcome),
    {
        match outcome {
            Ok(Some(SerialMessage::SetMode(mode))) => *mode == Mode::Stop,
            _ => false,
        }
    }

    /// Sniff mode: whether one round of listening ends the mode, and how.
    pub fn sniff_outcome(listened: Result<Option<Mode>, SerialInterfaceError>) -> (r: Option<
        Result<Option<Mode>, SerialInterfaceError>,
    >)
        ensures
            match listened {
                Ok(Some(Mode::Stop)) => r == Some(Ok::<Option<Mode>, SerialInterfaceError>(Some(Mode::Stop))),
                Ok(_) => r is None,
                Err(e) => r == Some(Err::<Option<Mode>, SerialInterfaceError>(e)),
            },
    {
        match listened {
            Ok(Some(mode)) => {
                if mode == Mode::Stop {
                    Some(Ok(Some(Mode::Stop)))
                } else {
                    None
                }
            },
            Ok(None) => None,
            Err(e) => Some(Err(e)),
        }
    }

    /// Stopped: a mode request taken from the channel switches the mode.
    pub fn stopped_step(&mut self, polled: Result<Option<SerialMessage>, SerialInterfaceError>)
        ensures
            match polled {
                Ok(Some(SerialMessage::SetMode(m))) => *final(self) == (SerialInterface { mode: m, ..*old(self) }),
                _ => *final(self) == *old(self),
            },
    {
        if let Ok(Some(SerialMessage::SetMode(mode))) = polled {
            self.mode = mode;
        }
    }

    /// A running mode has returned: a request to stop, or a failure, stops
    /// the daemon.
    pub fn mode_finished(&mut self, outcome: Result<Option<Mode>, SerialInterfaceError>)
        ensures
            match outcome {
                Ok(Some(Mode::Stop)) | Err(_) => *final(self) == (SerialInterface { mode: Mode::Stop, ..*old(self) }),
                Ok(_) => *final(self) == *old(self),
            },
    {
        match outcome {
            Ok(Some(mode)) => {
                if mode == Mode::Stop {
                    self.mode = Mode::Stop;
                }
            },
            Ok(None) => {},
            Err(_) => {
                self.mode = Mode::Stop;
            },
        }
    }

    /// The work the main loop does next, chosen by the mode.
    pub fn round(&self) -> (r: Round)
        ensures
            r == round_of(self.mode),
    {
        match self.mode {
            Mode::Stop => Round::Poll,
            Mode::Master => Round::Master,
            Mode::Slave => Round::Slave,
            Mode::Sniff => Round::Sniff,
        }
    }

    /// Ends one round of the main loop with what it came to: a stopped
    /// daemon takes a mode request from the channel, a running one stops on
    /// a request to stop or a failure. An outcome of the other kind than the
    /// mode's round changes nothing.
    pub fn end_round(&mut self, outcome: RoundOutcome)
        ensures
            *final(self) == after_round(*old(self), outcome),
    {
        match outcome {
            RoundOutcome::Polled(polled) => {
                if self.mode == Mode::Stop {
                    self.stopped_step(polled);
                }
            },
            RoundOutcome::Ran(ran) => {
                if self.mode != Mode::Stop {
                    self.mode_finished(ran);
                }
            },
        }
    }
}

/// What the daemon's main loop does in one round.
#[derive(Debug, Clone, Copy, PartialEq, Eq, Structural)]
pub enum Round {
    /// Stopped: read the channel once.
    Poll,
    /// Run the master mode until it returns.
    Master,
    /// Run the slave mode until it returns.
    Slave,
    /// Run the sniff mode until it returns.
    Sniff,
}

/// What one round of the main loop came to.
#[derive(Debug)]
pub enum RoundOutcome {
    /// What reading the channel gave while stopped.
    Polled(Result<Option<SerialMessage>, SerialInterfaceError>),
    /// What a running mode returned.
    Ran(Result<Option<Mode>, SerialInterfaceError>),
}

/// The round that a daemon in `mode` runs.
pub open spec fn round_of(mode: Mode) -> Round {
    match mode {
        Mode::Stop => Round::Poll,
        Mode::Master => Round::Master,
        Mode::Slave => Round::Slave,
        Mode::Sniff => Round::Sniff,
    }
}

/// A running mode returned on a request to stop or on a failure.
pub open spec fn stops_running(outcome: RoundOutcome) -> bool {
    ||| outcome matches RoundOutcome::Ran(Ok(Some(Mode::Stop)))
    ||| outcome matches RoundOutcome::Ran(Err(_))
}

/// The mode after a round that began in `mode` and came to `outcome`.
pub open spec fn mode_after(mode: Mode, outcome: RoundOutcome) -> Mode {
    if mode == Mode::Stop {
        match outcome {
            RoundOutcome::Polled(Ok(Some(SerialMessage::SetMode(m)))) => m,
            _ => mode,
        }
    } else if stops_running(outcome) {
        Mode::Stop
    } else {
        mode
    }
}

/// The daemon after a round: only its mode can change.
pub open spec fn after_round(s: SerialInterface, outcome: RoundOutcome) -> SerialInterface {
    SerialInterface { mode: mode_after(s.mode, outcome), ..s }
}

/// The daemon after rounds that came to `outcomes`, one after the other.
pub open spec fn after_rounds(s: SerialInterface, outcomes: Seq<RoundOutcome>) -> SerialInterface
    decreases outcomes.len(),
{
    if outcomes.len() == 0 {
        s
    } else {
        after_rounds(after_round(s, outcomes[0]), outcomes.drop_first())
    }
}

/// The modes the daemon goes through when its rounds come to `outcomes`,
/// starting in `mode`: the mode before each round, then the one after the
/// last.
pub open spec fn modes_through(mode: Mode, outcomes: Seq<RoundOutcome>) -> Seq<Mode>
    decreases outcomes.len(),
{
    if outcomes.len() == 0 {
        seq![mode]
    } else {
        seq![mode] + modes_through(mode_after(mode, outcomes[0]), outcomes.drop_first())
    }
}

/// How the mode may move in one round: a stopped daemon takes whatever mode
/// a request read from the channel names, and a running one stops on a
/// request to stop or a failure; nothing else moves it.
pub open spec fn mode_moves(before: Mode, outcome: RoundOutcome, after: Mode) -> bool {
    &&& before == Mode::Stop ==> match outcome {
        RoundOutcome::Polled(Ok(Some(SerialMessage::SetMode(m)))) => after == m,
        _ => after == before,
    }
    &&& before != Mode::Stop ==> after == (if stops_running(outcome) { Mode::Stop } else { before })
}

/// What one read of the port amounts to: the number of bytes read, where a
/// timed-out read counts as none; any other failure is reported with its
/// text.
pub open spec fn read_outcome(read: Result<usize, String>) -> Result<usize, SerialInterfaceError> {
    match read {
        Ok(n) => Ok(n),
        Err(text) => if text@ == "Operation timed out"@ {
            Ok(0)
        } else {
            Err(SerialInterfaceError::CannotReadPort(Some(text)))
        },
    }
}

/// Reads how a read of the port went; `read` is the byte count, or the
/// failure's text.
pub fn port_read_outcome(read: Result<usize, String>) -> (r: Result<usize, SerialInterfaceError>)
    ensures
        r == read_outcome(read),
{
    match read {
        Ok(n) => Ok(n),
        Err(text) => {
            if text == String::from_str("Operation timed out") {
                Ok(0)
            } else {
                Err(SerialInterfaceError::CannotReadPort(Some(text)))
            }
        },
    }
}

/// The byte a one-byte read of the port gave, if any: `read` is how the
/// read went, `byte` what the buffer holds after it.
pub fn received_byte(read: Result<usize, String>, byte: u8) -> (r: Result<Option<u8>, SerialInterfaceError>)
    ensures
        match read_outcome(read) {
            Ok(n) => r == Ok::<Option<u8>, SerialInterfaceError>(if n > 0 { Some(byte) } else { None }),
            Err(e) => r == Err::<Option<u8>, SerialInterfaceError>(e),
        },
{
    match port_read_outcome(read) {
        Ok(n) => {
            if n > 0 {
                Ok(Some(byte))
            } else {
                Ok(None)
            }
        },
        Err(e) => Err(e),
    }
}

/// Settings are only taken while stopped: a running daemon, whatever the
/// message, keeps its whole state, timeout, port, path, line settings, mode
/// and status alike.
pub proof fn lemma_running_daemon_keeps_settings(s: SerialInterface, m: SerialMessage, t: SerialInterface, r: Reaction)
    requires
        handles(s, m, t, r),
        s.mode != Mode::Stop,
    ensures
        t == s,
{
}

/// Data to send reaches the running mode exactly when the daemon runs; a
/// stopped daemon drops it without a reply.
pub proof fn lemma_data_forwarded_only_while_running(s: SerialInterface, data: Vec<u8>, t: SerialInterface, r: Reaction)
    requires
        handles(s, SerialMessage::Send(data), t, r),
    ensures
        s.mode != Mode::Stop <==> r == Reaction::Forward(SerialMessage::Send(data)),
        s.mode == Mode::Stop ==> replies(r, seq![]),
        t == s,
{
}

/// A stopped daemon answers every connection request: either it goes on to
/// open the port, or its first reply says it is not connected.
pub proof fn lemma_connect_is_answered(s: SerialInterface, t: SerialInterface, r: Reaction)
    requires
        handles(s, SerialMessage::Connect, t, r),
        s.mode == Mode::Stop,
    ensures
        r is OpenPort || (r matches Reaction::Reply(v) && v@.len() > 0 && v@[0] == SerialMessage::Connected(false)),
        r is OpenPort <==> open_refusal(s) is None,
{
}

/// Closing twice fails the second time: the port is gone after the first.
pub proof fn lemma_close_twice(s: SerialInterface)
    ensures
        !closed(s).0.port_open,
        closed(closed(s).0).1 == Err::<(), SerialInterfaceError>(SerialInterfaceError::NoPortToClose),
{
}

/// The mode only changes while stopped, and a refused change leaves the
/// daemon as it was.
pub proof fn lemma_mode_changes_only_when_stopped(s: SerialInterface, m: Mode)
    ensures
        mode_set(s, m).1 is Err ==> mode_set(s, m).0 == s,
        mode_set(s, m).0.mode != s.mode ==> s.mode == Mode::Stop && mode_set(s, m).0.mode == m,
{
}

/// Across the main loop's rounds the mode moves only as `mode_moves` says:
/// from Stop to the mode that a request read while stopped names, and from a
/// running mode to Stop when that mode returns on a request to stop or a
/// failure. Everything else about the daemon stays as it was.
pub proof fn lemma_main_loop_modes(s: SerialInterface, outcomes: Seq<RoundOutcome>)
    ensures
        modes_through(s.mode, outcomes).len() == outcomes.len() + 1,
        modes_through(s.mode, outcomes)[0] == s.mode,
        forall|i: int| 0 <= i < outcomes.len() ==> mode_moves(
            #[trigger] modes_through(s.mode, outcomes)[i],
            outcomes[i],
            modes_through(s.mode, outcomes)[i + 1],
        ),
        after_rounds(s, outcomes) == (SerialInterface {
            mode: modes_through(s.mode, outcomes).last(),
            ..s
        }),
    decreases outcomes.len(),
{
    if outcomes.len() > 0 {
        let t = after_round(s, outcomes[0]);
        let rest = outcomes.drop_first();
        lemma_main_loop_modes(t, rest);
        let ms = modes_through(s.mode, outcomes);
        let mt = modes_through(t.mode, rest);
        assert(ms == seq![s.mode] + mt);
        assert forall|i: int| 0 <= i < outcomes.len() implies mode_moves(
            #[trigger] ms[i],
            outcomes[i],
            ms[i + 1],
        ) by {
            if i > 0 {
                assert(ms[i] == mt[i - 1]);
                assert(ms[i + 1] == mt[i]);
                assert(outcomes[i] == rest[i - 1]);
            }
        }
    }
}

/// Every mode request is handed on to the main loop, whatever mode it asks
/// for and whatever the daemon's state; a stopped daemon's loop then takes
/// that mode.
pub proof fn lemma_mode_request_reaches_loop(s: SerialInterface, m: Mode, t: SerialInterface, r: Reaction)
    requires
        handles(s, SerialMessage::SetMode(m), t, r),
    ensures
        t == s,
        r == Reaction::Forward(SerialMessage::SetMode(m)),
        s.mode == Mode::Stop ==> after_round(t, RoundOutcome::Polled(Ok(Some(SerialMessage::SetMode(m))))).mode == m,
{
}

} // verus!

//! The front panel's state and what it does with each of its messages: the
//! request being edited, the history of frames, the connection controls,
//! and the messages it sends to the daemon. Sending is left to the caller:
//! every function that sends appends to an outbox, in order.

use vstd::prelude::*;
use vstd::utf8::encode_utf8;
use crate::crc::{compute_crc, crc_bytes, lemma_frame_with_checksum_checks};
use crate::hexfmt::{
    spaced_pairs, lemma_spaced_pairs_push, without_spaces, hex_decodes, hex_decode, hex_encode,
    is_hex_digit, is_hex_text, decode_hex, encode_hex,
};
use crate::modbus::{ModbusData, describable, frame_pdu, id_line, modbus_request_description, modbus_response_description};
use crate::serial_interface::{Mode, SerialMessage, Status};
use crate::settings::{BaudRate, bits_per_second};
use crate::text::{push_char, decimal_text};

verus! {

/// A failure of the panel.
#[derive(Debug, Clone, Copy, PartialEq, Eq, Structural)]
pub enum GuiError {
    /// The request is not a whole number of hex digit pairs.
    WrongRequestData,
}

impl GuiError {
    /// The error's text: empty.
    pub fn to_string(&self) -> (r: String)
        ensures
            r@ == Seq::<char>::empty(),
    {
        String::new()
    }
}

/// The line speeds the panel offers.
#[derive(Debug, Clone, Copy, PartialEq, Eq, Structural)]
pub enum Baud {
    Bauds9600,
    Bauds19200,
    Bauds38400,
    Bauds115200,
}

/// The label of a speed.
pub open spec fn baud_label(b: Baud) -> Seq<char> {
    match b {
        Baud::Bauds9600 => "9600"@,
        Baud::Bauds19200 => "19200"@,
        Baud::Bauds38400 => "38400"@,
        Baud::Bauds115200 => "115200"@,
    }
}

/// The line setting of a speed.
pub open spec fn baud_rate_of(b: Baud) -> BaudRate {
    match b {
        Baud::Bauds9600 => BaudRate::Baud9600,
        Baud::Bauds19200 => BaudRate::Baud19200,
        Baud::Bauds38400 => BaudRate::Baud38400,
        Baud::Bauds115200 => BaudRate::Baud115200,
    }
}

impl Baud {
    /// The speed in bits per second, as text.
    pub fn to_string(&self) -> (r: String)
        ensures
            r@ == baud_label(*self),
    {
        match self {
            Baud::Bauds9600 => String::from_str("9600"),
            Baud::Bauds19200 => String::from_str("19200"),
            Baud::Bauds38400 => String::from_str("38400"),
            Baud::Bauds115200 => String::from_str("115200"),
        }
    }
}

impl From<Baud> for BaudRate {
    fn from(baud: Baud) -> (r: Self) {
        match baud {
            Baud::Bauds9600 => BaudRate::Baud9600,
            Baud::Bauds19200 => BaudRate::Baud19200,
            Baud::Bauds38400 => BaudRate::Baud38400,
            Baud::Bauds115200 => BaudRate::Baud115200,
        }
    }
}

impl vstd::std_specs::convert::FromSpecImpl<Baud> for BaudRate {
    open spec fn obeys_from_spec() -> bool {
        true
    }

    open spec fn from_spec(v: Baud) -> Self {
        baud_rate_of(v)
    }
}

/// A frame in the history: received, or sent.
#[derive(Debug, Clone)]
pub enum Entry {
    Receive(Option<Vec<u8>>),
    Send(Option<Vec<u8>>),
}

/// What happens on the panel.
#[derive(Debug, Clone)]
pub enum Message {
    GuiError(GuiError),
    SerialReceive(SerialMessage),
    SerialSend(SerialMessage),
    ListPort,
    PortSelected(String),
    BaudSelected(Baud),
    ConnectClicked,
    RequestInput(String),
    ChecksumChecked(bool),
    SendClicked,
    ModbusDisplayChecked(bool),
    ClearHistory,
}

/// The most frames the history keeps.
pub const HISTORY_LIMIT: usize = 30;

/// The panel's state.
pub struct Gui {
    pub daemon_status: Option<Status>,
    pub daemon_connected: bool,
    pub ports: Option<Vec<String>>,
    pub port_selected: Option<String>,
    pub baud_rates: Vec<Baud>,
    pub baud_selected: Option<Baud>,
    /// The request being edited, hex digits only.
    pub request: String,
    pub history: Vec<Entry>,
    pub last_message: Option<SerialMessage>,
    pub internal_error: Option<GuiError>,
    pub daemon_mode: Option<Mode>,
    /// Whether a checksum is added to sent requests.
    pub checksum: bool,
    /// Whether frames are shown as Modbus messages rather than hex.
    pub modbus_display: bool,
}

/// `h` after recording `e`: the oldest entry goes once there are more than
/// `HISTORY_LIMIT`.
pub open spec fn with_entry(h: Seq<Entry>, e: Entry) -> Seq<Entry> {
    if h.len() + 1 > HISTORY_LIMIT {
        h.push(e).drop_first()
    } else {
        h.push(e)
    }
}

/// The frame sent for a request: its bytes, followed by their checksum when
/// checksums are on.
pub open spec fn request_frame(request: Seq<char>, checksum: bool) -> Seq<u8> {
    let data = hex_decode(request);
    if checksum {
        data + crc_bytes(data)
    } else {
        data
    }
}

/// The dangling last byte of `input` falls inside a multi-byte character:
/// the input, without spaces, is an odd number of bytes ending in a non-ASCII
/// character.
pub open spec fn input_splits_char(input: Seq<char>) -> bool {
    let w = without_spaces(input);
    encode_utf8(w).len() % 2 == 1 && w.last() as u32 > 0x7f
}

/// The request after typing `input` over `current`: spaces are dropped; a
/// dangling last byte is set aside; if the rest is whole hex digit pairs it
/// becomes the request, with the set-aside character kept when it is a hex
/// digit; otherwise, and when the dangling byte falls inside a multi-byte
/// character, the request stays as it was.
pub open spec fn edited_request(current: Seq<char>, input: Seq<char>) -> Seq<char> {
    let w = without_spaces(input);
    let odd = encode_utf8(w).len() % 2 == 1;
    let body = if odd { w.drop_last() } else { w };
    if input_splits_char(input) {
        current
    } else if hex_decodes(body) {
        if odd && is_hex_digit(w.last()) {
            body.push(w.last())
        } else {
            body
        }
    } else {
        current
    }
}

/// How the panel describes a frame in Modbus terms, if it can.
pub open spec fn frame_description(frame: Seq<u8>) -> Option<Seq<char>> {
    let pdu = frame_pdu(frame);
    match modbus_request_description(pdu) {
        Some(q) => Some(id_line(frame[0], q)),
        None => match modbus_response_description(pdu) {
            Some(p) => Some(id_line(frame[0], p)),
            None => None,
        },
    }
}

/// The text of a frame: its Modbus description when it is long enough to
/// hold an id and a checksum, fits an RTU frame, reads as a Modbus message
/// and the Modbus display is on; else its hex digits in pairs.
pub open spec fn frame_text(modbus_display: bool, frame: Seq<u8>) -> Seq<char> {
    match if describable(frame) { frame_description(frame) } else { None } {
        Some(d) if modbus_display => d,
        _ => spaced_pairs(hex_encode(frame)),
    }
}

/// The history line for a frame, or "Error" when there is none.
pub open spec fn data_text(modbus_display: bool, data: Option<Seq<u8>>, prefix: Seq<char>) -> Seq<char> {
    match data {
        Some(d) => prefix + seq![' '] + frame_text(modbus_display, d),
        None => "Error"@,
    }
}

/// The bytes an optional frame holds.
pub open spec fn bytes_of(data: Option<Vec<u8>>) -> Option<Seq<u8>> {
    match data {
        Some(d) => Some(d@),
        None => None,
    }
}

/// Appending a character to a text appends its encoding's bytes.
proof fn lemma_encode_utf8_push(w: Seq<char>, c: char)
    ensures
        encode_utf8(w.push(c)).len() == encode_utf8(w).len() + encode_utf8(seq![c]).len(),
    decreases w.len(),
{
    if w.len() == 0 {
        assert(w.push(c) =~= seq![c]);
    } else {
        assert(w.push(c).drop_first() =~= w.drop_first().push(c));
        assert(w.push(c)[0] == w[0]);
        lemma_encode_utf8_push(w.drop_first(), c);
    }
}

/// `c` is encoded in UTF-8 with an odd number of bytes.
fn utf8_width_is_odd(c: char) -> (r: bool)
    ensures
        r == (encode_utf8(seq![c]).len() % 2 == 1),
{
    let u = c as u32;
    proof {
        vstd::utf8::char_is_scalar(c);
        assert(seq![c].drop_first() =~= Seq::<char>::empty());
        assert(encode_utf8(seq![c]) == vstd::utf8::encode_scalar(u) + encode_utf8(Seq::<char>::empty()));
    }
    u < 0x80 || (0x800 <= u && u < 0x10000)
}

/// `c` is an ASCII hex digit.
fn is_ascii_hexdigit(c: char) -> (r: bool)
    ensures
        r == is_hex_digit(c),
{
    ('0' <= c && c <= '9') || ('a' <= c && c <= 'f') || ('A' <= c && c <= 'F')
}

impl Gui {
    /// The panel's state invariant: the history holds at most
    /// `HISTORY_LIMIT` frames and the request holds hex digits only.
    pub open spec fn wf(&self) -> bool {
        &&& self.history@.len() <= HISTORY_LIMIT
        &&& is_hex_text(self.request@)
    }

    /// A fresh panel: nothing known of the daemon, the four speeds on offer,
    /// an empty request and history, checksums on, Modbus display on.
    pub fn new() -> (r: Gui)
        ensures
            r.wf(),
            r.daemon_status is None,
            !r.daemon_connected,
            r.ports is None,
            r.port_selected is None,
            r.baud_rates@ == seq![Baud::Bauds9600, Baud::Bauds19200, Baud::Bauds38400, Baud::Bauds115200],
            r.baud_selected is None,
            r.request@ == Seq::<char>::empty(),
            r.history@ == Seq::<Entry>::empty(),
            r.last_message is None,
            r.internal_error is None,
            r.daemon_mode is None,
            r.checksum,
            r.modbus_display,
    {
        let mut baud_rates: Vec<Baud> = Vec::new();
        baud_rates.push(Baud::Bauds9600);
        baud_rates.push(Baud::Bauds19200);
        baud_rates.push(Baud::Bauds38400);
        baud_rates.push(Baud::Bauds115200);
        assert(baud_rates@ =~= seq![Baud::Bauds9600, Baud::Bauds19200, Baud::Bauds38400, Baud::Bauds115200]);
        let history: Vec<Entry> = Vec::new();
        assert(history@ =~= Seq::<Entry>::empty());
        Gui {
            daemon_status: None,
            daemon_connected: false,
            ports: None,
            port_selected: None,
            baud_rates,
            baud_selected: None,
            request: String::new(),
            history,
            last_message: None,
            internal_error: None,
            daemon_mode: None,
            checksum: true,
            modbus_display: true,
        }
    }

    /// Asks the daemon for its ports, its status and its connection.
    pub fn init(&self, outbox: &mut Vec<SerialMessage>)
        ensures
            final(outbox)@ == old(outbox)@ + seq![
                SerialMessage::ListPorts,
                SerialMessage::GetStatus,
                SerialMessage::GetConnectionStatus,
            ],
    {
        outbox.push(SerialMessage::ListPorts);
        outbox.push(SerialMessage::GetStatus);
        outbox.push(SerialMessage::GetConnectionStatus);
        assert(final(outbox)@ =~= old(outbox)@ + seq![
            SerialMessage::ListPorts,
            SerialMessage::GetStatus,
            SerialMessage::GetConnectionStatus,
        ]);
    }

    /// Selects a port, or none; a selected port is sent to the daemon.
    pub fn select_port(&mut self, str: Option<String>, outbox: &mut Vec<SerialMessage>)
        ensures
            *final(self) == (Gui { port_selected: str, ..*old(self) }),
            match str {
                Some(s) => final(outbox)@ == old(outbox)@.push(SerialMessage::SetPort(s)),
                None => final(outbox)@ == old(outbox)@,
            },
    {
        match str {
            Some(s) => {
                self.port_selected = Some(s.clone());
                outbox.push(SerialMessage::SetPort(s));
            },
            None => {
                self.port_selected = None;
            },
        }
    }

    /// Selects a speed and sends it to the daemon.
    pub fn select_bauds(&mut self, baud: Baud, outbox: &mut Vec<SerialMessage>)
        ensures
            *final(self) == (Gui { baud_selected: Some(baud), ..*old(self) }),
            final(outbox)@ == old(outbox)@.push(SerialMessage::SetBauds(baud_rate_of(baud))),
    {
        self.baud_selected = Some(baud);
        outbox.push(SerialMessage::SetBauds(BaudRate::from(baud)));
    }

    pub fn update_ports(&mut self, ports: Vec<String>)
        ensures
            *final(self) == (Gui { ports: Some(ports), ..*old(self) }),
    {
        self.ports = Some(ports);
    }

    pub fn set_last_message(&mut self, msg: SerialMessage)
        ensures
            *final(self) == (Gui { last_message: Some(msg), ..*old(self) }),
    {
        self.last_message = Some(msg);
    }

    /// Empties the request.
    pub fn clear_request(&mut self)
        ensures
            final(self).request@ == Seq::<char>::empty(),
            *final(self) == (Gui { request: final(self).request, ..*old(self) }),
    {
        self.request = String::new();
    }

    /// Empties the history.
    pub fn clear_history(&mut self)
        ensures
            final(self).history@ == Seq::<Entry>::empty(),
            *final(self) == (Gui { history: final(self).history, ..*old(self) }),
    {
        self.history.clear();
    }

    pub fn set_checksum(&mut self, checksum: bool)
        ensures
            *final(self) == (Gui { checksum, ..*old(self) }),
    {
        self.checksum = checksum;
    }

    pub fn set_modbus_display(&mut self, display: bool)
        ensures
            *final(self) == (Gui { modbus_display: display, ..*old(self) }),
    {
        self.modbus_display = display;
    }

    pub fn set_mode(&mut self, mode: Mode)
        ensures
            *final(self) == (Gui { daemon_mode: Some(mode), ..*old(self) }),
    {
        self.daemon_mode = Some(mode);
    }

    /// Takes what was typed in the request field.
    pub fn process_input(&mut self, str: String)
        ensures
            final(self).request@ == edited_request(old(self).request@, str@),
            *final(self) == (Gui { request: final(self).request, ..*old(self) }),
    {
        // The input without spaces, and the same without its last character.
        let mut compact = String::new();
        let mut head = String::new();
        let mut last: Option<char> = None;
        // Whether `compact` takes an odd number of bytes.
        let mut odd = false;
        let ghost mut index: int = 0;
        for c in it: str.chars()
            invariant
                index == it.index(),
                it.seq() == str@,
                compact@ == without_spaces(str@.take(index)),
                odd == (encode_utf8(compact@).len() % 2 == 1),
                match last {
                    Some(l) => compact@.len() > 0 && l == compact@.last() && head@ == compact@.drop_last(),
                    None => compact@.len() == 0 && head@.len() == 0,
                },
        {
            proof {
                assert(str@.take(index + 1).drop_last() =~= str@.take(index));
                assert(str@.take(index + 1).last() == c);
            }
            if c != ' ' {
                if let Some(l) = last {
                    push_char(&mut head, l);
                }
                last = Some(c);
                let ghost before = compact@;
                proof {
                    lemma_encode_utf8_push(before, c);
                }
                odd = odd != utf8_width_is_odd(c);
                push_char(&mut compact, c);
                assert(compact@.drop_last() =~= before);
            }
            proof {
                index = index + 1;
            }
        }
        assert(str@.take(index) =~= str@);
        if odd {
            if let Some(c) = last {
                if (c as u32) > 0x7f {
                    // The dangling byte falls inside a multi-byte character: not hex.
                    return;
                }
            }
        }
        let (mut body, kept) = if odd {
            let kept = match last {
                Some(c) => if is_ascii_hexdigit(c) { Some(c) } else { None },
                None => None,
            };
            (head, kept)
        } else {
            (compact, None)
        };
        if Gui::str_to_data(body.clone()).is_ok() {
            if let Some(c) = kept {
                push_char(&mut body, c);
            }
            self.request = body;
        }
    }

    /// Records a frame in the history, dropping the oldest beyond `HISTORY_LIMIT`.
    pub fn add_history(&mut self, entry: Entry)
        ensures
            final(self).history@ == with_entry(old(self).history@, entry),
            *final(self) == (Gui { history: final(self).history, ..*old(self) }),
    {
        self.history.push(entry);
        if self.history.len() > HISTORY_LIMIT {
            self.history.remove(0);
            assert(final(self).history@ =~= old(self).history@.push(entry).drop_first());
        }
    }

    /// Writes `str` in pairs of characters separated by spaces.
    pub fn add_spaces(str: String) -> (r: String)
        ensures
            r@ == spaced_pairs(str@),
    {
        let mut acc = String::new();
        // `odd`: an odd number of characters so far; `started`: at least one.
        let mut odd = false;
        let mut started = false;
        let ghost mut index: int = 0;
        for c in it: str.chars()
            invariant
                index == it.index(),
                it.seq() == str@,
                odd == (index % 2 == 1),
                started == (index > 0),
                acc@ == spaced_pairs(str@.take(index)),
        {
            proof {
                lemma_spaced_pairs_push(str@.take(index), c);
                assert(str@.take(index).push(c) =~= str@.take(index + 1));
            }
            if !odd && started {
                push_char(&mut acc, ' ');
            }
            push_char(&mut acc, c);
            odd = !odd;
            started = true;
            proof {
                index = index + 1;
            }
        }
        assert(str@.take(index) =~= str@);
        acc
    }

    /// Sends the request, followed by its checksum when checksums are on.
    pub fn send_request(&self, outbox: &mut Vec<SerialMessage>) -> (r: Result<(), GuiError>)
        ensures
            hex_decodes(self.request@) ==> (r is Ok && final(outbox)@.len() == old(outbox)@.len() + 1
                && final(outbox)@.take(old(outbox)@.len() as int) == old(outbox)@
                && (final(outbox)@.last() matches SerialMessage::Send(frame)
                && frame@ == request_frame(self.request@, self.checksum))),
            !hex_decodes(self.request@) ==> r == Err::<(), GuiError>(GuiError::WrongRequestData)
                && final(outbox)@ == old(outbox)@,
    {
        let ret = Gui::str_to_data(self.request.clone());
        if let Ok(mut data) = ret {
            if self.checksum {
                let crc = compute_crc(data.as_slice());
                data.push(crc[0]);
                data.push(crc[1]);
                assert(data@ =~= request_frame(self.request@, self.checksum));
            }
            outbox.push(SerialMessage::Send(data));
            assert(final(outbox)@.take(old(outbox)@.len() as int) =~= old(outbox)@);
            Ok(())
        } else {
            Err(GuiError::WrongRequestData)
        }
    }

    /// Records one of the panel's own errors, for the message bar.
    pub fn handle_gui_error(&mut self, e: GuiError) -> (r: Option<Message>)
        ensures
            r is None,
            *final(self) == (Gui { internal_error: Some(e), ..*old(self) }),
    {
        self.internal_error = Some(e);
        None
    }

    /// Connects, or stops the daemon and disconnects.
    pub fn toggle_connect(&self, outbox: &mut Vec<SerialMessage>)
        ensures
            self.daemon_connected ==> final(outbox)@ == old(outbox)@ + seq![
                SerialMessage::SetMode(Mode::Stop),
                SerialMessage::Disconnect,
            ],
            !self.daemon_connected ==> final(outbox)@ == old(outbox)@.push(SerialMessage::Connect),
    {
        if self.daemon_connected {
            outbox.push(SerialMessage::SetMode(Mode::Stop));
            outbox.push(SerialMessage::Disconnect);
            assert(final(outbox)@ =~= old(outbox)@ + seq![
                SerialMessage::SetMode(Mode::Stop),
                SerialMessage::Disconnect,
            ]);
        } else {
            outbox.push(SerialMessage::Connect);
        }
    }

    /// The history line for a frame: `prefix`, a space, and the frame's
    /// Modbus description or hex digits; "Error" when there is no frame.
    pub fn data_to_str(&self, data: Option<Vec<u8>>, prefix: String) -> (r: String)
        ensures
            r@ == data_text(self.modbus_display, bytes_of(data), prefix@),
    {
        match data {
            Some(data) => {
                let described = if 3 <= data.len() && data.len() <= 256 {
                    ModbusData::parse(data.as_slice()).to_string()
                } else {
                    None
                };
                let d = match described {
                    Some(d) => if self.modbus_display {
                        d
                    } else {
                        Gui::add_spaces(encode_hex(data.as_slice()))
                    },
                    None => Gui::add_spaces(encode_hex(data.as_slice())),
                };
                let mut line = prefix;
                push_char(&mut line, ' ');
                line.append(d.as_str());
                line
            },
            None => {
                proof {
                    reveal_strlit("Error");
                }
                String::from_str("Error")
            },
        }
    }

    /// Reads the request as hex digit pairs.
    pub fn str_to_data(str: String) -> (r: Result<Vec<u8>, GuiError>)
        ensures
            hex_decodes(str@) ==> (r matches Ok(d) && d@ == hex_decode(str@)),
            !hex_decodes(str@) ==> r == Err::<Vec<u8>, GuiError>(GuiError::WrongRequestData),
    {
        match decode_hex(str.as_str()) {
            Ok(data) => Ok(data),
            Err(_) => Err(GuiError::WrongRequestData),
        }
    }
}

/// How the panel shows one history entry.
pub struct HistoryRow {
    /// A sent frame (shown on the left) or a received one (on the right).
    pub sent: bool,
    pub text: String,
    /// What pressing the row does: a sent frame is sent again.
    pub on_press: Option<Message>,
}

/// What the panel shows, apart from the request field and its checkboxes.
pub struct Panel<'a> {
    /// The ports on offer in the port picker, and the one chosen.
    pub ports: Vec<String>,
    pub port_selected: Option<String>,
    /// The speeds on offer in the speed picker, and the one chosen.
    pub baud_rates: Vec<Baud>,
    pub baud_selected: Option<Baud>,
    pub connect_label: String,
    /// What the connect button does; it is disabled until a port and a speed are chosen.
    pub connect_action: Option<Message>,
    /// What the send button does; it is disabled while disconnected.
    pub send_action: Option<Message>,
    pub display_label: String,
    /// The history's header: its title, and the button that clears it.
    pub history_title: String,
    pub clear_label: String,
    pub clear_action: Message,
    /// The history's rows, oldest first.
    pub history: Vec<HistoryRow>,
    /// The message bar: the last message from the daemon and the panel's own
    /// error, each when there is one.
    pub last_message: Option<&'a SerialMessage>,
    pub internal_error: Option<GuiError>,
}

/// The ports the port picker offers: those the daemon listed, or none.
pub open spec fn offered_ports(ports: Option<Vec<String>>) -> Seq<String> {
    match ports {
        Some(p) => p@,
        None => Seq::<String>::empty(),
    }
}

/// `shown` is the message bar's view of `held`.
pub open spec fn shows_message(shown: Option<&SerialMessage>, held: Option<SerialMessage>) -> bool {
    match (shown, held) {
        (Some(a), Some(b)) => *a == b,
        (None, None) => true,
        _ => false,
    }
}

/// `row` shows `entry`.
pub open spec fn shows_entry(row: HistoryRow, modbus_display: bool, entry: Entry) -> bool {
    match entry {
        Entry::Receive(d) => {
            &&& !row.sent
            &&& row.text@ == data_text(modbus_display, bytes_of(d), "Received:  "@)
            &&& row.on_press is None
        },
        Entry::Send(d) => {
            &&& row.sent
            &&& row.text@ == data_text(modbus_display, bytes_of(d), "Sent:  "@)
            &&& match d {
                Some(v) => row.on_press matches Some(Message::SerialSend(SerialMessage::Send(w))) && w@ == v@,
                None => row.on_press is None,
            }
        },
    }
}

/// How the panel takes message `m` from the daemon in state `s`, going to
/// state `t` and sending `sent`.
pub open spec fn receives(s: Gui, m: SerialMessage, t: Gui, sent: Seq<SerialMessage>) -> bool {
    &&& t.last_message == Some(m)
    &&& match m {
        SerialMessage::Connected(c) => sent == (if c { seq![SerialMessage::SetMode(Mode::Sniff)] } else { seq![] }),
        _ => sent == Seq::<SerialMessage>::empty(),
    }
    &&& match m {
        SerialMessage::AvailablePorts(ports) => {
            &&& t == (Gui {
                ports: t.ports,
                port_selected: if ports@.len() == 0 { None } else { s.port_selected },
                last_message: t.last_message,
                ..s
            })
            &&& t.ports matches Some(p) && p@ == ports@
        },
        SerialMessage::DataSent(data) => {
            &&& t == (Gui { history: t.history, last_message: t.last_message, ..s })
            &&& t.history@ == with_entry(s.history@, t.history@.last())
            &&& t.history@.last() matches Entry::Send(Some(d)) && d@ == data@
        },
        SerialMessage::Receive(data) => {
            &&& t == (Gui { history: t.history, last_message: t.last_message, ..s })
            &&& t.history@ == with_entry(s.history@, t.history@.last())
            &&& t.history@.last() matches Entry::Receive(Some(d)) && d@ == data@
        },
        SerialMessage::Status(status) => t == (Gui {
            daemon_status: Some(status),
            last_message: t.last_message,
            ..s
        }),
        SerialMessage::Connected(c) => t == (Gui { daemon_connected: c, last_message: t.last_message, ..s }),
        SerialMessage::Mode(mode) => t == (Gui { daemon_mode: Some(mode), last_message: t.last_message, ..s }),
        SerialMessage::Send(data) => {
            &&& t == (Gui { request: t.request, last_message: t.last_message, ..s })
            &&& t.request@ == (if hex_decodes(s.request@) && hex_decode(s.request@) == data@ {
                Seq::<char>::empty()
            } else {
                s.request@
            })
        },
        _ => t == (Gui { last_message: t.last_message, ..s }),
    }
}

/// How the panel takes its message `m` in state `s`, going to state `t`,
/// sending `sent` to the daemon and asking for `command` to follow.
pub open spec fn updates(s: Gui, m: Message, t: Gui, sent: Seq<SerialMessage>, command: Option<Message>) -> bool {
    match m {
        Message::SerialReceive(msg) => receives(s, msg, t, sent) && command is None,
        Message::SerialSend(msg) => t == s && sent == seq![msg] && command is None,
        Message::PortSelected(p) => t == (Gui { port_selected: Some(p), ..s })
            && sent == seq![SerialMessage::SetPort(p)] && command is None,
        Message::BaudSelected(b) => t == (Gui { baud_selected: Some(b), ..s })
            && sent == seq![SerialMessage::SetBauds(baud_rate_of(b))] && command is None,
        Message::ConnectClicked => t == s && command is None && sent == (if s.daemon_connected {
            seq![SerialMessage::SetMode(Mode::Stop), SerialMessage::Disconnect]
        } else {
            seq![SerialMessage::Connect]
        }),
        Message::RequestInput(input) => t == (Gui { request: t.request, ..s })
            && t.request@ == edited_request(s.request@, input@) && sent == Seq::<SerialMessage>::empty()
            && command is None,
        Message::ChecksumChecked(c) => t == (Gui { checksum: c, ..s }) && sent == Seq::<SerialMessage>::empty()
            && command is None,
        Message::SendClicked => t == s && if !s.daemon_connected {
            sent == Seq::<SerialMessage>::empty() && command is None
        } else if hex_decodes(s.request@) {
            &&& command is None
            &&& sent.len() == 1
            &&& sent[0] matches SerialMessage::Send(frame) && frame@ == request_frame(s.request@, s.checksum)
        } else {
            sent == Seq::<SerialMessage>::empty() && command == Some(Message::GuiError(GuiError::WrongRequestData))
        },
        Message::ListPort => t == s && sent == seq![SerialMessage::ListPorts] && command is None,
        Message::GuiError(e) => t == (Gui { internal_error: Some(e), ..s }) && sent == Seq::<SerialMessage>::empty() && command is None,
        Message::ModbusDisplayChecked(d) => t == (Gui { modbus_display: d, ..s })
            && sent == Seq::<SerialMessage>::empty() && command is None,
        Message::ClearHistory => t == (Gui { history: t.history, ..s }) && t.history@ == Seq::<Entry>::empty()
            && sent == Seq::<SerialMessage>::empty() && command is None,
    }
}

fn clone_strings(v: &Vec<String>) -> (r: Vec<String>)
    ensures
        r@ == v@,
{
    let mut r: Vec<String> = Vec::new();
    let mut i: usize = 0;
    while i < v.len()
        invariant
            i <= v@.len(),
            r@ == v@.take(i as int),
        decreases v@.len() - i,
    {
        r.push(v[i].clone());
        assert(v@.take(i + 1) =~= v@.take(i as int).push(v@[i as int]));
        i = i + 1;
    }
    assert(v@.take(v@.len() as int) =~= v@);
    r
}

fn clone_bytes(v: &Vec<u8>) -> (r: Vec<u8>)
    ensures
        r@ == v@,
{
    let r = v.clone();
    assert(r@ =~= v@);
    r
}

fn same_bytes(a: &Vec<u8>, b: &Vec<u8>) -> (r: bool)
    ensures
        r == (a@ == b@),
{
    if a.len() != b.len() {
        return false;
    }
    let mut i: usize = 0;
    while i < a.len()
        invariant
            a@.len() == b@.len(),
            i <= a@.len(),
            forall|j: int| 0 <= j < i ==> a@[j] == b@[j],
        decreases a@.len() - i,
    {
        if a[i] != b[i] {
            return false;
        }
        i = i + 1;
    }
    assert(a@ =~= b@);
    true
}

impl Gui {
    /// How one history entry is shown.
    pub fn entry_to_row(&self, entry: &Entry) -> (r: HistoryRow)
        ensures
            shows_entry(r, self.modbus_display, *entry),
    {
        match entry {
            Entry::Receive(data) => {
                let data = match data {
                    Some(d) => Some(clone_bytes(d)),
                    None => None,
                };
                HistoryRow {
                    sent: false,
                    text: self.data_to_str(data, String::from_str("Received:  ")),
                    on_press: None,
                }
            },
            Entry::Send(data) => {
                let (shown, resend) = match data {
                    Some(d) => (Some(clone_bytes(d)), Some(Message::SerialSend(SerialMessage::Send(clone_bytes(d))))),
                    None => (None, None),
                };
                HistoryRow {
                    sent: true,
                    text: self.data_to_str(shown, String::from_str("Sent:  ")),
                    on_press: resend,
                }
            },
        }
    }

    /// Takes a message from the daemon.
    pub fn receive_serial_message(&mut self, msg: SerialMessage, outbox: &mut Vec<SerialMessage>)
        ensures
            final(outbox)@.take(old(outbox)@.len() as int) == old(outbox)@,
            final(outbox)@.len() >= old(outbox)@.len(),
            receives(*old(self), msg, *final(self), final(outbox)@.skip(old(outbox)@.len() as int)),
    {
        let ghost m = msg;
        match &msg {
            SerialMessage::AvailablePorts(ports) => {
                if ports.len() == 0 {
                    self.select_port(None, outbox);
                }
                self.ports = Some(clone_strings(ports));
            },
            SerialMessage::DataSent(data) => {
                self.add_history(Entry::Send(Some(clone_bytes(data))));
            },
            SerialMessage::Receive(data) => {
                self.add_history(Entry::Receive(Some(clone_bytes(data))));
            },
            SerialMessage::Status(status) => {
                self.daemon_status = Some(*status);
            },
            SerialMessage::Connected(connected) => {
                self.daemon_connected = *connected;
                if self.daemon_connected {
                    outbox.push(SerialMessage::SetMode(Mode::Sniff));
                }
            },
            SerialMessage::Mode(mode) => {
                self.daemon_mode = Some(*mode);
            },
            SerialMessage::Send(data) => {
                if let Ok(d) = Gui::str_to_data(self.request.clone()) {
                    if same_bytes(&d, data) {
                        // The daemon confirms the request was sent: clear the field.
                        self.request = String::new();
                    }
                }
            },
            _ => {},
        }
        self.last_message = Some(msg);
        assert(final(outbox)@.take(old(outbox)@.len() as int) =~= old(outbox)@);
        proof {
            let sent = final(outbox)@.skip(old(outbox)@.len() as int);
            if let SerialMessage::Connected(c) = m {
                if c {
                    assert(sent =~= seq![SerialMessage::SetMode(Mode::Sniff)]);
                } else {
                    assert(sent =~= Seq::<SerialMessage>::empty());
                }
            } else {
                assert(sent =~= Seq::<SerialMessage>::empty());
            }
        }
    }

    /// Takes one of the panel's messages; what the daemon must be told is
    /// appended to `outbox`, and a message that must follow is returned.
    pub fn update(&mut self, message: Message, outbox: &mut Vec<SerialMessage>) -> (r: Option<Message>)
        requires
            old(self).wf(),
        ensures
            final(self).wf(),
            final(outbox)@.take(old(outbox)@.len() as int) == old(outbox)@,
            final(outbox)@.len() >= old(outbox)@.len(),
            updates(*old(self), message, *final(self), final(outbox)@.skip(old(outbox)@.len() as int), r),
    {
        let ghost before = outbox@;
        let ghost m = message;
        let r = match message {
            Message::SerialReceive(msg) => {
                self.receive_serial_message(msg, outbox);
                None
            },
            Message::SerialSend(msg) => {
                outbox.push(msg);
                None
            },
            Message::PortSelected(str) => {
                self.select_port(Some(str), outbox);
                None
            },
            Message::BaudSelected(b) => {
                self.select_bauds(b, outbox);
                None
            },
            Message::ConnectClicked => {
                self.toggle_connect(outbox);
                None
            },
            Message::RequestInput(str) => {
                self.process_input(str);
                None
            },
            Message::ChecksumChecked(s) => {
                self.set_checksum(s);
                None
            },
            Message::SendClicked => {
                if self.daemon_connected {
                    if let Err(e) = self.send_request(outbox) {
                        Some(Message::GuiError(e))
                    } else {
                        None
                    }
                } else {
                    None
                }
            },
            Message::ListPort => {
                outbox.push(SerialMessage::ListPorts);
                None
            },
            Message::GuiError(e) => self.handle_gui_error(e),
            Message::ModbusDisplayChecked(checked) => {
                self.set_modbus_display(checked);
                None
            },
            Message::ClearHistory => {
                self.clear_history();
                None
            },
        };
        proof {
            assert(outbox@.take(before.len() as int) =~= before);
            let sent = outbox@.skip(before.len() as int);
            match m {
                Message::SerialSend(msg) => assert(sent =~= seq![msg]),
                Message::PortSelected(p) => assert(sent =~= seq![SerialMessage::SetPort(p)]),
                Message::BaudSelected(b) => assert(sent =~= seq![SerialMessage::SetBauds(baud_rate_of(b))]),
                Message::ListPort => assert(sent =~= seq![SerialMessage::ListPorts]),
                Message::ConnectClicked => {
                    if self.daemon_connected {
                        assert(sent =~= seq![SerialMessage::SetMode(Mode::Stop), SerialMessage::Disconnect]);
                    } else {
                        assert(sent =~= seq![SerialMessage::Connect]);
                    }
                },
                Message::SendClicked => {
                    if self.daemon_connected && hex_decodes(self.request@) {
                        assert(sent[0] == outbox@.last());
                    } else {
                        assert(sent =~= Seq::<SerialMessage>::empty());
                    }
                },
                Message::SerialReceive(_) => {},
                _ => assert(sent =~= Seq::<SerialMessage>::empty()),
            }
        }
        r
    }

    /// What the panel shows.
    pub fn view(&self) -> (r: Panel<'_>)
        ensures
            r.ports@ == offered_ports(self.ports),
            r.port_selected == self.port_selected,
            r.baud_rates@ == self.baud_rates@,
            r.baud_selected == self.baud_selected,
            r.history_title@ == "History"@,
            r.clear_label@ == "Clear"@,
            r.clear_action == Message::ClearHistory,
            shows_message(r.last_message, self.last_message),
            r.internal_error == self.internal_error,
            r.connect_label@ == (if self.daemon_connected { "Disconnect"@ } else { "Connect"@ }),
            r.connect_action == (if self.baud_selected is Some && self.port_selected is Some {
                Some(Message::ConnectClicked)
            } else {
                None
            }),
            r.send_action == (if self.daemon_connected { Some(Message::SendClicked) } else { None }),
            r.display_label@ == (if self.modbus_display { "Modbus"@ } else { "Hex"@ }),
            r.history@.len() == self.history@.len(),
            forall|i: int| 0 <= i < self.history@.len() ==> shows_entry(
                #[trigger] r.history@[i],
                self.modbus_display,
                self.history@[i],
            ),
    {
        let connect_label = if self.daemon_connected {
            String::from_str("Disconnect")
        } else {
            String::from_str("Connect")
        };
        let connect_action = if self.baud_selected.is_some() && self.port_selected.is_some() {
            Some(Message::ConnectClicked)
        } else {
            None
        };
        let send_action = if self.daemon_connected {
            Some(Message::SendClicked)
        } else {
            None
        };
        let display_label = if self.modbus_display {
            String::from_str("Modbus")
        } else {
            String::from_str("Hex")
        };
        let ports = match &self.ports {
            Some(p) => clone_strings(p),
            None => {
                let none: Vec<String> = Vec::new();
                assert(none@ =~= Seq::<String>::empty());
                none
            },
        };
        let port_selected = match &self.port_selected {
            Some(p) => Some(p.clone()),
            None => None,
        };
        let mut baud_rates: Vec<Baud> = Vec::new();
        let mut k: usize = 0;
        while k < self.baud_rates.len()
            invariant
                k <= self.baud_rates@.len(),
                baud_rates@ == self.baud_rates@.take(k as int),
            decreases self.baud_rates@.len() - k,
        {
            baud_rates.push(self.baud_rates[k]);
            assert(self.baud_rates@.take(k + 1) =~= self.baud_rates@.take(k as int).push(self.baud_rates@[k as int]));
            k = k + 1;
        }
        assert(self.baud_rates@.take(k as int) =~= self.baud_rates@);
        let last_message = match &self.last_message {
            Some(m) => Some(m),
            None => None,
        };
        let mut history: Vec<HistoryRow> = Vec::new();
        let mut i: usize = 0;
        while i < self.history.len()
            invariant
                i <= self.history@.len(),
                history@.len() == i,
                forall|j: int| 0 <= j < i ==> shows_entry(#[trigger] history@[j], self.modbus_display, self.history@[j]),
            decreases self.history@.len() - i,
        {
            let row = self.entry_to_row(&self.history[i]);
            history.push(row);
            i = i + 1;
        }
        Panel {
            ports,
            port_selected,
            baud_rates,
            baud_selected: self.baud_selected,
            connect_label,
            connect_action,
            send_action,
            display_label,
            history_title: String::from_str("History"),
            clear_label: String::from_str("Clear"),
            clear_action: Message::ClearHistory,
            history,
            last_message,
            internal_error: self.internal_error,
        }
    }
}

/// A request sent with checksums on passes the receiver's check: the
/// checksum of the whole frame is zero.
pub proof fn lemma_sent_request_checks(s: Gui, t: Gui, sent: Seq<SerialMessage>, command: Option<Message>)
    requires
        updates(s, Message::SendClicked, t, sent, command),
        s.checksum,
        sent.len() > 0,
    ensures
        sent[0] matches SerialMessage::Send(frame) && crc_bytes(frame@) == seq![0u8, 0u8],
{
    lemma_frame_with_checksum_checks(hex_decode(s.request@));
}

/// The history keeps the latest frames: a recorded frame is the newest one,
/// the ones before it keep their order, and at most `HISTORY_LIMIT` stay.
pub proof fn lemma_history_keeps_latest(h: Seq<Entry>, e: Entry)
    requires
        h.len() <= HISTORY_LIMIT,
    ensures
        with_entry(h, e).len() <= HISTORY_LIMIT,
        with_entry(h, e).last() == e,
        with_entry(h, e).drop_last() == h.skip(h.len() + 1 - with_entry(h, e).len()),
{
    let w = with_entry(h, e);
    if h.len() + 1 > HISTORY_LIMIT {
        assert(w.drop_last() =~= h.skip(1));
    } else {
        assert(w.drop_last() =~= h.skip(0));
    }
}

/// Typing keeps the request made of hex digits only.
pub proof fn lemma_typing_keeps_hex_request(current: Seq<char>, input: Seq<char>)
    requires
        is_hex_text(current),
    ensures
        is_hex_text(edited_request(current, input)),
{
    let w = without_spaces(input);
    let odd = encode_utf8(w).len() % 2 == 1;
    let body = if odd { w.drop_last() } else { w };
    if hex_decodes(body) && odd && is_hex_digit(w.last()) {
        let e = body.push(w.last());
        assert forall|i: int| 0 <= i < e.len() implies #[trigger] is_hex_digit(e[i]) by {
            if i < body.len() {
                assert(e[i] == body[i]);
            }
        }
    }
}

/// A hex digit takes one byte in UTF-8, so text of hex digits takes as many
/// bytes as it has characters.
proof fn lemma_hex_text_bytes(w: Seq<char>)
    requires
        is_hex_text(w),
    ensures
        encode_utf8(w).len() == w.len(),
    decreases w.len(),
{
    if w.len() > 0 {
        let c = w.last();
        assert(is_hex_digit(w[w.len() - 1]));
        assert(is_hex_text(w.drop_last())) by {
            assert forall|i: int| 0 <= i < w.drop_last().len() implies #[trigger] is_hex_digit(w.drop_last()[i]) by {
                assert(is_hex_digit(w[i]));
            }
        }
        lemma_hex_text_bytes(w.drop_last());
        lemma_encode_utf8_push(w.drop_last(), c);
        assert(w.drop_last().push(c) =~= w);
        let u = c as u32;
        assert(u < 0x80);
        assert(seq![c].drop_first() =~= Seq::<char>::empty());
        assert(encode_utf8(seq![c]) == vstd::utf8::encode_scalar(u) + encode_utf8(Seq::<char>::empty()));
    }
}

/// Typing hex digits, with or without spaces among them, makes the request
/// exactly those digits, whether they make whole pairs or end in a single
/// digit still to be completed (so a request can be typed digit by digit).
pub proof fn lemma_typed_hex_digits_become_request(current: Seq<char>, input: Seq<char>)
    requires
        is_hex_text(without_spaces(input)),
    ensures
        edited_request(current, input) == without_spaces(input),
{
    let w = without_spaces(input);
    lemma_hex_text_bytes(w);
    if w.len() % 2 == 1 {
        let body = w.drop_last();
        assert(is_hex_digit(w[w.len() - 1]));
        assert(w.last() as u32 <= 0x7f);
        assert(is_hex_text(body)) by {
            assert forall|i: int| 0 <= i < body.len() implies #[trigger] is_hex_digit(body[i]) by {
                assert(is_hex_digit(w[i]));
            }
        }
        assert(body.push(w.last()) =~= w);
    }
}

/// With the Modbus display on, a frame that fits an RTU frame is shown as
/// the request it reads as; failing that, as the response it reads as; and
/// only when it reads as neither, in hex. With the display off it is always
/// shown in hex.
pub proof fn lemma_modbus_display_text(f: Seq<u8>)
    requires
        describable(f),
    ensures
        modbus_request_description(frame_pdu(f)) matches Some(q) ==> frame_text(true, f) == id_line(f[0], q),
        modbus_request_description(frame_pdu(f)) is None ==> (modbus_response_description(frame_pdu(f)) matches Some(p)
            ==> frame_text(true, f) == id_line(f[0], p)),
        (modbus_request_description(frame_pdu(f)) is None && modbus_response_description(frame_pdu(f)) is None)
            ==> frame_text(true, f) == spaced_pairs(hex_encode(f)),
        frame_text(false, f) == spaced_pairs(hex_encode(f)),
{
}

/// Below the limit no frame is dropped: a recorded frame is simply added.
/// At the limit the history keeps its size, so it always holds the latest
/// `HISTORY_LIMIT` frames, or all of them while there are fewer.
pub proof fn lemma_history_drops_only_beyond_limit(h: Seq<Entry>, e: Entry)
    requires
        h.len() <= HISTORY_LIMIT,
    ensures
        h.len() < HISTORY_LIMIT ==> with_entry(h, e) == h.push(e),
        with_entry(h, e).len() == (if h.len() < HISTORY_LIMIT { h.len() + 1 } else { HISTORY_LIMIT as nat }),
        with_entry(h, e) == h.push(e).skip(h.len() + 1 - with_entry(h, e).len()),
{
    let w = with_entry(h, e);
    if h.len() + 1 > HISTORY_LIMIT {
        assert(w =~= h.push(e).skip(1));
    } else {
        assert(w =~= h.push(e).skip(0));
    }
}

/// The speed sent for a picked speed is the one its label names: the line
/// setting's bits per second, written in decimal, is the label.
pub proof fn lemma_picked_speed_is_its_label(b: Baud)
    ensures
        decimal_text(bits_per_second(baud_rate_of(b))) == baud_label(b),
{
    reveal_with_fuel(decimal_text, 7);
    match b {
        Baud::Bauds9600 => {
            reveal_strlit("9600");
            assert(decimal_text(9600) =~= "9600"@);
        },
        Baud::Bauds19200 => {
            reveal_strlit("19200");
            assert(decimal_text(19200) =~= "19200"@);
        },
        Baud::Bauds38400 => {
            reveal_strlit("38400");
            assert(decimal_text(38400) =~= "38400"@);
        },
        Baud::Bauds115200 => {
            reveal_strlit("115200");
            assert(decimal_text(115200) =~= "115200"@);
        },
    }
}

/// Picking a speed sends the daemon the line setting its label names, and
/// nothing else.
pub proof fn lemma_picking_speed_sends_it(s: Gui, b: Baud, t: Gui, sent: Seq<SerialMessage>, command: Option<Message>)
    requires
        updates(s, Message::BaudSelected(b), t, sent, command),
    ensures
        sent.len() == 1,
        sent[0] matches SerialMessage::SetBauds(r) && decimal_text(bits_per_second(r)) == baud_label(b),
        t.baud_selected == Some(b),
{
    lemma_picked_speed_is_its_label(b);
}

} // verus!

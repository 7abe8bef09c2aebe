//! Recognising a captured RTU frame as a Modbus request or response and
//! describing it for the history panel.

use vstd::prelude::*;
use modbus_core::{Request, Response};
use crate::text::{push_decimal, decimal_text};

verus! {

/// What modbus_core makes of a request PDU: `None` when `Request::try_from`
/// refuses the bytes, else the `Debug` text of the decoded request.
pub uninterp spec fn modbus_request_description(pdu: Seq<u8>) -> Option<Seq<char>>;

/// What modbus_core makes of a response PDU: `None` when `Response::try_from`
/// refuses the bytes, else the `Debug` text of the decoded response.
pub uninterp spec fn modbus_response_description(pdu: Seq<u8>) -> Option<Seq<char>>;

/// The big-endian word at `i`.
pub open spec fn word_at(pdu: Seq<u8>, i: int) -> int {
    pdu[i] as int * 256 + pdu[i + 1] as int
}

/// The PDUs that modbus_core decodes as requests: the fixed part of each
/// known function is there, a coil is written as 0xFF00 or 0x0000, the
/// announced data bytes are there, and any other function code is below 0x80.
pub open spec fn request_decodes(pdu: Seq<u8>) -> bool {
    pdu.len() >= 1 && {
        let code = pdu[0];
        if code == 0x01 || code == 0x02 || code == 0x03 || code == 0x04 || code == 0x06 {
            pdu.len() >= 5
        } else if code == 0x05 {
            pdu.len() >= 5 && (word_at(pdu, 3) == 0xFF00 || word_at(pdu, 3) == 0)
        } else if code == 0x0F || code == 0x10 {
            pdu.len() >= 6 && pdu.len() >= 6 + pdu[5]
        } else if code == 0x17 {
            pdu.len() >= 10 && pdu.len() >= 10 + pdu[9]
        } else {
            code < 0x80
        }
    }
}

/// The PDUs that modbus_core decodes as responses: the fixed part of each
/// known function is there, and so are the data bytes announced by reads;
/// any other function code is taken as is.
pub open spec fn response_decodes(pdu: Seq<u8>) -> bool {
    pdu.len() >= 1 && {
        let code = pdu[0];
        if code == 0x01 || code == 0x02 || code == 0x03 || code == 0x04 || code == 0x17 {
            pdu.len() >= 2 && pdu[1] + 2 <= pdu.len()
        } else if code == 0x05 {
            pdu.len() >= 3
        } else if code == 0x06 || code == 0x0F || code == 0x10 {
            pdu.len() >= 5
        } else {
            true
        }
    }
}

/// Calls modbus_core's `Request::try_from` on `pdu` and, when it decodes,
/// renders the request with its derived `Debug`. The contract states which
/// PDUs decode, as the source's length, coil and function code checks show,
/// and ties the text to `pdu` through `modbus_request_description`; the text
/// itself is left to the name.
#[verifier::external_body]
fn describe_request(pdu: &[u8]) -> (r: Option<String>)
    ensures
        match r {
            Some(t) => modbus_request_description(pdu@) == Some(t@),
            None => modbus_request_description(pdu@) is None,
        },
        r is Some <==> request_decodes(pdu@),
{
    match Request::try_from(pdu) {
        Ok(request) => Some(format!("{:?}", request)),
        Err(_) => None,
    }
}

/// Calls modbus_core's `Response::try_from` on `pdu` and, when it decodes,
/// renders the response with its derived `Debug`. The contract states which
/// PDUs decode, as the source's length checks show, and ties the text to
/// `pdu` through `modbus_response_description`; the text itself is left to
/// the name.
#[verifier::external_body]
fn describe_response(pdu: &[u8]) -> (r: Option<String>)
    ensures
        match r {
            Some(t) => modbus_response_description(pdu@) == Some(t@),
            None => modbus_response_description(pdu@) is None,
        },
        r is Some <==> response_decodes(pdu@),
{
    match Response::try_from(pdu) {
        Ok(response) => Some(format!("{:?}", response)),
        Err(_) => None,
    }
}

/// The characters of an optional text.
pub open spec fn text_of(t: Option<String>) -> Option<Seq<char>> {
    match t {
        Some(s) => Some(s@),
        None => None,
    }
}

/// The PDU of an RTU frame: the bytes between the slave id and the checksum.
pub open spec fn frame_pdu(frame: Seq<u8>) -> Seq<u8> {
    frame.subrange(1, frame.len() - 2)
}

/// A frame that can be described: at least an id and a checksum around its
/// PDU, and no more than the 256 bytes of an RTU frame.
pub open spec fn describable(frame: Seq<u8>) -> bool {
    3 <= frame.len() <= 256
}

/// A captured frame, with what it reads as, if anything.
pub struct ModbusData {
    /// The slave id, or 0 when the frame reads as neither request nor response.
    pub id: u8,
    /// The frame's bytes, padded with zeros.
    pub raw_data: [u8; 256],
    /// The number of bytes of the frame.
    pub data_len: u16,
    /// The request the PDU reads as, described.
    pub request: Option<String>,
    /// The response the PDU reads as, described.
    pub response: Option<String>,
}

/// `prefix` + "Id:" + the decimal id + ", " + `text`.
pub open spec fn id_line(id: u8, text: Seq<char>) -> Seq<char> {
    "Id:"@ + decimal_text(id as nat) + ", "@ + text
}

impl ModbusData {
    /// Reads `data` as an RTU frame.
    pub fn parse(data: &[u8]) -> (r: Self)
        requires
            describable(data@),
        ensures
            r.raw_data@.subrange(0, data@.len() as int) == data@,
            forall|i: int| data@.len() <= i < 256 ==> r.raw_data@[i] == 0u8,
            r.data_len == data@.len(),
            text_of(r.request) == modbus_request_description(frame_pdu(data@)),
            text_of(r.response) == modbus_response_description(frame_pdu(data@)),
            r.request is Some <==> request_decodes(frame_pdu(data@)),
            r.response is Some <==> response_decodes(frame_pdu(data@)),
            r.id == (if r.request is None && r.response is None { 0u8 } else { data@[0] }),
    {
        let mut raw_data = [0u8; 256];
        let mut i: usize = 0;
        while i < data.len()
            invariant
                i <= data@.len() <= 256,
                raw_data@.len() == 256,
                forall|j: int| 0 <= j < i ==> raw_data@[j] == data@[j],
                forall|j: int| i <= j < 256 ==> raw_data@[j] == 0u8,
            decreases data@.len() - i,
        {
            raw_data[i] = data[i];
            i = i + 1;
        }
        assert(raw_data@.subrange(0, data@.len() as int) =~= data@);
        let mut id = data[0];
        let data_len = data.len() as u16;
        let request = Self::parse_request(data);
        let response = Self::parse_response(data);
        if request.is_none() && response.is_none() {
            id = 0;
        }
        ModbusData { id, raw_data, data_len, request, response }
    }

    /// Reads the PDU of `data` as a request; a frame under two bytes is none.
    pub fn parse_request(data: &[u8]) -> (r: Option<String>)
        requires
            data@.len() != 2,
        ensures
            data@.len() < 2 ==> r is None,
            data@.len() >= 3 ==> text_of(r) == modbus_request_description(frame_pdu(data@)),
            data@.len() >= 3 ==> (r is Some <==> request_decodes(frame_pdu(data@))),
    {
        if data.len() < 2 {
            None
        } else {
            describe_request(&data[1..data.len() - 2])
        }
    }

    /// Reads the PDU of `data` as a response.
    pub fn parse_response(data: &[u8]) -> (r: Option<String>)
        requires
            data@.len() >= 3,
        ensures
            text_of(r) == modbus_response_description(frame_pdu(data@)),
            r is Some <==> response_decodes(frame_pdu(data@)),
    {
        describe_response(&data[1..data.len() - 2])
    }

    /// "Id:<id>, " followed by the request's description, else the
    /// response's; `None` when the frame reads as neither.
    pub fn to_string(&self) -> (r: Option<String>)
        ensures
            match (self.request, self.response) {
                (Some(q), _) => r matches Some(t) && t@ == id_line(self.id, q@),
                (None, Some(p)) => r matches Some(t) && t@ == id_line(self.id, p@),
                (None, None) => r is None,
            },
    {
        match (&self.request, &self.response) {
            (Some(text), _) => Some(Self::id_line(self.id, text)),
            (None, Some(text)) => Some(Self::id_line(self.id, text)),
            (None, None) => None,
        }
    }

    fn id_line(id: u8, text: &String) -> (r: String)
        ensures
            r@ == id_line(id, text@),
    {
        let mut line = String::from_str("Id:");
        push_decimal(&mut line, id);
        line.append(", ");
        line.append(text.as_str());
        proof {
            reveal_strlit("Id:");
            reveal_strlit(", ");
        }
        line
    }
}

} // verus!

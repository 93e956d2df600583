//! What the record-by-record service decides about a message before it decodes it:
//! where the raw bytes are kept, and which decoder gets what follows the preamble.

use crate::configuration::HEADER_LENGTH;
use vstd::prelude::*;
use vstd::slice::slice_subrange;

verus! {

/// The port whose station still sends text.
pub const TEXT_PORT: u16 = 2001;

/// Messages shorter than this are filed as small.
pub const SMALL_MESSAGE_LENGTH: usize = 100;

/// What a received message is, by its length and the port it came in on.
#[derive(Debug, Clone, Copy, PartialEq, Eq)]
pub enum Received<'a> {
    /// Shorter than the preamble.
    InvalidHeader,
    /// The preamble and nothing else.
    HeaderOnly,
    /// A line of text, for the text decoder.
    TextData(&'a [u8]),
    /// A frame, for the binary decoder.
    BinaryData(&'a [u8]),
}

/// The mathematical value of a [`Received`].
pub ghost enum ReceivedView {
    InvalidHeader,
    HeaderOnly,
    TextData(Seq<u8>),
    BinaryData(Seq<u8>),
}

impl<'a> View for Received<'a> {
    type V = ReceivedView;

    open spec fn view(&self) -> ReceivedView {
        match self {
            Received::InvalidHeader => ReceivedView::InvalidHeader,
            Received::HeaderOnly => ReceivedView::HeaderOnly,
            Received::TextData(data) => ReceivedView::TextData(data@),
            Received::BinaryData(data) => ReceivedView::BinaryData(data@),
        }
    }
}

/// What a message of these bytes is when it comes in on `local_port`.
pub open spec fn spec_split_received(message: Seq<u8>, local_port: u16) -> ReceivedView {
    if message.len() < 48 {
        ReceivedView::InvalidHeader
    } else if message.len() == 48 {
        ReceivedView::HeaderOnly
    } else if local_port == 2001 {
        ReceivedView::TextData(message.subrange(48, message.len() as int))
    } else {
        ReceivedView::BinaryData(message.subrange(48, message.len() as int))
    }
}

/// Strips the preamble off a message and says which decoder what follows is for.
pub fn split_received<'a>(tcp_buffer: &'a [u8], local_port: u16) -> (r: Received<'a>)
    ensures
        r@ == spec_split_received(tcp_buffer@, local_port),
{
    let len = tcp_buffer.len();
    if len > HEADER_LENGTH {
        let buffer_right = slice_subrange(tcp_buffer, HEADER_LENGTH, len);
        if local_port == TEXT_PORT {
            Received::TextData(buffer_right)
        } else {
            Received::BinaryData(buffer_right)
        }
    } else if len < HEADER_LENGTH {
        Received::InvalidHeader
    } else {
        Received::HeaderOnly
    }
}

/// The name of the file that keeps the raw bytes of a message.
pub open spec fn spec_binary_filename(station_name: Seq<char>, len: int, date: Seq<char>) -> Seq<
    char,
> {
    "old/binary/"@ + station_name + (if len < 100 {
        "_small_"@
    } else {
        "_full_"@
    }) + date + ".dat"@
}

/// Names the file that keeps the raw bytes of a message of `len` bytes that the
/// station sent on the day `date_today`.
pub fn binary_filename(station_name: &str, len: usize, date_today: &str) -> (name: String)
    ensures
        name@ == spec_binary_filename(station_name@, len as int, date_today@),
{
    let mut name = String::from_str("old/binary/");
    name.append(station_name);
    if len < SMALL_MESSAGE_LENGTH {
        name.append("_small_");
    } else {
        name.append("_full_");
    }
    name.append(date_today);
    name.append(".dat");
    name
}

} // verus!

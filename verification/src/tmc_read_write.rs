//! Datagrams to and from the chip.
//!
//! The tmc2209 crate computes the checksums and parses the replies; this
//! module frames the requests, says what the parser makes of each byte and
//! decides what a reply means. No byte is sent or received here.
use vstd::prelude::*;
use crate::registers::{is_register_address, Register};

verus! {

/// Why a transfer failed.
#[derive(Clone, Copy, Debug, PartialEq, Eq, Structural)]
pub enum TransportError {
    /// The shared UART could not be had.
    Unavailable,
    /// A reply came with a wrong checksum.
    Corrupt,
    /// A reply came for another register than the one asked for.
    AddressMismatch,
    /// The UART failed.
    Closed,
}

/// One transfer on the bus.
#[derive(Clone, Copy, Debug, PartialEq, Eq, Structural)]
pub enum BusOp {
    /// Read `register` of the chip at `uart_address`.
    Read { register: Register, uart_address: u8 },
    /// Write `value` to `register` of the chip at `uart_address`.
    Write { register: Register, uart_address: u8, value: u32 },
}

/// What a complete reply datagram says.
#[derive(Clone, Copy, Debug, PartialEq, Eq)]
pub struct ResponseFrame {
    /// Whether the checksum byte fits the seven bytes before it.
    pub crc_is_valid: bool,
    /// The register the reply is for, if the address byte names one.
    pub register_address: Option<u8>,
    /// The register's word.
    pub data: u32,
}

/// The first byte of every datagram: four bits to synchronize on and four
/// reserved bits.
pub const SYNC_AND_RESERVED: u8 = 0x05;

/// Set in the register byte of a datagram that writes.
pub const WRITE_FLAG: u8 = 0x80;

/// The address to which the chip sends every reply.
pub const MASTER_ADDRESS: u8 = 0xFF;

/// The parser of the tmc2209 crate for replies, which takes its bytes in
/// pieces and holds the bytes of the reply in progress.
#[verifier::external_type_specification]
#[verifier::external_body]
pub struct ExReader(tmc2209::Reader);

/// The bytes of the reply in progress that a parser holds: none while it
/// looks for the sync byte, at most seven.
pub uninterp spec fn reader_pending(reader: tmc2209::Reader) -> Seq<u8>;

/// The checksum byte that ends a datagram, over the bytes before it.
pub uninterp spec fn crc8(data: Seq<u8>) -> u8;

/// `tmc2209::crc`: the checksum of the datagram that begins with `data`, a
/// function of these bytes alone.
#[verifier::external_body]
fn crc(data: &Vec<u8>) -> (checksum: u8)
    ensures
        checksum == crc8(data@),
{
    tmc2209::crc(data)
}

/// The bytes of the reply in progress once one more byte has come. A reply
/// begins with the sync byte; the byte after it must be the master address,
/// else the search for a sync byte begins anew, with this very byte; the
/// six bytes after these are taken as they come, and the last of them
/// completes the reply and leaves nothing in progress.
pub open spec fn pending_after(pending: Seq<u8>, byte: u8) -> Seq<u8> {
    if pending.len() == 0 || (pending.len() == 1 && byte != MASTER_ADDRESS) {
        if byte == SYNC_AND_RESERVED {
            seq![byte]
        } else {
            Seq::<u8>::empty()
        }
    } else if pending.len() < 7 {
        pending.push(byte)
    } else {
        Seq::<u8>::empty()
    }
}

/// The word in the eight bytes of a reply: bytes 3 to 6, the highest first.
pub open spec fn reply_word(bytes: Seq<u8>) -> u32 {
    ((bytes[3] as u32) << 24) | ((bytes[4] as u32) << 16) | ((bytes[5] as u32) << 8) | (
    bytes[6] as u32)
}

/// What the eight bytes of a reply say: the checksum is right when the last
/// byte is the checksum of the seven before it; byte 2 is the register, if
/// it is the address of one.
pub open spec fn reply_frame(bytes: Seq<u8>) -> ResponseFrame {
    ResponseFrame {
        crc_is_valid: bytes[7] == crc8(bytes.take(7)),
        register_address: if is_register_address(bytes[2]) {
            Some(bytes[2])
        } else {
            None
        },
        data: reply_word(bytes),
    }
}

/// The reply that one more byte completes: there is one when seven bytes
/// are in progress.
pub open spec fn reply_completed(pending: Seq<u8>, byte: u8) -> Option<ResponseFrame> {
    if pending.len() == 7 {
        Some(reply_frame(pending.push(byte)))
    } else {
        None
    }
}

/// `tmc2209::Reader::default`: a parser that has seen no byte yet, so that
/// no reply is in progress.
#[verifier::external_body]
fn reader_new() -> (reader: tmc2209::Reader)
    ensures
        reader_pending(reader) == Seq::<u8>::empty(),
{
    tmc2209::Reader::default()
}

/// `tmc2209::Reader::read_response` on one byte, and what
/// `ReadResponse::crc_is_valid`, `reg_addr` and `data_u32` say of the reply
/// that this byte completes, if it completes one. The parser looks for the
/// sync byte, wants the master address next and goes back to looking if
/// another byte comes, then takes six bytes as they are; with the eighth
/// byte it hands the reply out and starts anew. The checksum is held
/// against `tmc2209::crc` of the first seven bytes, the register is what
/// `Address::try_from` makes of byte 2, the word is bytes 3 to 6.
#[verifier::external_body]
fn reader_feed(reader: &mut tmc2209::Reader, byte: u8) -> (frame: Option<ResponseFrame>)
    ensures
        reader_pending(*final(reader)) == pending_after(reader_pending(*old(reader)), byte),
        frame == reply_completed(reader_pending(*old(reader)), byte),
{
    match reader.read_response(&[byte]).1 {
        Some(response) => Some(
            ResponseFrame {
                crc_is_valid: response.crc_is_valid(),
                register_address: match response.reg_addr() {
                    Ok(address) => Some(address.into()),
                    Err(_) => None,
                },
                data: response.data_u32(),
            },
        ),
        None => None,
    }
}

/// The datagram that asks the chip at `uart_address` for `register`: the
/// sync byte, the chip's address, the register's address and the checksum.
pub open spec fn read_request_frame(uart_address: u8, register: Register) -> Seq<u8> {
    let head = seq![SYNC_AND_RESERVED, uart_address, register.spec_address()];
    head.push(crc8(head))
}

/// The datagram that writes `value` to `register` of the chip at
/// `uart_address`: the sync byte, the chip's address, the register's
/// address with the write flag, the four bytes of the word from the highest
/// down, and the checksum.
pub open spec fn write_request_frame(uart_address: u8, register: Register, value: u32) -> Seq<u8> {
    let head = seq![
        SYNC_AND_RESERVED,
        uart_address,
        register.spec_address() | WRITE_FLAG,
        (value >> 24) as u8,
        (value >> 16) as u8,
        (value >> 8) as u8,
        value as u8,
    ];
    head.push(crc8(head))
}

/// The bytes to send in order to read `register` of the chip at
/// `uart_address`.
pub fn read_request(uart_address: u8, register: Register) -> (frame: Vec<u8>)
    ensures
        frame@ == read_request_frame(uart_address, register),
{
    let mut frame: Vec<u8> = Vec::new();
    frame.push(SYNC_AND_RESERVED);
    frame.push(uart_address);
    frame.push(register.address());
    assert(frame@ =~= seq![SYNC_AND_RESERVED, uart_address, register.spec_address()]);
    let checksum = crc(&frame);
    frame.push(checksum);
    frame
}

/// The bytes to send in order to write `value` to `register` of the chip at
/// `uart_address`. The write counts as done once the UART has taken them:
/// the chip sends no reply.
pub fn write_reg(uart_address: u8, register: Register, value: u32) -> (frame: Vec<u8>)
    ensures
        frame@ == write_request_frame(uart_address, register, value),
{
    let mut frame: Vec<u8> = Vec::new();
    frame.push(SYNC_AND_RESERVED);
    frame.push(uart_address);
    frame.push(register.address() | WRITE_FLAG);
    frame.push(#[verifier::truncate] ((value >> 24) as u8));
    frame.push(#[verifier::truncate] ((value >> 16) as u8));
    frame.push(#[verifier::truncate] ((value >> 8) as u8));
    frame.push(#[verifier::truncate] (value as u8));
    assert(frame@ =~= seq![
        SYNC_AND_RESERVED,
        uart_address,
        register.spec_address() | WRITE_FLAG,
        (value >> 24) as u8,
        (value >> 16) as u8,
        (value >> 8) as u8,
        value as u8,
    ]);
    let checksum = crc(&frame);
    frame.push(checksum);
    frame
}

/// The bytes to send for one transfer.
pub open spec fn request_frame(op: BusOp) -> Seq<u8> {
    match op {
        BusOp::Read { register, uart_address } => read_request_frame(uart_address, register),
        BusOp::Write { register, uart_address, value } => write_request_frame(
            uart_address,
            register,
            value,
        ),
    }
}

/// The bytes to send for one transfer.
pub fn request(op: &BusOp) -> (frame: Vec<u8>)
    ensures
        frame@ == request_frame(*op),
{
    match *op {
        BusOp::Read { register, uart_address } => read_request(uart_address, register),
        BusOp::Write { register, uart_address, value } => write_reg(
            uart_address,
            register,
            value,
        ),
    }
}

/// What a reply means to one who asked for `register`: its word, unless the
/// checksum is wrong or the reply is for another register.
pub open spec fn response_value(frame: ResponseFrame, register: Register) -> Result<
    u32,
    TransportError,
> {
    if !frame.crc_is_valid {
        Err(TransportError::Corrupt)
    } else if frame.register_address != Some(register.spec_address()) {
        Err(TransportError::AddressMismatch)
    } else {
        Ok(frame.data)
    }
}

/// The word of `register` in a reply, or why the reply is no answer.
pub fn register_value(frame: &ResponseFrame, register: Register) -> (value: Result<
    u32,
    TransportError,
>)
    ensures
        value == response_value(*frame, register),
{
    if !frame.crc_is_valid {
        return Err(TransportError::Corrupt);
    }
    match frame.register_address {
        Some(address) => {
            if address == register.address() {
                Ok(frame.data)
            } else {
                Err(TransportError::AddressMismatch)
            }
        },
        None => Err(TransportError::AddressMismatch),
    }
}

/// How far a blocking read has come.
#[derive(Clone, Copy, Debug, PartialEq, Eq)]
pub enum ReadProgress {
    /// No complete reply yet: read the next byte.
    Pending,
    /// A reply has come: the read ends with this.
    Finished(Result<u32, TransportError>),
}

/// How far a read of `register` has come once the parser has said `frame`:
/// the first complete reply ends the read, whatever it is.
pub open spec fn progress_after(frame: Option<ResponseFrame>, register: Register) -> ReadProgress {
    match frame {
        Some(reply) => ReadProgress::Finished(response_value(reply, register)),
        None => ReadProgress::Pending,
    }
}

/// How far a read of `register` has come once the parser has said `frame`.
pub fn read_progress(frame: Option<ResponseFrame>, register: Register) -> (progress: ReadProgress)
    ensures
        progress == progress_after(frame, register),
{
    match frame {
        Some(reply) => ReadProgress::Finished(register_value(&reply, register)),
        None => ReadProgress::Pending,
    }
}

/// Whether the parser's `frame` shows that the chip is there: a complete
/// reply for DRV_STATUS with a right checksum. Any other reply is passed
/// over, and the test goes on.
pub open spec fn shows_connection(frame: Option<ResponseFrame>) -> bool {
    match frame {
        Some(reply) => response_value(reply, Register::DrvStatus) is Ok,
        None => false,
    }
}

/// Whether the parser's `frame` shows that the chip is there.
pub fn is_connection_reply(frame: Option<ResponseFrame>) -> (connected: bool)
    ensures
        connected == shows_connection(frame),
{
    match frame {
        Some(reply) => register_value(&reply, Register::DrvStatus).is_ok(),
        None => false,
    }
}

/// The receiving side of one register read: takes the bytes that arrive,
/// one at a time, until they make a reply.
pub struct ResponseReader {
    reader: tmc2209::Reader,
}

impl ResponseReader {
    /// The bytes of the reply in progress.
    pub closed spec fn pending(&self) -> Seq<u8> {
        reader_pending(self.reader)
    }

    /// A reader that has seen no byte yet.
    pub fn new() -> (reader: Self)
        ensures
            reader.pending() == Seq::<u8>::empty(),
    {
        ResponseReader { reader: reader_new() }
    }

    /// Takes one byte; says what the reply is, if this byte completes one.
    pub fn feed(&mut self, byte: u8) -> (frame: Option<ResponseFrame>)
        ensures
            final(self).pending() == pending_after(old(self).pending(), byte),
            frame == reply_completed(old(self).pending(), byte),
    {
        reader_feed(&mut self.reader, byte)
    }
}

/// One byte of a blocking read of `register`: the caller sends the read
/// request, then hands over each byte that arrives until the result is no
/// longer `Pending`. The byte that completes a reply ends the read: with the
/// word of the reply, or with `Corrupt` or `AddressMismatch` if the reply is
/// no answer.
///
/// A read never ends here for want of the UART: that is the caller's to say.
pub fn read_reg_blocking(reader: &mut ResponseReader, byte: u8, register: Register) -> (progress:
    ReadProgress)
    ensures
        final(reader).pending() == pending_after(old(reader).pending(), byte),
        progress == progress_after(reply_completed(old(reader).pending(), byte), register),
{
    let frame = reader.feed(byte);
    read_progress(frame, register)
}

/// One byte of a connection test: the caller sends a read request for
/// DRV_STATUS, then hands over each byte that arrives until this is true or
/// the UART fails. It is true with the byte that completes a reply for
/// DRV_STATUS with a right checksum; any other reply is passed over.
pub fn test_uart_connection(reader: &mut ResponseReader, byte: u8) -> (connected: bool)
    ensures
        final(reader).pending() == pending_after(old(reader).pending(), byte),
        connected == shows_connection(reply_completed(old(reader).pending(), byte)),
{
    let frame = reader.feed(byte);
    is_connection_reply(frame)
}

} // verus!

//! The framing of Chrome and Firefox Native Messaging: each message is four
//! bytes of length, in the machine's byte order, followed by that many bytes
//! of JSON.
use crate::error::{Error, ErrorView};
use crate::text::{decimal, push_decimal};
use vstd::prelude::*;
use vstd::string::*;

verus! {

/// The largest message that Native Messaging sends to a host, in bytes.
pub const MAX_MESSAGE_BYTES: usize = 1048576;

/// Four bytes read as a little-endian integer.
pub open spec fn le_u32(b: Seq<u8>) -> nat {
    b[0] as nat + 256 * (b[1] as nat) + 65536 * (b[2] as nat) + 16777216 * (b[3] as nat)
}

/// Four bytes read as a big-endian integer.
pub open spec fn be_u32(b: Seq<u8>) -> nat {
    b[3] as nat + 256 * (b[2] as nat) + 65536 * (b[1] as nat) + 16777216 * (b[0] as nat)
}

/// `u32::from_ne_bytes`: the bytes read in the byte order of the machine,
/// which is little-endian or big-endian; which of the two is not stated.
#[verifier::external_body]
fn u32_from_native_bytes(bytes: [u8; 4]) -> (n: u32)
    ensures
        n == le_u32(bytes@) || n == be_u32(bytes@),
{
    u32::from_ne_bytes(bytes)
}

/// The payload length that a frame header announces: the error where it
/// exceeds the limit of Native Messaging.
pub open spec fn length_of(length: u32) -> Result<usize, ErrorView> {
    if length > MAX_MESSAGE_BYTES {
        Err(
            ErrorView::Provider(
                "native messaging frame too large: "@ + decimal(length as nat) + " bytes"@,
            ),
        )
    } else {
        Ok(length as usize)
    }
}

/// The payload length that a decoded frame header announces.
pub fn check_frame_length(length: u32) -> (r: Result<usize, Error>)
    ensures
        match r {
            Ok(n) => length_of(length) == Ok::<usize, ErrorView>(n),
            Err(e) => length_of(length) == Err::<usize, ErrorView>(e@),
        },
{
    if length as usize > MAX_MESSAGE_BYTES {
        let mut message = String::from_str("native messaging frame too large: ");
        push_decimal(&mut message, length as u64);
        message.append(" bytes");
        return Err(Error::Provider(message));
    }
    Ok(length as usize)
}

/// The payload length that a frame header announces, the header read in
/// the machine's byte order.
pub fn frame_length(header: [u8; 4]) -> (r: Result<usize, Error>)
    ensures
        exists|length: u32|
            #![trigger length_of(length)]
            (length == le_u32(header@) || length == be_u32(header@)) && match r {
                Ok(n) => length_of(length) == Ok::<usize, ErrorView>(n),
                Err(e) => length_of(length) == Err::<usize, ErrorView>(e@),
            },
{
    let length = u32_from_native_bytes(header);
    check_frame_length(length)
}

/// The error for a frame header that could not be read.
pub fn length_read_error(detail: &str) -> (e: Error)
    ensures
        e@ == ErrorView::Provider("failed to read native messaging frame length: "@ + detail@),
{
    Error::Provider(String::from_str("failed to read native messaging frame length: ").concat(detail))
}

/// The error for a frame payload that could not be read.
pub fn payload_read_error(detail: &str) -> (e: Error)
    ensures
        e@ == ErrorView::Provider("failed to read native messaging payload: "@ + detail@),
{
    Error::Provider(String::from_str("failed to read native messaging payload: ").concat(detail))
}

/// The error for a payload that is not a valid message.
pub fn invalid_payload_error(detail: &str) -> (e: Error)
    ensures
        e@ == ErrorView::Provider("invalid native messaging payload: "@ + detail@),
{
    Error::Provider(String::from_str("invalid native messaging payload: ").concat(detail))
}

/// The error for the end of the stream of frames.
pub fn channel_closed_error() -> (e: Error)
    ensures
        e@ == ErrorView::Provider("native messaging channel closed"@),
{
    Error::Provider(String::from_str("native messaging channel closed"))
}

} // verus!

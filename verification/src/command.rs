//! Commands of the Redis protocol, and their parsing from frames.

use vstd::prelude::*;
use vstd::utf8::{decode_utf8, valid_utf8};
use mini_redis::Command as WireCommand;
use crate::frame::{RespFrame, RespFrameView};

verus! {

/// A command that a client sent, as the server sees it.
pub enum Command {
    Get { key: String },
    SetValue { key: String, value: Vec<u8> },
    Publish,
    Subscribe,
    Unsubscribe,
    Unknown,
}

/// The mathematical value of a [`Command`].
pub enum CommandView {
    Get { key: Seq<char> },
    SetValue { key: Seq<char>, value: Seq<u8> },
    Publish,
    Subscribe,
    Unsubscribe,
    Unknown,
}

impl View for Command {
    type V = CommandView;

    open spec fn view(&self) -> CommandView {
        match self {
            Command::Get { key } => CommandView::Get { key: key@ },
            Command::SetValue { key, value } => CommandView::SetValue { key: key@, value: value@ },
            Command::Publish => CommandView::Publish,
            Command::Subscribe => CommandView::Subscribe,
            Command::Unsubscribe => CommandView::Unsubscribe,
            Command::Unknown => CommandView::Unknown,
        }
    }
}

/// What the server keeps of the command that `mini_redis::Command::from_frame`
/// reads from a frame (the key and value of `GET` and `SET`, the kind of any
/// other command), or `None` where it reports a protocol error.
pub uninterp spec fn command_of_frame(frame: RespFrameView) -> Option<CommandView>;

/// The bytes of the command name `get`.
pub open spec fn get_name_bytes() -> Seq<u8> {
    seq![0x67u8, 0x65u8, 0x74u8]
}

/// The bytes of the command name `set`.
pub open spec fn set_name_bytes() -> Seq<u8> {
    seq![0x73u8, 0x65u8, 0x74u8]
}

/// The frame in which a client asks for the value of `key`: an array of the
/// bulk strings `get` and `key`.
pub open spec fn get_request(key: Seq<u8>) -> RespFrameView {
    RespFrameView::Array(seq![RespFrameView::Bulk(get_name_bytes()), RespFrameView::Bulk(key)])
}

/// The frame in which a client stores `value` under `key`: an array of the
/// bulk strings `set`, `key` and `value`.
pub open spec fn set_request(key: Seq<u8>, value: Seq<u8>) -> RespFrameView {
    RespFrameView::Array(
        seq![RespFrameView::Bulk(set_name_bytes()), RespFrameView::Bulk(key), RespFrameView::Bulk(value)],
    )
}

/// The frame type of `mini_redis`, carried through as an opaque value.
#[verifier::external_type_specification]
#[verifier::external_body]
pub struct ExWireFrame(mini_redis::Frame);

/// Turns a frame of ours into the frame type of `mini_redis`, variant by
/// variant; no contract is stated of it.
#[verifier::external_body]
fn to_wire_frame(f: RespFrame) -> mini_redis::Frame {
    match f {
        RespFrame::Simple(s) => mini_redis::Frame::Simple(s),
        RespFrame::Error(s) => mini_redis::Frame::Error(s),
        RespFrame::Integer(n) => mini_redis::Frame::Integer(n),
        RespFrame::Bulk(b) => mini_redis::Frame::Bulk(bytes::Bytes::from(b)),
        RespFrame::Null => mini_redis::Frame::Null,
        RespFrame::Array(v) => mini_redis::Frame::Array(v.into_iter().map(to_wire_frame).collect()),
    }
}

/// Calls `mini_redis::Command::from_frame` on the frame and keeps what the
/// server needs of the command it returns. Claimed of it: the result is the
/// named `command_of_frame` of the frame (`None` for a protocol error); a
/// frame that is not an array is a protocol error (`Parse::new`); the array
/// of the bulk strings `get` and a UTF-8 key is a `Get` of that key, and the
/// array of the bulk strings `set`, a UTF-8 key and a value is a `Set` of
/// that key and value (`Get::parse_frames`, `Set::parse_frames`, the name
/// lower-cased, nothing left over). What it answers for other arrays is not
/// stated beyond the name.
#[verifier::external_body]
pub(crate) fn parse_command(frame: RespFrame) -> (res: Option<Command>)
    ensures
        match res {
            Some(c) => command_of_frame(frame@) == Some(c@),
            None => command_of_frame(frame@) == None::<CommandView>,
        },
        !(frame@ is Array) ==> res.is_none(),
        forall|k: Seq<u8>|
            frame@ == get_request(k) && valid_utf8(k) ==> res.is_some() && res.unwrap()@
                == (CommandView::Get { key: decode_utf8(k) }),
        forall|k: Seq<u8>, v: Seq<u8>|
            frame@ == set_request(k, v) && valid_utf8(k) ==> res.is_some() && res.unwrap()@
                == (CommandView::SetValue { key: decode_utf8(k), value: v }),
{
    match WireCommand::from_frame(to_wire_frame(frame)) {
        Ok(WireCommand::Get(c)) => Some(Command::Get { key: c.key().to_string() }),
        Ok(WireCommand::Set(c)) => Some(Command::SetValue { key: c.key().to_string(), value: c.value().to_vec() }),
        Ok(WireCommand::Publish(_)) => Some(Command::Publish),
        Ok(WireCommand::Subscribe(_)) => Some(Command::Subscribe),
        Ok(WireCommand::Unsubscribe(_)) => Some(Command::Unsubscribe),
        Ok(WireCommand::Unknown(_)) => Some(Command::Unknown),
        Err(_) => None,
    }
}

} // verus!

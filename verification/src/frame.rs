//! Frames of the Redis wire protocol, as plain values.

use vstd::prelude::*;

verus! {

/// One frame of the Redis protocol: what the server reads from and writes to
/// a connection.
pub enum RespFrame {
    Simple(String),
    Error(String),
    Integer(u64),
    Bulk(Vec<u8>),
    Null,
    Array(Vec<RespFrame>),
}

/// The mathematical value of a [`RespFrame`].
pub enum RespFrameView {
    Simple(Seq<char>),
    Error(Seq<char>),
    Integer(u64),
    Bulk(Seq<u8>),
    Null,
    Array(Seq<RespFrameView>),
}

/// The value of a frame.
pub open spec fn frame_view(f: RespFrame) -> RespFrameView
    decreases f, 0int,
{
    match f {
        RespFrame::Simple(s) => RespFrameView::Simple(s@),
        RespFrame::Error(s) => RespFrameView::Error(s@),
        RespFrame::Integer(n) => RespFrameView::Integer(n),
        RespFrame::Bulk(b) => RespFrameView::Bulk(b@),
        RespFrame::Null => RespFrameView::Null,
        RespFrame::Array(v) => RespFrameView::Array(frames_view(v@)),
    }
}

/// The values of a sequence of frames, element by element.
pub open spec fn frames_view(s: Seq<RespFrame>) -> Seq<RespFrameView>
    decreases s, 1int,
{
    if s.len() == 0 {
        Seq::empty()
    } else {
        seq![frame_view(s[0])] + frames_view(s.subrange(1, s.len() as int))
    }
}

impl View for RespFrame {
    type V = RespFrameView;

    open spec fn view(&self) -> RespFrameView {
        frame_view(*self)
    }
}

} // verus!

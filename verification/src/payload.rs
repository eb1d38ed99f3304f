//! Message payloads as the host sees them, frames as a connection reads them,
//! and the rule that decides which frames reach the host.

use vstd::prelude::*;

verus! {

/// A message that the host publishes or drains: text or binary, nothing else.
#[derive(Debug, PartialEq, Eq)]
pub enum MessagePayload {
    Text(String),
    Binary(Vec<u8>),
}

/// What a `MessagePayload` holds.
pub enum PayloadView {
    Text(Seq<char>),
    Binary(Seq<u8>),
}

impl View for MessagePayload {
    type V = PayloadView;

    open spec fn view(&self) -> PayloadView {
        match self {
            MessagePayload::Text(text) => PayloadView::Text(text@),
            MessagePayload::Binary(bytes) => PayloadView::Binary(bytes@),
        }
    }
}

/// A frame read from a client. Besides the two data kinds a client may send
/// the three control kinds, which a connection consumes itself.
#[derive(Debug, PartialEq, Eq)]
pub enum Frame {
    Text(String),
    Binary(Vec<u8>),
    Ping(Vec<u8>),
    Pong(Vec<u8>),
    Close,
}

/// What a `Frame` holds.
pub enum FrameView {
    Text(Seq<char>),
    Binary(Seq<u8>),
    Ping(Seq<u8>),
    Pong(Seq<u8>),
    Close,
}

impl View for Frame {
    type V = FrameView;

    open spec fn view(&self) -> FrameView {
        match self {
            Frame::Text(text) => FrameView::Text(text@),
            Frame::Binary(bytes) => FrameView::Binary(bytes@),
            Frame::Ping(bytes) => FrameView::Ping(bytes@),
            Frame::Pong(bytes) => FrameView::Pong(bytes@),
            Frame::Close => FrameView::Close,
        }
    }
}

/// A copy of some bytes, equal to them.
fn copy_bytes(bytes: &Vec<u8>) -> (copy: Vec<u8>)
    ensures
        copy@ == bytes@,
{
    let copy = bytes.clone();
    assert(copy@ =~= bytes@);
    copy
}

impl Clone for MessagePayload {
    /// A payload of the same kind and content.
    fn clone(&self) -> (copy: MessagePayload)
        ensures
            copy@ == self@,
    {
        match self {
            MessagePayload::Text(text) => MessagePayload::Text(text.clone()),
            MessagePayload::Binary(bytes) => MessagePayload::Binary(copy_bytes(bytes)),
        }
    }
}

impl Clone for Frame {
    /// A frame of the same kind and content.
    fn clone(&self) -> (copy: Frame)
        ensures
            copy@ == self@,
    {
        match self {
            Frame::Text(text) => Frame::Text(text.clone()),
            Frame::Binary(bytes) => Frame::Binary(copy_bytes(bytes)),
            Frame::Ping(bytes) => Frame::Ping(copy_bytes(bytes)),
            Frame::Pong(bytes) => Frame::Pong(copy_bytes(bytes)),
            Frame::Close => Frame::Close,
        }
    }
}

impl FrameView {
    /// Ping, Pong and Close are control frames.
    pub open spec fn is_control(self) -> bool {
        self is Ping || self is Pong || self is Close
    }

    /// The payload that a frame hands to the host: its own content for a data
    /// frame, none for a control frame.
    pub open spec fn payload(self) -> Option<PayloadView> {
        match self {
            FrameView::Text(text) => Some(PayloadView::Text(text)),
            FrameView::Binary(bytes) => Some(PayloadView::Binary(bytes)),
            FrameView::Ping(_) => None,
            FrameView::Pong(_) => None,
            FrameView::Close => None,
        }
    }
}

impl PayloadView {
    /// The data frame that carries this payload.
    pub open spec fn frame(self) -> FrameView {
        match self {
            PayloadView::Text(text) => FrameView::Text(text),
            PayloadView::Binary(bytes) => FrameView::Binary(bytes),
        }
    }
}

/// The view of a payload that may be absent.
pub open spec fn option_view(p: Option<MessagePayload>) -> Option<PayloadView> {
    match p {
        Some(payload) => Some(payload@),
        None => None,
    }
}

/// The views of a sequence of payloads, in order.
pub open spec fn payload_views(payloads: Seq<MessagePayload>) -> Seq<PayloadView> {
    Seq::new(payloads.len(), |i: int| payloads[i]@)
}

/// What a drain hands to the host for the frames it pulled: the payloads of
/// the data frames, in the order in which the frames came.
pub open spec fn surfaced(frames: Seq<FrameView>) -> Seq<PayloadView>
    decreases frames.len(),
{
    if frames.len() == 0 {
        Seq::empty()
    } else {
        let earlier = surfaced(frames.drop_last());
        match frames.last().payload() {
            Some(p) => earlier.push(p),
            None => earlier,
        }
    }
}

impl Frame {
    /// The payload that a data frame carries, as the value that is moved out
    /// of it; none for a control frame.
    pub open spec fn data(self) -> Option<MessagePayload> {
        match self {
            Frame::Text(text) => Some(MessagePayload::Text(text)),
            Frame::Binary(bytes) => Some(MessagePayload::Binary(bytes)),
            Frame::Ping(_) => None,
            Frame::Pong(_) => None,
            Frame::Close => None,
        }
    }

    /// Hands out the payload of a data frame, unchanged and of the same kind;
    /// a control frame yields nothing.
    pub fn into_payload(self) -> (payload: Option<MessagePayload>)
        ensures
            payload == self.data(),
            option_view(payload) == self@.payload(),
    {
        match self {
            Frame::Text(text) => Some(MessagePayload::Text(text)),
            Frame::Binary(bytes) => Some(MessagePayload::Binary(bytes)),
            Frame::Ping(_) => None,
            Frame::Pong(_) => None,
            Frame::Close => None,
        }
    }
}

/// A payload that a client sends in the data frame of its kind comes out of
/// that frame again as it went in: same kind, same content. A data frame is
/// no control frame.
pub proof fn law_round_trip(p: PayloadView)
    ensures
        p.frame().payload() == Some(p),
        !p.frame().is_control(),
        p is Text <==> p.frame() is Text,
        p is Binary <==> p.frame() is Binary,
{
}

/// A frame hands a payload to the host exactly if it is no control frame.
pub proof fn law_control_frames_carry_nothing(f: FrameView)
    ensures
        f.payload() is None <==> f.is_control(),
{
}

/// What is drained of two runs of frames, one after the other, is what is
/// drained of the first followed by what is drained of the second.
pub proof fn law_surfaced_concat(a: Seq<FrameView>, b: Seq<FrameView>)
    ensures
        surfaced(a + b) == surfaced(a) + surfaced(b),
    decreases b.len(),
{
    if b.len() == 0 {
        assert(a + b == a);
        assert(surfaced(a) + surfaced(b) == surfaced(a));
    } else {
        assert((a + b).drop_last() == a + b.drop_last());
        assert((a + b).last() == b.last());
        law_surfaced_concat(a, b.drop_last());
        match b.last().payload() {
            Some(p) => {
                assert(surfaced(a + b) == (surfaced(a) + surfaced(b.drop_last())).push(p));
                assert(surfaced(a) + surfaced(b.drop_last()).push(p) == (surfaced(a) + surfaced(
                    b.drop_last(),
                )).push(p));
            },
            None => {},
        }
    }
}

/// A payload that a client has sent, whatever frames came before and after
/// it, is in what is drained: unchanged, once for the frame that carried it,
/// and in its place among the payloads of the other frames.
pub proof fn law_sent_payload_is_drained(
    before: Seq<FrameView>,
    p: PayloadView,
    after: Seq<FrameView>,
)
    ensures
        surfaced(before.push(p.frame()) + after) == surfaced(before).push(p) + surfaced(after),
{
    law_surfaced_concat(before.push(p.frame()), after);
    assert(before.push(p.frame()).drop_last() == before);
    assert(before.push(p.frame()).last() == p.frame());
}

/// Nothing that is drained comes from a Ping, a Pong or a Close: each payload
/// drained is the content of a data frame among those pulled. Of control
/// frames alone, and of no frames, nothing is drained.
pub proof fn law_control_frames_hidden(frames: Seq<FrameView>)
    ensures
        surfaced(frames).len() <= frames.len(),
        forall|j: int|
            0 <= j < surfaced(frames).len() ==> exists|i: int|
                0 <= i < frames.len() && !frames[i].is_control() && frames[i].payload() == Some(
                    #[trigger] surfaced(frames)[j],
                ),
        (forall|i: int| 0 <= i < frames.len() ==> (#[trigger] frames[i]).is_control())
            ==> surfaced(frames).len() == 0,
    decreases frames.len(),
{
    if frames.len() > 0 {
        let earlier = frames.drop_last();
        law_control_frames_hidden(earlier);
        let out = surfaced(frames);
        assert forall|j: int| 0 <= j < out.len() implies exists|i: int|
            0 <= i < frames.len() && !frames[i].is_control() && frames[i].payload() == Some(
                #[trigger] out[j],
            ) by {
            if j < surfaced(earlier).len() {
                assert(out[j] == surfaced(earlier)[j]);
                let i = choose|i: int|
                    0 <= i < earlier.len() && !earlier[i].is_control() && earlier[i].payload()
                        == Some(surfaced(earlier)[j]);
                assert(frames[i] == earlier[i]);
            } else {
                let i = frames.len() - 1;
                assert(frames[i] == frames.last());
                assert(frames[i].payload() == Some(out[j]));
            }
        }
        if forall|i: int| 0 <= i < frames.len() ==> (#[trigger] frames[i]).is_control() {
            assert(frames.last() == frames[frames.len() - 1]);
            assert forall|i: int| 0 <= i < earlier.len() implies (#[trigger] earlier[i]).is_control() by {
                assert(earlier[i] == frames[i]);
            }
        }
    }
}

} // verus!

//! The receiving side of the UART: bytes in, valid frames out.

use vstd::prelude::*;

use crate::bytes;
use crate::master::protocol;
use crate::master::protocol_laws;

verus! {

/// Every frame that can be taken from the bytes, in order, and the bytes kept for later.
pub open spec fn all_frames(buf: Seq<u8>) -> (Seq<Seq<u8>>, Seq<u8>)
    decreases buf.len(),
{
    proof {
        lemma_pop_shrinks(buf);
    }
    match protocol::next_frame(buf) {
        (Some(frame), kept) => {
            let later = all_frames(kept);
            (seq![frame] + later.0, later.1)
        },
        (None, kept) => (Seq::empty(), kept),
    }
}

/// A frame that is handed out is gone from the bytes that are kept.
pub proof fn lemma_pop_shrinks(buf: Seq<u8>)
    ensures
        protocol::next_frame(buf).0 matches Some(frame) ==> protocol::next_frame(buf).1.len()
            + frame.len() <= buf.len() && frame.len() >= protocol::MIN_FRAME_SIZE,
    decreases buf.len(),
{
    protocol::lemma_from_sof(buf);
    let rest = protocol::from_sof(buf);
    if rest.len() >= protocol::MIN_FRAME_SIZE {
        let len = bytes::le16_value(rest[1], rest[2]);
        if len > protocol::MAX_PAYLOAD_SIZE {
            lemma_pop_shrinks(rest.skip(1));
        } else if rest.len() >= protocol::MIN_FRAME_SIZE + len {
            lemma_pop_shrinks(rest.skip(protocol::MIN_FRAME_SIZE + len));
        }
    }
}

/// Adds freshly read bytes to the stream and hands out every frame that is now complete.
pub fn receive(stream_buf: &mut Vec<u8>, chunk: &[u8]) -> (frames: Vec<Vec<u8>>)
    ensures
        bytes::views(frames@) == all_frames(old(stream_buf)@ + chunk@).0,
        final(stream_buf)@ == all_frames(old(stream_buf)@ + chunk@).1,
{
    bytes::push_all(stream_buf, chunk);
    let ghost all = stream_buf@;
    let mut frames: Vec<Vec<u8>> = Vec::new();
    assert(bytes::views(frames@) + all_frames(all).0 =~= all_frames(all).0);
    loop
        invariant
            all == old(stream_buf)@ + chunk@,
            bytes::views(frames@) + all_frames(stream_buf@).0 == all_frames(all).0,
            all_frames(stream_buf@).1 == all_frames(all).1,
        decreases stream_buf@.len(),
    {
        let ghost before = stream_buf@;
        let ghost done = frames@;
        proof {
            lemma_pop_shrinks(before);
        }
        match protocol::pop_next_valid_frame(stream_buf) {
            Some(frame) => {
                let ghost this = frame@;
                frames.push(frame);
                proof {
                    let later = all_frames(stream_buf@);
                    assert(bytes::views(frames@) + later.0 =~= bytes::views(done) + (seq![this] + later.0));
                }
            },
            None => {
                assert(bytes::views(frames@) + all_frames(before).0 =~= bytes::views(frames@));
                return frames;
            },
        }
    }
}

/// Reading a stream in two pieces gives the same frames, in the same order, and keeps the same
/// bytes as reading it in one.
pub proof fn law_reads_can_be_split(first: Seq<u8>, more: Seq<u8>)
    ensures
        all_frames(first + more).0 == all_frames(first).0 + all_frames(
            all_frames(first).1 + more,
        ).0,
        all_frames(first + more).1 == all_frames(all_frames(first).1 + more).1,
    decreases first.len(),
{
    protocol_laws::law_search_resumes(first, more);
    lemma_pop_shrinks(first);
    match protocol::next_frame(first) {
        (Some(frame), kept) => {
            law_reads_can_be_split(kept, more);
            let tail = all_frames(all_frames(kept).1 + more).0;
            assert(seq![frame] + (all_frames(kept).0 + tail) =~= (seq![frame] + all_frames(kept).0)
                + tail);
        },
        (None, kept) => {
            assert(Seq::<Seq<u8>>::empty() + all_frames(kept + more).0 =~= all_frames(
                kept + more,
            ).0);
            assert(all_frames(first + more) == all_frames(kept + more));
        },
    }
}

/// The bytes of frames sent one after another.
pub open spec fn back_to_back(frames: Seq<Seq<u8>>) -> Seq<u8>
    decreases frames.len(),
{
    if frames.len() == 0 {
        Seq::empty()
    } else {
        frames[0] + back_to_back(frames.skip(1))
    }
}

/// Frames sent one after another arrive one by one, and nothing is left over.
pub proof fn law_frames_arrive_in_order(frames: Seq<Seq<u8>>)
    requires
        forall|i: int|
            0 <= i < frames.len() ==> protocol::frame_content(#[trigger] frames[i]) is Ok,
    ensures
        all_frames(back_to_back(frames)) == (frames, Seq::<u8>::empty()),
    decreases frames.len(),
{
    if frames.len() == 0 {
        assert(protocol::from_sof(Seq::<u8>::empty()) == Seq::<u8>::empty());
        assert(all_frames(back_to_back(frames)).0 =~= frames);
    } else {
        assert forall|i: int| 0 <= i < frames.skip(1).len() implies protocol::frame_content(
            #[trigger] frames.skip(1)[i],
        ) is Ok by {
            assert(frames.skip(1)[i] == frames[i + 1]);
        }
        law_frames_arrive_in_order(frames.skip(1));
        protocol_laws::law_frame_in_front_is_popped(frames[0], back_to_back(frames.skip(1)));
        assert(seq![frames[0]] + frames.skip(1) =~= frames);
    }
}

/// Whatever arrives, only valid frames are handed out: the first that is found, then those of
/// the bytes behind it; when none is left the bytes that may become one are kept.
pub proof fn law_every_frame_is_handed_out(buf: Seq<u8>)
    ensures
        forall|i: int|
            0 <= i < all_frames(buf).0.len() ==> protocol::frame_content(
                #[trigger] all_frames(buf).0[i],
            ) is Ok,
        match protocol::next_frame(buf).0 {
            Some(frame) => {
                let later = all_frames(protocol::next_frame(buf).1);
                &&& all_frames(buf).0.len() == later.0.len() + 1
                &&& all_frames(buf).0[0] == frame
                &&& all_frames(buf).0.skip(1) == later.0
                &&& all_frames(buf).1 == later.1
            },
            None => all_frames(buf).0.len() == 0 && all_frames(buf).1 == protocol::next_frame(buf).1,
        },
    decreases buf.len(),
{
    protocol_laws::law_popped_frame_is_valid(buf);
    lemma_pop_shrinks(buf);
    if let (Some(frame), kept) = protocol::next_frame(buf) {
        law_every_frame_is_handed_out(kept);
        let later = all_frames(kept);
        let all = all_frames(buf).0;
        assert(all == seq![frame] + later.0);
        assert(all.skip(1) =~= later.0);
        assert forall|i: int| 0 <= i < all.len() implies protocol::frame_content(
            #[trigger] all[i],
        ) is Ok by {
            if i > 0 {
                assert(all[i] == later.0[i - 1]);
            }
        }
    }
}

} // verus!

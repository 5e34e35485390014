//! Streaming bodies for requests and responses.
//!
//! A payload is carried as an ordered, finite sequence of [`Frame`]s — data
//! chunks followed, possibly, by a trailer header set — produced through the
//! pull-based [`Body`] interface: each poll yields the next frame, a
//! not-ready signal, the end of the stream, or a producer-defined failure.
//! A body also declares its total length up front, either exactly or as
//! unknown; a zero-length body is an explicit state of its own, decided
//! without reading any frame.
//!
//! [`BufferedBody`] is the concrete adapter over an already-fully-buffered
//! frame sequence (the receive path): it hands frames out exactly in the
//! order they were produced, never coalescing or splitting them.

use vstd::prelude::*;

verus! {

/// One unit of a streamed payload: an opaque chunk of data bytes, or the
/// trailer header set sent after all data frames.
#[derive(Debug)]
pub enum Frame {
    Data(Vec<u8>),
    Trailers(http::HeaderMap),
}

/// The declared total byte length of a body: exactly this many data bytes,
/// or unknown. Exactness is what lets a fixed content length be framed
/// without reading the payload.
#[derive(Clone, Copy, Debug, PartialEq, Eq, Structural)]
pub enum BodyLength {
    Exact(u64),
    Unknown,
}

/// A producer-defined failure raised mid-stream; terminal for the attempt
/// that was consuming the body.
pub struct BodyError {
    pub message: String,
}

/// The outcome of one poll of a [`Body`]: the next frame, a signal that the
/// producer is not ready yet (the caller retries later — backpressure), the
/// end of the stream, or a failure.
pub enum BodyPoll {
    Ready(Frame),
    Pending,
    End,
    Failed(BodyError),
}

/// The number of data bytes a frame carries; trailers carry none.
pub open spec fn frame_data_len(f: Frame) -> nat {
    match f {
        Frame::Data(d) => d@.len(),
        Frame::Trailers(_) => 0,
    }
}

/// The total number of data bytes over a frame sequence.
pub open spec fn total_data_len(frames: Seq<Frame>) -> nat
    decreases frames.len(),
{
    if frames.len() == 0 {
        0
    } else {
        frame_data_len(frames.first()) + total_data_len(frames.drop_first())
    }
}

/// The number of data frames in a frame sequence.
pub open spec fn data_frame_count(frames: Seq<Frame>) -> nat
    decreases frames.len(),
{
    if frames.len() == 0 {
        0
    } else {
        (if frames.first() matches Frame::Data(_) {
            1nat
        } else {
            0nat
        }) + data_frame_count(frames.drop_first())
    }
}

/// Whether a declared length fits a frame sequence: an exact length must
/// equal the total data bytes, and an exact length of zero additionally
/// admits no data frame at all — a zero-length body ends after zero data
/// frames, which an unknown-length body that happens to hold no frames does
/// not promise.
pub open spec fn length_fits(frames: Seq<Frame>, length: BodyLength) -> bool {
    match length {
        BodyLength::Exact(n) => total_data_len(frames) == n && (n == 0 ==> data_frame_count(
            frames,
        ) == 0),
        BodyLength::Unknown => true,
    }
}

proof fn lemma_total_data_len_push(s: Seq<Frame>, f: Frame)
    ensures
        total_data_len(s.push(f)) == total_data_len(s) + frame_data_len(f),
    decreases s.len(),
{
    if s.len() == 0 {
        assert(s.push(f)[0] == f);
        assert(s.push(f).drop_first() =~= Seq::<Frame>::empty());
        assert(total_data_len(s.push(f)) == frame_data_len(s.push(f).first()) + total_data_len(
            s.push(f).drop_first(),
        ));
    } else {
        assert(s.push(f)[0] == s[0]);
        assert(s.push(f).drop_first() =~= s.drop_first().push(f));
        lemma_total_data_len_push(s.drop_first(), f);
        assert(total_data_len(s.push(f)) == frame_data_len(s.push(f).first()) + total_data_len(
            s.push(f).drop_first(),
        ));
        assert(total_data_len(s) == frame_data_len(s.first()) + total_data_len(s.drop_first()));
    }
}

proof fn lemma_data_frame_count_push(s: Seq<Frame>, f: Frame)
    ensures
        data_frame_count(s.push(f)) == data_frame_count(s) + (if f matches Frame::Data(_) {
            1nat
        } else {
            0nat
        }),
    decreases s.len(),
{
    if s.len() == 0 {
        assert(s.push(f)[0] == f);
        assert(s.push(f).drop_first() =~= Seq::<Frame>::empty());
        assert(data_frame_count(s.push(f)) == (if s.push(f).first() matches Frame::Data(_) {
            1nat
        } else {
            0nat
        }) + data_frame_count(s.push(f).drop_first()));
    } else {
        assert(s.push(f)[0] == s[0]);
        assert(s.push(f).drop_first() =~= s.drop_first().push(f));
        lemma_data_frame_count_push(s.drop_first(), f);
        assert(data_frame_count(s.push(f)) == (if s.push(f).first() matches Frame::Data(_) {
            1nat
        } else {
            0nat
        }) + data_frame_count(s.push(f).drop_first()));
        assert(data_frame_count(s) == (if s.first() matches Frame::Data(_) {
            1nat
        } else {
            0nat
        }) + data_frame_count(s.drop_first()));
    }
}

proof fn lemma_count_zero_no_data(s: Seq<Frame>)
    requires
        data_frame_count(s) == 0,
    ensures
        forall|i: int| 0 <= i < s.len() ==> !(#[trigger] s[i] matches Frame::Data(_)),
    decreases s.len(),
{
    if s.len() > 0 {
        assert(data_frame_count(s.drop_first()) == 0);
        lemma_count_zero_no_data(s.drop_first());
        assert(!(s.first() matches Frame::Data(_)));
        assert forall|i: int| 0 <= i < s.len() implies !(#[trigger] s[i] matches Frame::Data(_)) by {
            if i == 0 {
                assert(s[0] == s.first());
            } else {
                assert(s[i] == s.drop_first()[i - 1]);
            }
        }
    }
}

/// The data bytes of a sequence split at `j`: prefix plus suffix.
proof fn lemma_total_data_len_split(s: Seq<Frame>, j: int)
    requires
        0 <= j <= s.len(),
    ensures
        total_data_len(s) == total_data_len(s.take(j)) + total_data_len(s.skip(j)),
    decreases j,
{
    if j == 0 {
        assert(s.take(0int) =~= Seq::<Frame>::empty());
        assert(s.skip(0int) =~= s);
    } else {
        lemma_total_data_len_split(s.drop_first(), j - 1);
        assert(s.take(j).drop_first() =~= s.drop_first().take(j - 1));
        assert(s.skip(j) =~= s.drop_first().skip(j - 1));
        assert(s.take(j).first() == s.first());
    }
}

/// A pull-based payload producer: polling either hands out the next frame,
/// reports not-ready, signals end-of-stream, or fails; `size_hint` is the
/// declared total length. An interface only — what a concrete producer
/// guarantees is stated on the producer itself.
pub trait Body {
    fn poll_frame(&mut self) -> BodyPoll;

    fn size_hint(&self) -> BodyLength;
}

/// A body over an already-fully-buffered frame sequence: frames are handed
/// out exactly in the order they were produced, and the declared length
/// always fits the data that remains together with what was already
/// produced.
pub struct BufferedBody {
    frames: Vec<Frame>,
    length: BodyLength,
    produced_bytes: Ghost<nat>,
    produced_data_frames: Ghost<nat>,
}

impl BufferedBody {
    /// The frames not yet handed out, in production order.
    pub closed spec fn remaining(&self) -> Seq<Frame> {
        self.frames@
    }

    /// The length this body declared at construction.
    pub closed spec fn declared(&self) -> BodyLength {
        self.length
    }

    /// Well-formedness: an exactly-declared length equals the data bytes
    /// already produced plus those still to come, and a body declared as
    /// exactly zero bytes never holds nor has produced a data frame.
    pub closed spec fn wf(&self) -> bool {
        &&& (self.length matches BodyLength::Exact(n) ==> self.produced_bytes@ + total_data_len(
            self.frames@,
        ) == n)
        &&& (self.length == BodyLength::Exact(0u64) ==> self.produced_data_frames@
            + data_frame_count(self.frames@) == 0)
    }

    /// The empty body: exactly zero bytes, no frames at all.
    pub fn empty() -> (r: BufferedBody)
        ensures
            r.wf(),
            r.declared() == BodyLength::Exact(0u64),
            r.remaining() == Seq::<Frame>::empty(),
    {
        BufferedBody {
            frames: Vec::new(),
            length: BodyLength::Exact(0),
            produced_bytes: Ghost(0),
            produced_data_frames: Ghost(0),
        }
    }

    /// A body over one in-memory chunk, declared at its exact length; an
    /// empty chunk yields the empty body.
    pub fn from_bytes(data: Vec<u8>) -> (r: BufferedBody)
        ensures
            r.wf(),
            r.declared() == BodyLength::Exact(data@.len() as u64),
            data@.len() == 0 ==> r.remaining() == Seq::<Frame>::empty(),
            data@.len() > 0 ==> r.remaining() =~= seq![Frame::Data(data)],
    {
        let n = data.len() as u64;
        if data.len() == 0 {
            let frames: Vec<Frame> = Vec::new();
            proof {
                assert(total_data_len(frames@) == 0);
                assert(data_frame_count(frames@) == 0);
            }
            BufferedBody {
                frames,
                length: BodyLength::Exact(n),
                produced_bytes: Ghost(0),
                produced_data_frames: Ghost(0),
            }
        } else {
            let mut frames: Vec<Frame> = Vec::new();
            frames.push(Frame::Data(data));
            proof {
                assert(frames@ =~= seq![Frame::Data(data)]);
                assert(frames@.drop_first() =~= Seq::<Frame>::empty());
                assert(total_data_len(frames@.drop_first()) == 0);
            }
            BufferedBody {
                frames,
                length: BodyLength::Exact(n),
                produced_bytes: Ghost(0),
                produced_data_frames: Ghost(0),
            }
        }
    }

    /// A body over a buffered frame sequence with a declared length.
    ///
    /// Succeeds exactly when the declaration fits the frames (an unknown
    /// length always does); otherwise the frames are handed back unchanged,
    /// so a mismatched declaration can never be constructed.
    pub fn new(frames: Vec<Frame>, length: BodyLength) -> (r: Result<BufferedBody, Vec<Frame>>)
        ensures
            r matches Ok(b) ==> b.wf() && b.declared() == length && b.remaining() == frames@,
            r matches Err(v) ==> v == frames,
            r is Ok <==> length_fits(frames@, length),
    {
        match length {
            BodyLength::Unknown => Ok(
                BufferedBody {
                    frames,
                    length,
                    produced_bytes: Ghost(0),
                    produced_data_frames: Ghost(0),
                },
            ),
            BodyLength::Exact(n) => {
                let mut total: u64 = 0;
                let mut data_frames: usize = 0;
                let end = frames.len();
                let mut i: usize = 0;
                proof {
                    assert(frames@.take(0int) =~= Seq::<Frame>::empty());
                }
                while i < end
                    invariant
                        0 <= i <= end,
                        end == frames@.len(),
                        length == BodyLength::Exact(n),
                        total == total_data_len(frames@.take(i as int)),
                        data_frames == data_frame_count(frames@.take(i as int)),
                        total <= n,
                        data_frames <= i,
                    decreases end - i,
                {
                    let (flen, is_data): (usize, bool) = match &frames[i] {
                        Frame::Data(d) => (d.len(), true),
                        Frame::Trailers(_) => (0, false),
                    };
                    proof {
                        assert(frames@.take(i + 1int) =~= frames@.take(i as int).push(
                            frames@[i as int],
                        ));
                        lemma_total_data_len_push(frames@.take(i as int), frames@[i as int]);
                        lemma_data_frame_count_push(frames@.take(i as int), frames@[i as int]);
                        assert(frame_data_len(frames@[i as int]) == flen);
                    }
                    if (flen as u128) > ((n - total) as u128) {
                        // The data bytes seen so far already exceed the
                        // declaration; the remaining frames cannot bring the
                        // total back down.
                        proof {
                            lemma_total_data_len_split(frames@, i as int);
                            assert(frames@.skip(i as int).first() == frames@[i as int]);
                            assert(total_data_len(frames@.skip(i as int)) >= flen);
                            assert(total_data_len(frames@) > n);
                        }
                        return Err(frames);
                    }
                    total = total + flen as u64;
                    if is_data {
                        data_frames = data_frames + 1;
                    }
                    i = i + 1;
                }
                proof {
                    assert(frames@.take(end as int) =~= frames@);
                }
                if total == n && (n > 0 || data_frames == 0) {
                    Ok(
                        BufferedBody {
                            frames,
                            length,
                            produced_bytes: Ghost(0),
                            produced_data_frames: Ghost(0),
                        },
                    )
                } else {
                    Err(frames)
                }
            },
        }
    }

    /// The length this body declared at construction.
    pub fn declared_length(&self) -> (r: BodyLength)
        ensures
            r == self.declared(),
    {
        self.length
    }

    /// Hands out the next frame in production order, or signals the end of
    /// the stream. A buffered body is always ready and never fails.
    pub fn pull(&mut self) -> (r: BodyPoll)
        ensures
            old(self).wf() ==> final(self).wf(),
            final(self).declared() == old(self).declared(),
            old(self).remaining().len() == 0 ==> (r matches BodyPoll::End
                && final(self).remaining() == old(self).remaining()),
            old(self).remaining().len() > 0 ==> (r matches BodyPoll::Ready(f)
                && f == old(self).remaining().first()
                && final(self).remaining() == old(self).remaining().drop_first()),
    {
        if self.frames.len() == 0 {
            BodyPoll::End
        } else {
            let f = self.frames.remove(0);
            proof {
                self.produced_bytes@ = self.produced_bytes@ + frame_data_len(f);
                self.produced_data_frames@ = self.produced_data_frames@ + (
                if f matches Frame::Data(_) {
                    1nat
                } else {
                    0nat
                });
            }
            BodyPoll::Ready(f)
        }
    }
}

impl Body for BufferedBody {
    /// Through the trait, a buffered body promises exactly what [`Self::pull`]
    /// does: the first remaining frame in production order, or the end of the
    /// stream once none remains.
    fn poll_frame(&mut self) -> (r: BodyPoll)
        ensures
            old(self).wf() ==> final(self).wf(),
            final(self).declared() == old(self).declared(),
            old(self).remaining().len() == 0 ==> (r matches BodyPoll::End
                && final(self).remaining() == old(self).remaining()),
            old(self).remaining().len() > 0 ==> (r matches BodyPoll::Ready(f)
                && f == old(self).remaining().first()
                && final(self).remaining() == old(self).remaining().drop_first()),
    {
        self.pull()
    }

    fn size_hint(&self) -> (r: BodyLength)
        ensures
            r == self.declared(),
    {
        self.declared_length()
    }
}

/// A body declaring an exact length of zero terminates after zero data
/// frames: nothing it still holds, and nothing it ever produced, is a data
/// frame. An unknown-length body promises nothing of the kind, even when it
/// happens to hold no frame.
pub proof fn lemma_exact_zero_no_data(b: BufferedBody)
    requires
        b.wf(),
        b.declared() == BodyLength::Exact(0u64),
    ensures
        data_frame_count(b.remaining()) == 0,
        forall|i: int| 0 <= i < b.remaining().len() ==> !(#[trigger] b.remaining()[i] matches Frame::Data(_)),
{
    lemma_count_zero_no_data(b.remaining());
}

} // verus!

//! The decode-feed pipeline: how the bytes of a live stream are cut into
//! segments that are decoded one by one.
//!
//! The first segment is cut once 128 KiB have arrived, every later one once
//! 64 KiB have; a stream that ends hands over what is gathered by then, so
//! that every byte received goes to the decoder, once and in its place. The
//! pipeline reads nothing and decodes nothing itself: it is told what the
//! stream did and answers with the segment to decode, if any.

use vstd::prelude::*;

verus! {

/// Bytes that the first segment of a stream must reach.
pub const INITIAL_THRESHOLD: usize = 131072;

/// Bytes that every later segment must reach.
pub const STEADY_THRESHOLD: usize = 65536;

/// Where the pipeline stands in its stream.
#[derive(Debug, Clone, Copy, PartialEq, Eq, Structural)]
pub enum Phase {
    /// The first segment is being gathered.
    Initial,
    /// The first segment is out; further ones are being gathered.
    Steady,
    /// The stream has ended or the task was cancelled.
    Finished,
}

/// Bytes that the segment gathered in `phase` must reach.
pub open spec fn threshold(phase: Phase) -> nat {
    if phase is Initial {
        INITIAL_THRESHOLD as nat
    } else {
        STEADY_THRESHOLD as nat
    }
}

/// What the stream did since the pipeline was last told.
#[derive(Debug, PartialEq, Eq)]
pub enum StreamEvent {
    /// The next chunk arrived.
    Chunk(Vec<u8>),
    /// A read failed; the stream may still go on.
    ReadFailed,
    /// The server closed the stream.
    End,
    /// The task was cancelled.
    Cancelled,
}

pub ghost enum StreamEventView {
    Chunk(Seq<u8>),
    ReadFailed,
    End,
    Cancelled,
}

impl View for StreamEvent {
    type V = StreamEventView;

    open spec fn view(&self) -> StreamEventView {
        match self {
            StreamEvent::Chunk(bytes) => StreamEventView::Chunk(bytes@),
            StreamEvent::ReadFailed => StreamEventView::ReadFailed,
            StreamEvent::End => StreamEventView::End,
            StreamEvent::Cancelled => StreamEventView::Cancelled,
        }
    }
}

/// What to do with a segment once the decoder has seen it.
#[derive(Debug, Clone, Copy, PartialEq, Eq, Structural)]
pub struct FeedPlan {
    /// Append the decoded segment to the sink.
    pub append: bool,
    /// Then start the sink.
    pub play: bool,
}

/// Bytes to decode as one piece of audio.
#[derive(Debug, PartialEq, Eq)]
pub struct Segment {
    pub bytes: Vec<u8>,
    /// Whether this is the first segment of its stream: once it is appended, the sink is started.
    pub start: bool,
}

pub ghost struct SegmentView {
    pub bytes: Seq<u8>,
    pub start: bool,
}

impl View for Segment {
    type V = SegmentView;

    open spec fn view(&self) -> SegmentView {
        SegmentView { bytes: self.bytes@, start: self.start }
    }
}

impl Segment {
    /// What follows the attempt to decode the segment. A segment that decoded
    /// is appended, and the first one of a stream starts the sink; one that
    /// did not decode is dropped, and the stream goes on.
    pub fn after_decode(&self, decoded: bool) -> (plan: FeedPlan)
        ensures
            plan == (FeedPlan { append: decoded, play: decoded && self.start }),
    {
        FeedPlan { append: decoded, play: decoded && self.start }
    }
}

/// The view of an optional segment.
pub open spec fn opt_segment(segment: Option<Segment>) -> Option<SegmentView> {
    match segment {
        Some(s) => Some(s@),
        None => None,
    }
}

/// The pipeline of one stream.
#[derive(Debug)]
pub struct Pipeline {
    phase: Phase,
    buffer: Vec<u8>,
}

pub ghost struct PipelineView {
    pub phase: Phase,
    /// The bytes gathered for the next segment.
    pub buffer: Seq<u8>,
}

impl PipelineView {
    /// A pipeline before the first byte of its stream.
    pub open spec fn start() -> PipelineView {
        PipelineView { phase: Phase::Initial, buffer: Seq::empty() }
    }

    /// A pipeline at rest holds less than a full segment, and nothing once it has finished.
    pub open spec fn valid(self) -> bool {
        if self.phase is Finished {
            self.buffer.len() == 0
        } else {
            self.buffer.len() < threshold(self.phase)
        }
    }

    /// The pipeline after `event`.
    pub open spec fn after(self, event: StreamEventView) -> PipelineView {
        if self.phase is Finished {
            self
        } else {
            match event {
                StreamEventView::Chunk(bytes) => {
                    if self.buffer.len() + bytes.len() >= threshold(self.phase) {
                        PipelineView { phase: Phase::Steady, buffer: Seq::empty() }
                    } else {
                        PipelineView { phase: self.phase, buffer: self.buffer + bytes }
                    }
                },
                StreamEventView::ReadFailed => self,
                StreamEventView::End => PipelineView {
                    phase: Phase::Finished,
                    buffer: Seq::empty(),
                },
                StreamEventView::Cancelled => PipelineView {
                    phase: Phase::Finished,
                    buffer: Seq::empty(),
                },
            }
        }
    }

    /// The segment that `event` completes, if it completes one: what was
    /// gathered and the chunk, once both together reach the threshold; at the
    /// end of a stream, what was gathered, unless that is nothing.
    pub open spec fn emitted(self, event: StreamEventView) -> Option<SegmentView> {
        if self.phase is Finished {
            None
        } else {
            match event {
                StreamEventView::Chunk(bytes) => {
                    if self.buffer.len() + bytes.len() >= threshold(self.phase) {
                        Some(
                            SegmentView {
                                bytes: self.buffer + bytes,
                                start: self.phase is Initial,
                            },
                        )
                    } else {
                        None
                    }
                },
                StreamEventView::End => {
                    if self.buffer.len() > 0 {
                        Some(SegmentView { bytes: self.buffer, start: self.phase is Initial })
                    } else {
                        None
                    }
                },
                _ => None,
            }
        }
    }

    /// The pipeline after `events`, taken in their order.
    pub open spec fn run(self, events: Seq<StreamEventView>) -> PipelineView
        decreases events.len(),
    {
        if events.len() == 0 {
            self
        } else {
            self.after(events.first()).run(events.drop_first())
        }
    }

    /// The segments that `events` complete, in the order in which they do.
    pub open spec fn segments(self, events: Seq<StreamEventView>) -> Seq<SegmentView>
        decreases events.len(),
    {
        if events.len() == 0 {
            Seq::empty()
        } else {
            let later = self.after(events.first()).segments(events.drop_first());
            match self.emitted(events.first()) {
                Some(segment) => seq![segment] + later,
                None => later,
            }
        }
    }
}

impl View for Pipeline {
    type V = PipelineView;

    closed spec fn view(&self) -> PipelineView {
        PipelineView { phase: self.phase, buffer: self.buffer@ }
    }
}

impl Pipeline {
    #[verifier::type_invariant]
    pub open spec fn well_formed(self) -> bool {
        self@.valid()
    }

    /// The pipeline of a stream of which nothing has arrived yet.
    pub fn new() -> (pipeline: Self)
        ensures
            pipeline@ == PipelineView::start(),
    {
        Pipeline { phase: Phase::Initial, buffer: Vec::new() }
    }

    pub fn phase(&self) -> (phase: Phase)
        ensures
            phase == self@.phase,
    {
        self.phase
    }

    /// Number of bytes gathered for the next segment.
    pub fn buffered(&self) -> (len: usize)
        ensures
            len == self@.buffer.len(),
            self@.valid(),
    {
        proof {
            use_type_invariant(self);
        }
        self.buffer.len()
    }

    /// Whether the pipeline has seen the end of its stream or its cancellation.
    pub fn is_finished(&self) -> (finished: bool)
        ensures
            finished == (self@.phase is Finished),
    {
        match self.phase {
            Phase::Finished => true,
            _ => false,
        }
    }

    /// Takes what the stream did and hands out the segment that is now
    /// complete, if one is.
    pub fn on_event(&mut self, event: StreamEvent) -> (segment: Option<Segment>)
        ensures
            final(self)@ == old(self)@.after(event@),
            opt_segment(segment) == old(self)@.emitted(event@),
            final(self)@.valid(),
    {
        proof {
            use_type_invariant(&*self);
        }
        let phase = self.phase;
        match phase {
            Phase::Finished => None,
            _ => match event {
                StreamEvent::Chunk(bytes) => {
                    let mut chunk = bytes;
                    let mut gathered: Vec<u8> = Vec::new();
                    core::mem::swap(&mut gathered, &mut self.buffer);
                    gathered.append(&mut chunk);
                    let limit = match phase {
                        Phase::Initial => INITIAL_THRESHOLD,
                        _ => STEADY_THRESHOLD,
                    };
                    if gathered.len() >= limit {
                        self.phase = Phase::Steady;
                        Some(
                            Segment {
                                bytes: gathered,
                                start: match phase {
                                    Phase::Initial => true,
                                    _ => false,
                                },
                            },
                        )
                    } else {
                        self.buffer = gathered;
                        None
                    }
                },
                StreamEvent::ReadFailed => None,
                StreamEvent::End => {
                    let mut gathered: Vec<u8> = Vec::new();
                    core::mem::swap(&mut gathered, &mut self.buffer);
                    self.phase = Phase::Finished;
                    if gathered.len() > 0 {
                        Some(
                            Segment {
                                bytes: gathered,
                                start: match phase {
                                    Phase::Initial => true,
                                    _ => false,
                                },
                            },
                        )
                    } else {
                        None
                    }
                },
                StreamEvent::Cancelled => {
                    self.buffer = Vec::new();
                    self.phase = Phase::Finished;
                    None
                },
            },
        }
    }
}

/// The chunks of a stream as events, one by one.
pub open spec fn chunk_events(chunks: Seq<Seq<u8>>) -> Seq<StreamEventView> {
    chunks.map_values(|c: Seq<u8>| StreamEventView::Chunk(c))
}

/// A whole stream as events: its chunks one by one, then its end.
pub open spec fn stream_events(chunks: Seq<Seq<u8>>) -> Seq<StreamEventView> {
    chunk_events(chunks).push(StreamEventView::End)
}

/// The bytes of `chunks` in one row.
pub open spec fn joined_bytes(chunks: Seq<Seq<u8>>) -> Seq<u8>
    decreases chunks.len(),
{
    if chunks.len() == 0 {
        Seq::empty()
    } else {
        chunks.first() + joined_bytes(chunks.drop_first())
    }
}

/// The number of bytes in `chunks`.
pub open spec fn total_len(chunks: Seq<Seq<u8>>) -> nat {
    joined_bytes(chunks).len()
}

/// The bytes of `segments` in one row.
pub open spec fn segment_bytes(segments: Seq<SegmentView>) -> Seq<u8>
    decreases segments.len(),
{
    if segments.len() == 0 {
        Seq::empty()
    } else {
        segments.first().bytes + segment_bytes(segments.drop_first())
    }
}

/// The number of segments that a stream of these chunks hands to the decoder.
pub open spec fn decode_attempts(chunks: Seq<Seq<u8>>) -> nat {
    PipelineView::start().segments(stream_events(chunks)).len()
}

/// One attempt for the first 128 KiB, or for less where the stream is
/// shorter, and one for each 64 KiB behind them, begun ones included.
pub open spec fn expected_attempts(total: nat) -> nat {
    if total >= INITIAL_THRESHOLD {
        ((total - INITIAL_THRESHOLD + STEADY_THRESHOLD - 1) / (STEADY_THRESHOLD as int) + 1) as nat
    } else {
        1
    }
}

impl PipelineView {
    /// Whether no chunk carries the gathered bytes past the threshold: every
    /// segment that a chunk completes holds exactly as many bytes as its
    /// threshold asks for. What is gathered when the stream ends may be less.
    pub open spec fn never_overshoots(self, chunks: Seq<Seq<u8>>) -> bool
        decreases chunks.len(),
    {
        if chunks.len() == 0 {
            true
        } else {
            &&& self.buffer.len() + chunks.first().len() <= threshold(self.phase)
            &&& self.after(StreamEventView::Chunk(chunks.first())).never_overshoots(
                chunks.drop_first(),
            )
        }
    }
}

proof fn lemma_events_unfold(chunks: Seq<Seq<u8>>)
    requires
        chunks.len() > 0,
    ensures
        chunk_events(chunks).first() == StreamEventView::Chunk(chunks.first()),
        chunk_events(chunks).drop_first() == chunk_events(chunks.drop_first()),
        stream_events(chunks).first() == StreamEventView::Chunk(chunks.first()),
        stream_events(chunks).drop_first() == stream_events(chunks.drop_first()),
{
    assert(chunk_events(chunks).drop_first() =~= chunk_events(chunks.drop_first()));
    assert(stream_events(chunks).drop_first() =~= stream_events(chunks.drop_first()));
}

proof fn lemma_segment_bytes_front(segment: SegmentView, later: Seq<SegmentView>)
    ensures
        segment_bytes(seq![segment] + later) == segment.bytes + segment_bytes(later),
{
    assert((seq![segment] + later).drop_first() =~= later);
}

/// A valid pipeline stays valid, whatever the stream does.
pub proof fn law_stays_valid(pipeline: PipelineView, event: StreamEventView)
    requires
        pipeline.valid(),
    ensures
        pipeline.after(event).valid(),
{
}

/// A segment is handed out only when it has reached its threshold or the
/// stream has ended, and only the first segment of a stream starts the sink.
pub proof fn law_segment_is_due(pipeline: PipelineView, event: StreamEventView)
    requires
        pipeline.valid(),
    ensures
        pipeline.emitted(event) matches Some(segment) ==> {
            &&& segment.bytes.len() > 0
            &&& segment.start == (pipeline.phase is Initial)
            &&& event is Chunk ==> segment.bytes.len() >= threshold(pipeline.phase)
            &&& event is Chunk || event is End
        },
{
}

/// Once the stream has ended or the task was cancelled, nothing is handed
/// out any more and nothing changes.
pub proof fn law_finished_is_silent(pipeline: PipelineView, events: Seq<StreamEventView>)
    requires
        pipeline.phase is Finished,
    ensures
        pipeline.segments(events).len() == 0,
        pipeline.run(events) == pipeline,
    decreases events.len(),
{
    if events.len() > 0 {
        law_finished_is_silent(pipeline, events.drop_first());
    }
}

/// From the moment the pipeline is told of its cancellation, it hands out
/// no segment, whatever still arrives.
pub proof fn law_cancelled_is_silent(pipeline: PipelineView, later: Seq<StreamEventView>)
    ensures
        pipeline.segments(seq![StreamEventView::Cancelled] + later).len() == 0,
        pipeline.run(seq![StreamEventView::Cancelled] + later).phase is Finished,
{
    let events = seq![StreamEventView::Cancelled] + later;
    assert(events.first() == StreamEventView::Cancelled);
    assert(events.drop_first() =~= later);
    law_finished_is_silent(pipeline.after(StreamEventView::Cancelled), later);
}

/// While a stream lasts, no byte is lost, doubled or moved: what was gathered
/// before, followed by the chunks, is the segments handed out, in their
/// order, followed by what is gathered now.
pub proof fn law_bytes_keep_order(pipeline: PipelineView, chunks: Seq<Seq<u8>>)
    requires
        !(pipeline.phase is Finished),
    ensures
        pipeline.buffer + joined_bytes(chunks) == segment_bytes(
            pipeline.segments(chunk_events(chunks)),
        ) + pipeline.run(chunk_events(chunks)).buffer,
        !(pipeline.run(chunk_events(chunks)).phase is Finished),
    decreases chunks.len(),
{
    let events = chunk_events(chunks);
    if chunks.len() == 0 {
        assert(pipeline.buffer + joined_bytes(chunks) =~= segment_bytes(
            pipeline.segments(events),
        ) + pipeline.run(events).buffer);
    } else {
        lemma_events_unfold(chunks);
        let event = StreamEventView::Chunk(chunks.first());
        let next = pipeline.after(event);
        let rest = chunks.drop_first();
        law_bytes_keep_order(next, rest);
        let later = next.segments(chunk_events(rest));
        match pipeline.emitted(event) {
            Some(segment) => {
                lemma_segment_bytes_front(segment, later);
                assert(pipeline.buffer + joined_bytes(chunks) =~= segment.bytes + (next.buffer
                    + joined_bytes(rest)));
                assert(segment.bytes + (segment_bytes(later) + next.run(
                    chunk_events(rest),
                ).buffer) =~= segment_bytes(seq![segment] + later) + pipeline.run(events).buffer);
            },
            None => {
                assert(pipeline.buffer + joined_bytes(chunks) =~= next.buffer + joined_bytes(
                    rest,
                ));
            },
        }
    }
}

proof fn lemma_whole_stream(pipeline: PipelineView, chunks: Seq<Seq<u8>>)
    requires
        !(pipeline.phase is Finished),
    ensures
        segment_bytes(pipeline.segments(stream_events(chunks))) == pipeline.buffer + joined_bytes(
            chunks,
        ),
    decreases chunks.len(),
{
    let events = stream_events(chunks);
    if chunks.len() == 0 {
        assert(events.first() == StreamEventView::End);
        assert(events.drop_first() =~= Seq::<StreamEventView>::empty());
        let later = pipeline.after(events.first()).segments(events.drop_first());
        assert(later =~= Seq::<SegmentView>::empty());
        match pipeline.emitted(events.first()) {
            Some(segment) => {
                lemma_segment_bytes_front(segment, later);
                assert(segment.bytes + segment_bytes(later) =~= pipeline.buffer + joined_bytes(
                    chunks,
                ));
            },
            None => {
                assert(segment_bytes(later) =~= pipeline.buffer + joined_bytes(chunks));
            },
        }
    } else {
        lemma_events_unfold(chunks);
        let event = StreamEventView::Chunk(chunks.first());
        let next = pipeline.after(event);
        let rest = chunks.drop_first();
        lemma_whole_stream(next, rest);
        let later = next.segments(stream_events(rest));
        match pipeline.emitted(event) {
            Some(segment) => {
                lemma_segment_bytes_front(segment, later);
                assert(segment.bytes + (next.buffer + joined_bytes(rest)) =~= pipeline.buffer
                    + joined_bytes(chunks));
            },
            None => {
                assert(next.buffer + joined_bytes(rest) =~= pipeline.buffer + joined_bytes(
                    chunks,
                ));
            },
        }
    }
}

/// A stream that is not cancelled goes to the decoder whole: the segments
/// handed out, in their order, are the bytes of its chunks, in their order,
/// none lost, none doubled and none moved.
pub proof fn law_stream_is_decoded_whole(chunks: Seq<Seq<u8>>)
    ensures
        segment_bytes(PipelineView::start().segments(stream_events(chunks))) == joined_bytes(
            chunks,
        ),
{
    lemma_whole_stream(PipelineView::start(), chunks);
    assert(PipelineView::start().buffer + joined_bytes(chunks) =~= joined_bytes(chunks));
}

proof fn lemma_steady_attempts(pipeline: PipelineView, chunks: Seq<Seq<u8>>)
    requires
        pipeline.phase is Steady,
        pipeline.valid(),
    ensures
        ({
            let attempts = pipeline.segments(stream_events(chunks)).len();
            let bytes = pipeline.buffer.len() + total_len(chunks);
            &&& bytes == 0 ==> attempts == 0
            &&& bytes > 0 ==> attempts >= 1 && (attempts - 1) * STEADY_THRESHOLD < bytes
            &&& pipeline.never_overshoots(chunks) ==> attempts * STEADY_THRESHOLD >= bytes
        }),
    decreases chunks.len(),
{
    let events = stream_events(chunks);
    if chunks.len() == 0 {
        assert(events.first() == StreamEventView::End);
        assert(events.drop_first() =~= Seq::<StreamEventView>::empty());
        assert(pipeline.after(events.first()).segments(events.drop_first()).len() == 0);
    } else {
        lemma_events_unfold(chunks);
        let event = StreamEventView::Chunk(chunks.first());
        lemma_steady_attempts(pipeline.after(event), chunks.drop_first());
    }
}

proof fn lemma_initial_attempts(pipeline: PipelineView, chunks: Seq<Seq<u8>>)
    requires
        pipeline.phase is Initial,
        pipeline.valid(),
    ensures
        ({
            let attempts = pipeline.segments(stream_events(chunks)).len();
            let bytes = pipeline.buffer.len() + total_len(chunks);
            &&& bytes == 0 ==> attempts == 0
            &&& 0 < bytes < INITIAL_THRESHOLD ==> attempts == 1
            &&& bytes >= INITIAL_THRESHOLD ==> attempts >= 1
            &&& bytes >= INITIAL_THRESHOLD && attempts >= 2 ==> (attempts - 2) * STEADY_THRESHOLD
                + INITIAL_THRESHOLD < bytes
            &&& bytes >= INITIAL_THRESHOLD && pipeline.never_overshoots(chunks) ==> (attempts - 1)
                * STEADY_THRESHOLD + INITIAL_THRESHOLD >= bytes
        }),
    decreases chunks.len(),
{
    let events = stream_events(chunks);
    if chunks.len() == 0 {
        assert(events.first() == StreamEventView::End);
        assert(events.drop_first() =~= Seq::<StreamEventView>::empty());
        assert(pipeline.after(events.first()).segments(events.drop_first()).len() == 0);
    } else {
        lemma_events_unfold(chunks);
        let event = StreamEventView::Chunk(chunks.first());
        let next = pipeline.after(event);
        if next.phase is Steady {
            lemma_steady_attempts(next, chunks.drop_first());
        } else {
            lemma_initial_attempts(next, chunks.drop_first());
        }
    }
}

/// A stream that ends before the first segment is full is decoded in one
/// piece, and a stream without a byte is not decoded at all.
pub proof fn law_attempts_of_short_stream(chunks: Seq<Seq<u8>>)
    requires
        total_len(chunks) < INITIAL_THRESHOLD,
    ensures
        decode_attempts(chunks) == if total_len(chunks) > 0 {
            1nat
        } else {
            0nat
        },
        total_len(chunks) > 0 ==> decode_attempts(chunks) == expected_attempts(total_len(chunks)),
{
    lemma_initial_attempts(PipelineView::start(), chunks);
}

/// However a stream is cut into chunks, it is decoded in no more pieces than
/// one for the first 128 KiB and one for each begun 64 KiB behind them, and
/// in at least one piece where it holds a byte. A chunk that carries the
/// gathered bytes past a threshold goes out whole, so such a stream may be
/// decoded in fewer pieces.
pub proof fn law_attempts_are_bounded(chunks: Seq<Seq<u8>>)
    ensures
        decode_attempts(chunks) <= expected_attempts(total_len(chunks)),
        total_len(chunks) > 0 ==> 1 <= decode_attempts(chunks),
{
    lemma_initial_attempts(PipelineView::start(), chunks);
}

/// A stream with a byte in it, of which no chunk carries the gathered bytes
/// past a threshold, is decoded in exactly one piece for the first 128 KiB,
/// or for less where it is shorter, and one for each 64 KiB behind them,
/// the begun one at its end included.
pub proof fn law_attempts_without_overshoot(chunks: Seq<Seq<u8>>)
    requires
        total_len(chunks) > 0,
        PipelineView::start().never_overshoots(chunks),
    ensures
        decode_attempts(chunks) == expected_attempts(total_len(chunks)),
{
    lemma_initial_attempts(PipelineView::start(), chunks);
}

/// Whether every chunk holds `size` bytes.
pub open spec fn chunks_of_size(chunks: Seq<Seq<u8>>, size: nat) -> bool {
    forall|i: int| 0 <= i < chunks.len() ==> (#[trigger] chunks[i]).len() == size
}

proof fn lemma_next_multiple(gathered: nat, limit: nat, size: nat)
    requires
        size > 0,
        gathered % size == 0,
        limit % size == 0,
        gathered < limit,
    ensures
        gathered + size <= limit,
        (gathered + size) % size == 0,
{
    vstd::arithmetic::div_mod::lemma_mod_add_multiples_vanish(gathered as int, size as int);
    if gathered + size > limit {
        let gap = (limit - gathered) as nat;
        vstd::arithmetic::div_mod::lemma_sub_mod_noop(limit as int, gathered as int, size as int);
        vstd::arithmetic::div_mod::lemma_small_mod(0, size);
        vstd::arithmetic::div_mod::lemma_small_mod(gap, size);
    }
}

proof fn lemma_doubled_multiple(amount: nat, size: nat)
    requires
        size > 0,
        amount % size == 0,
    ensures
        (amount + amount) % size == 0,
{
    vstd::arithmetic::div_mod::lemma_add_mod_noop(amount as int, amount as int, size as int);
    vstd::arithmetic::div_mod::lemma_small_mod(0, size);
}

proof fn lemma_even_chunks_fit(pipeline: PipelineView, chunks: Seq<Seq<u8>>, size: nat)
    requires
        pipeline.valid(),
        !(pipeline.phase is Finished),
        size > 0,
        STEADY_THRESHOLD as nat % size == 0,
        chunks_of_size(chunks, size),
        pipeline.buffer.len() % size == 0,
    ensures
        pipeline.never_overshoots(chunks),
    decreases chunks.len(),
{
    if chunks.len() > 0 {
        let rest = chunks.drop_first();
        let next = pipeline.after(StreamEventView::Chunk(chunks.first()));
        assert(chunks.first().len() == size);
        assert(chunks_of_size(rest, size)) by {
            assert forall|i: int| 0 <= i < rest.len() implies (#[trigger] rest[i]).len() == size by {
                assert(rest[i] == chunks[i + 1]);
            }
        }
        assert(threshold(pipeline.phase) % size == 0) by {
            if pipeline.phase is Initial {
                lemma_doubled_multiple(STEADY_THRESHOLD as nat, size);
            }
        }
        lemma_next_multiple(pipeline.buffer.len(), threshold(pipeline.phase), size);
        vstd::arithmetic::div_mod::lemma_small_mod(0, size);
        lemma_even_chunks_fit(next, rest, size);
    }
}

/// A stream that arrives in chunks of one size, which divides 64 KiB, never
/// carries the gathered bytes past a threshold: where it holds a byte, its
/// decode attempts are one for the first 128 KiB, or for less, and one for
/// each begun 64 KiB behind them.
pub proof fn law_attempts_of_even_chunks(chunks: Seq<Seq<u8>>, size: nat)
    requires
        size > 0,
        STEADY_THRESHOLD as nat % size == 0,
        chunks_of_size(chunks, size),
        total_len(chunks) > 0,
    ensures
        PipelineView::start().never_overshoots(chunks),
        decode_attempts(chunks) == expected_attempts(total_len(chunks)),
{
    vstd::arithmetic::div_mod::lemma_small_mod(0, size);
    lemma_even_chunks_fit(PipelineView::start(), chunks, size);
    law_attempts_without_overshoot(chunks);
}

} // verus!

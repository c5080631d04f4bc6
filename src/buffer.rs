use vstd::prelude::*;

verus! {

/// One event of the stream that fetches a track's content.
#[derive(Debug, Clone)]
pub enum StreamEvent {
    /// A chunk of samples; `bytes` of `total` have been fetched so far.
    Write { bytes: usize, total: usize, content: Vec<i32> },
    Finished,
    Error(String),
    Retry { attempt: usize, max_attempts: usize },
}

/// What the buffering stage does after one event.
#[derive(Debug, Clone)]
pub enum BufferStep {
    /// Keep receiving.
    Continue,
    /// Keep receiving; the source is retrying and the display says so.
    Retrying { attempt: usize, max_attempts: usize },
    /// All content is in: go on to encoding.
    Finished,
    /// The stream failed with this detail.
    Failed(String),
}

/// The samples received so far for one track and the progress position.
#[derive(Debug, Clone)]
pub struct Buffer {
    pub samples: Vec<i32>,
    pub position: u64,
}

/// The samples that the chunks of `events` carry, in order.
pub open spec fn written_samples(events: Seq<StreamEvent>) -> Seq<i32>
    decreases events.len(),
{
    if events.len() == 0 {
        Seq::empty()
    } else {
        let before = written_samples(events.drop_last());
        match events.last() {
            StreamEvent::Write { content, .. } => before + content@,
            _ => before,
        }
    }
}

impl Buffer {
    pub fn new() -> (r: Self)
        ensures
            r.samples@ == Seq::<i32>::empty(),
            r.position == 0,
    {
        Buffer { samples: Vec::new(), position: 0 }
    }

    /// Takes in one event: a chunk is appended and moves the position to its
    /// byte offset; the other events leave the buffer as it is and say how
    /// the stage goes on.
    pub fn receive(&mut self, event: StreamEvent) -> (r: BufferStep)
        ensures
            final(self).samples@ == old(self).samples@ + written_samples(seq![event]),
            match event {
                StreamEvent::Write { bytes, content, .. } => {
                    &&& final(self).samples@ == old(self).samples@ + content@
                    &&& final(self).position == bytes as u64
                    &&& r is Continue
                },
                StreamEvent::Finished => {
                    &&& final(self).samples@ == old(self).samples@
                    &&& final(self).position == old(self).position
                    &&& r is Finished
                },
                StreamEvent::Error(detail) => {
                    &&& final(self).samples@ == old(self).samples@
                    &&& final(self).position == old(self).position
                    &&& r matches BufferStep::Failed(d) && d@ == detail@
                },
                StreamEvent::Retry { attempt, max_attempts } => {
                    &&& final(self).samples@ == old(self).samples@
                    &&& final(self).position == old(self).position
                    &&& r matches BufferStep::Retrying { attempt: a, max_attempts: m } && a
                        == attempt && m == max_attempts
                },
            },
    {
        proof {
            let single = seq![event];
            assert(single.drop_last() =~= Seq::<StreamEvent>::empty());
            assert(written_samples(single.drop_last()) == Seq::<i32>::empty());
        }
        match event {
            StreamEvent::Write { bytes, total: _, content } => {
                let mut content = content;
                self.position = bytes as u64;
                self.samples.append(&mut content);
                BufferStep::Continue
            },
            StreamEvent::Finished => BufferStep::Finished,
            StreamEvent::Error(detail) => BufferStep::Failed(detail),
            StreamEvent::Retry { attempt, max_attempts } => BufferStep::Retrying {
                attempt,
                max_attempts,
            },
        }
    }
}

/// Fed any series of events from empty, a buffer holds exactly the chunks'
/// samples, in the order they came. `buffers[i + 1]` is `buffers[i]` after
/// receiving `events[i]`.
pub proof fn lemma_buffer_concatenates(buffers: Seq<Buffer>, events: Seq<StreamEvent>)
    requires
        buffers.len() == events.len() + 1,
        buffers[0].samples@ == Seq::<i32>::empty(),
        forall|i: int|
            0 <= i < events.len() ==> #[trigger] buffers[i + 1].samples@ == buffers[i].samples@
                + written_samples(seq![events[i]]),
    ensures
        buffers.last().samples@ == written_samples(events),
    decreases events.len(),
{
    if events.len() > 0 {
        let n = events.len() - 1;
        let earlier = buffers.drop_last();
        assert forall|i: int| 0 <= i < n implies #[trigger] earlier[i + 1].samples@
            == earlier[i].samples@ + written_samples(seq![events.drop_last()[i]]) by {
            assert(buffers[i + 1].samples@ == buffers[i].samples@ + written_samples(
                seq![events[i]],
            ));
        }
        lemma_buffer_concatenates(earlier, events.drop_last());
        assert(buffers[n + 1].samples@ == buffers[n].samples@ + written_samples(seq![events[n]]));
        let single = seq![events[n]];
        assert(single.drop_last() =~= Seq::<StreamEvent>::empty());
        assert(single.last() == events.last());
        assert(written_samples(single.drop_last()) == Seq::<i32>::empty());
    }
}

} // verus!

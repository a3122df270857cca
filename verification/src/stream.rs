//! One streamed response: its chunks, and what is gathered while they
//! arrive.

use vstd::prelude::*;
use vstd::string::StringExecFns;

verus! {

/// One incremental unit of a response. The last chunk of a stream is marked
/// final and may carry the server's own counts; earlier chunks carry text
/// only.
#[derive(Debug)]
pub struct StreamChunk {
    pub text: String,
    pub is_final: bool,
    pub eval_count: Option<u64>,
    pub eval_duration_ns: Option<u64>,
    pub total_duration_ns: Option<u64>,
}

/// What a [`StreamChunk`] stands for.
pub struct ChunkView {
    pub text: Seq<char>,
    pub is_final: bool,
    pub eval_count: Option<u64>,
    pub eval_duration_ns: Option<u64>,
    pub total_duration_ns: Option<u64>,
}

impl View for StreamChunk {
    type V = ChunkView;

    open spec fn view(&self) -> ChunkView {
        ChunkView {
            text: self.text@,
            is_final: self.is_final,
            eval_count: self.eval_count,
            eval_duration_ns: self.eval_duration_ns,
            total_duration_ns: self.total_duration_ns,
        }
    }
}

impl Clone for StreamChunk {
    fn clone(&self) -> (copy: StreamChunk)
        ensures
            copy == *self,
    {
        StreamChunk {
            text: self.text.clone(),
            is_final: self.is_final,
            eval_count: self.eval_count,
            eval_duration_ns: self.eval_duration_ns,
            total_duration_ns: self.total_duration_ns,
        }
    }
}

/// What one stream gathered: the wall time it took, all of its text, and
/// the counts of its final chunk (zero where there was none).
#[derive(Debug)]
pub struct RunMetrics {
    pub elapsed_ns: u128,
    pub accumulated_text: String,
    pub eval_count: u64,
    pub eval_duration_ns: u64,
    pub total_duration_ns: u64,
}

/// What a [`RunMetrics`] stands for.
pub struct MetricsView {
    pub elapsed_ns: u128,
    pub accumulated_text: Seq<char>,
    pub eval_count: u64,
    pub eval_duration_ns: u64,
    pub total_duration_ns: u64,
}

impl View for RunMetrics {
    type V = MetricsView;

    open spec fn view(&self) -> MetricsView {
        MetricsView {
            elapsed_ns: self.elapsed_ns,
            accumulated_text: self.accumulated_text@,
            eval_count: self.eval_count,
            eval_duration_ns: self.eval_duration_ns,
            total_duration_ns: self.total_duration_ns,
        }
    }
}

impl Clone for RunMetrics {
    fn clone(&self) -> (copy: RunMetrics)
        ensures
            copy == *self,
    {
        RunMetrics {
            elapsed_ns: self.elapsed_ns,
            accumulated_text: self.accumulated_text.clone(),
            eval_count: self.eval_count,
            eval_duration_ns: self.eval_duration_ns,
            total_duration_ns: self.total_duration_ns,
        }
    }
}

/// A count that a chunk may carry, zero when it carries none.
pub open spec fn or_zero(count: Option<u64>) -> u64 {
    match count {
        Some(n) => n,
        None => 0,
    }
}

/// The metrics of a stream that has yielded nothing yet.
pub open spec fn fresh_metrics() -> MetricsView {
    MetricsView {
        elapsed_ns: 0,
        accumulated_text: Seq::empty(),
        eval_count: 0,
        eval_duration_ns: 0,
        total_duration_ns: 0,
    }
}

/// The metrics after one more chunk: its text is appended; a final chunk
/// sets the three counts, a chunk that is not final leaves them.
pub open spec fn absorb(m: MetricsView, c: ChunkView) -> MetricsView {
    MetricsView {
        elapsed_ns: m.elapsed_ns,
        accumulated_text: m.accumulated_text + c.text,
        eval_count: if c.is_final {
            or_zero(c.eval_count)
        } else {
            m.eval_count
        },
        eval_duration_ns: if c.is_final {
            or_zero(c.eval_duration_ns)
        } else {
            m.eval_duration_ns
        },
        total_duration_ns: if c.is_final {
            or_zero(c.total_duration_ns)
        } else {
            m.total_duration_ns
        },
    }
}

/// The metrics after the chunks of `chunks`, in order.
pub open spec fn absorb_all(m: MetricsView, chunks: Seq<ChunkView>) -> MetricsView
    decreases chunks.len(),
{
    if chunks.len() == 0 {
        m
    } else {
        absorb(absorb_all(m, chunks.drop_last()), chunks.last())
    }
}

/// The texts of `chunks` one after the other.
pub open spec fn concat_texts(chunks: Seq<ChunkView>) -> Seq<char>
    decreases chunks.len(),
{
    if chunks.len() == 0 {
        Seq::empty()
    } else {
        concat_texts(chunks.drop_last()) + chunks.last().text
    }
}

/// The metrics with the wall time set.
pub open spec fn timed(m: MetricsView, elapsed_ns: u128) -> MetricsView {
    MetricsView { elapsed_ns, ..m }
}

/// The text gathered from a stream is the text gathered before it followed
/// by the texts of its chunks in arrival order: nothing is dropped, nothing
/// reordered.
pub proof fn lemma_accumulated_text(m: MetricsView, chunks: Seq<ChunkView>)
    ensures
        absorb_all(m, chunks).accumulated_text == m.accumulated_text + concat_texts(chunks),
    decreases chunks.len(),
{
    if chunks.len() > 0 {
        lemma_accumulated_text(m, chunks.drop_last());
        assert(absorb_all(m, chunks).accumulated_text =~= m.accumulated_text + concat_texts(
            chunks,
        ));
    } else {
        assert(m.accumulated_text + concat_texts(chunks) =~= m.accumulated_text);
    }
}

/// The counts of a stream are those of its last final chunk, absent ones
/// counted as zero; they stay zero when no chunk was final.
pub proof fn lemma_counts_of_last_final(m: MetricsView, chunks: Seq<ChunkView>)
    ensures
        (forall|i: int| 0 <= i < chunks.len() ==> !(#[trigger] chunks[i]).is_final) ==> {
            &&& absorb_all(m, chunks).eval_count == m.eval_count
            &&& absorb_all(m, chunks).eval_duration_ns == m.eval_duration_ns
            &&& absorb_all(m, chunks).total_duration_ns == m.total_duration_ns
        },
        forall|k: int|
            0 <= k < chunks.len() && (#[trigger] chunks[k]).is_final && (forall|i: int|
                k < i < chunks.len() ==> !(#[trigger] chunks[i]).is_final) ==> {
                &&& absorb_all(m, chunks).eval_count == or_zero(chunks[k].eval_count)
                &&& absorb_all(m, chunks).eval_duration_ns == or_zero(chunks[k].eval_duration_ns)
                &&& absorb_all(m, chunks).total_duration_ns == or_zero(
                    chunks[k].total_duration_ns,
                )
            },
    decreases chunks.len(),
{
    if chunks.len() > 0 {
        let front = chunks.drop_last();
        lemma_counts_of_last_final(m, front);
        assert(forall|i: int| 0 <= i < front.len() ==> front[i] == chunks[i]);
    }
}

/// Gathers the metrics of one stream, chunk by chunk.
#[derive(Debug)]
pub struct StreamExecutor {
    gathered: RunMetrics,
}

impl View for StreamExecutor {
    type V = MetricsView;

    closed spec fn view(&self) -> MetricsView {
        self.gathered@
    }
}

impl StreamExecutor {
    /// An executor for a stream that has yielded nothing yet.
    pub fn start() -> (executor: StreamExecutor)
        ensures
            executor@ == fresh_metrics(),
    {
        StreamExecutor {
            gathered: RunMetrics {
                elapsed_ns: 0,
                accumulated_text: String::new(),
                eval_count: 0,
                eval_duration_ns: 0,
                total_duration_ns: 0,
            },
        }
    }

    /// Takes the next chunk of the stream. The text it returns is the chunk's
    /// own text, to be written out at once.
    pub fn on_chunk(&mut self, chunk: &StreamChunk) -> (emit: String)
        ensures
            emit@ == chunk@.text,
            final(self)@ == absorb(old(self)@, chunk@),
    {
        self.gathered.accumulated_text.append(chunk.text.as_str());
        if chunk.is_final {
            self.gathered.eval_count = count_or_zero(chunk.eval_count);
            self.gathered.eval_duration_ns = count_or_zero(chunk.eval_duration_ns);
            self.gathered.total_duration_ns = count_or_zero(chunk.total_duration_ns);
        }
        chunk.text.clone()
    }

    /// What the stream gathered so far, `elapsed_ns` nanoseconds after it
    /// began.
    pub fn metrics_at(&self, elapsed_ns: u128) -> (metrics: RunMetrics)
        ensures
            metrics@ == timed(self@, elapsed_ns),
    {
        let mut metrics = self.gathered.clone();
        metrics.elapsed_ns = elapsed_ns;
        metrics
    }

    /// The stream is over after `elapsed_ns` nanoseconds: its metrics.
    pub fn finish(self, elapsed_ns: u128) -> (metrics: RunMetrics)
        ensures
            metrics@ == timed(self@, elapsed_ns),
    {
        let mut metrics = self.gathered;
        metrics.elapsed_ns = elapsed_ns;
        metrics
    }
}

/// A count that a chunk may carry, zero when it carries none.
pub fn count_or_zero(count: Option<u64>) -> (n: u64)
    ensures
        n == or_zero(count),
{
    match count {
        Some(n) => n,
        None => 0,
    }
}

} // verus!

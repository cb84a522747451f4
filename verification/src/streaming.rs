//! Phrase-sized chunking of a streamed model response.
//!
//! Incoming token fragments accumulate in a buffer; the buffer is emitted as
//! a chunk as soon as the upstream completes, the buffer reaches the size
//! limit, or it reaches the minimum size while ending on a phrase boundary.
//! Trailing content is never dropped: whatever remains when the stream ends
//! is flushed as one last chunk marked final.

use vstd::prelude::*;
use crate::ollama::decode_line;
use crate::ollama::line_fields;
use crate::ollama::render_generate_request;
use crate::ollama::spec_generate_request;
use crate::ollama::GENERATION_NUM_PREDICT;
use crate::ollama::GENERATION_TEMPERATURE_TENTHS;
use crate::text::has_phrase_boundary;
use crate::text::is_boundary_char;
use crate::text::push_char;
use crate::text::trim_spec;
use crate::text::trim_str;

verus! {

/// Failures of the streaming generation path. Transport and decode details
/// arrive as plain text from the caller that performed the request.
#[derive(Debug, Clone)]
pub enum StreamError {
    RequestError(String),
    NotAvailable,
    ParseError(String),
    StreamClosed,
}

/// A chunk of streamed response: trimmed text, whether it closes the stream,
/// and the elapsed time since the request started.
#[derive(Debug, Clone)]
pub struct StreamChunk {
    pub text: String,
    pub is_final: bool,
    pub latency_ms: u64,
}

/// One decoded line of the streamed answer: a token fragment and the
/// upstream completion flag.
#[derive(Debug, Clone)]
pub struct LineEvent {
    pub text: String,
    pub done: bool,
}

/// Whether accumulated text must be emitted now: the upstream completed, the
/// size limit is reached, or the minimum size is reached on a phrase boundary.
pub open spec fn spec_should_emit(buf: Seq<char>, done: bool, min: nat, max: nat) -> bool {
    done || buf.len() >= max || (buf.len() >= min && buf.len() > 0 && is_boundary_char(buf.last()))
}

/// The accumulation buffer and its emission thresholds.
pub struct Chunker {
    buffer: String,
    min_chars: usize,
    max_chars: usize,
}

impl Chunker {
    /// The accumulated, not yet emitted text.
    pub closed spec fn buf(self) -> Seq<char> {
        self.buffer@
    }

    pub closed spec fn min_spec(self) -> nat {
        self.min_chars as nat
    }

    pub closed spec fn max_spec(self) -> nat {
        self.max_chars as nat
    }

    /// Between calls the buffer is empty or strictly below the size limit;
    /// this is what bounds every emission to at most the limit plus one
    /// fragment.
    pub closed spec fn wf(self) -> bool {
        self.buffer@.len() == 0 || self.buffer@.len() < self.max_chars
    }

    pub fn new(min_chars: usize, max_chars: usize) -> (r: Chunker)
        ensures
            r.buf() == Seq::<char>::empty(),
            r.min_spec() == min_chars,
            r.max_spec() == max_chars,
            r.wf(),
    {
        Chunker { buffer: String::new(), min_chars, max_chars }
    }

    /// Appends one fragment and decides emission. A returned chunk carries
    /// the trimmed buffer contents; its raw, untrimmed text is the old buffer
    /// followed by the fragment, which never exceeds the size limit by more
    /// than this one fragment's length.
    pub fn push_fragment(&mut self, fragment: &str, done: bool, now_ms: u64) -> (r: Option<
        StreamChunk,
    >)
        requires
            old(self).wf(),
        ensures
            final(self).min_spec() == old(self).min_spec(),
            final(self).max_spec() == old(self).max_spec(),
            final(self).wf(),
            ({
                let raw = old(self).buf() + fragment@;
                match r {
                    Some(c) => {
                        &&& spec_should_emit(raw, done, old(self).min_spec(), old(self).max_spec())
                        &&& raw.len() > 0
                        &&& raw.len() <= old(self).max_spec() + fragment@.len()
                        &&& c.text@ == trim_spec(raw)
                        &&& c.is_final == done
                        &&& c.latency_ms == now_ms
                        &&& final(self).buf().len() == 0
                    },
                    None => {
                        &&& final(self).buf() == raw
                        &&& (raw.len() == 0 || !spec_should_emit(
                            raw,
                            done,
                            old(self).min_spec(),
                            old(self).max_spec(),
                        ))
                    },
                }
            }),
    {
        self.buffer.append(fragment);
        let len = self.buffer.as_str().unicode_len();
        let emit = done || len >= self.max_chars || (len >= self.min_chars
            && has_phrase_boundary(self.buffer.as_str()));
        if emit && len > 0 {
            let text = trim_str(self.buffer.as_str());
            self.buffer = String::new();
            Some(StreamChunk { text, is_final: done, latency_ms: now_ms })
        } else {
            None
        }
    }

    /// Emits whatever is still buffered as one last chunk marked final, so
    /// that trailing content is never dropped.
    pub fn flush(&mut self, now_ms: u64) -> (r: Option<StreamChunk>)
        ensures
            final(self).min_spec() == old(self).min_spec(),
            final(self).max_spec() == old(self).max_spec(),
            final(self).wf(),
            final(self).buf().len() == 0,
            (match r {
                Some(c) => old(self).buf().len() > 0 && c.text@ == trim_spec(old(self).buf())
                    && c.is_final && c.latency_ms == now_ms,
                None => old(self).buf().len() == 0,
            }),
    {
        if self.buffer.as_str().unicode_len() > 0 {
            let text = trim_str(self.buffer.as_str());
            self.buffer = String::new();
            Some(StreamChunk { text, is_final: true, latency_ms: now_ms })
        } else {
            None
        }
    }
}

/// The concatenation of the first `k` line texts.
pub open spec fn consumed_upto(lines: Seq<LineEvent>, k: int) -> Seq<char>
    decreases k,
{
    if k <= 0 {
        Seq::empty()
    } else {
        consumed_upto(lines, k - 1) + lines[k - 1].text@
    }
}

/// How many lines are processed: everything up to and including the first
/// one flagged done, or all of them when none is.
pub open spec fn stop_len(lines: Seq<LineEvent>) -> int
    decreases lines.len(),
{
    if lines.len() == 0 {
        0int
    } else if lines[0].done {
        1int
    } else {
        1 + stop_len(lines.drop_first())
    }
}

/// The concatenation of a sequence of texts.
pub open spec fn concat_all(parts: Seq<Seq<char>>) -> Seq<char>
    decreases parts.len(),
{
    if parts.len() == 0 {
        Seq::empty()
    } else {
        concat_all(parts.drop_last()) + parts.last()
    }
}

proof fn lemma_concat_all_push(parts: Seq<Seq<char>>, p: Seq<char>)
    ensures
        concat_all(parts.push(p)) == concat_all(parts) + p,
{
    assert(parts.push(p).drop_last() =~= parts);
    assert(parts.push(p).last() == p);
}

proof fn lemma_stop_len_all(lines: Seq<LineEvent>)
    requires
        forall|k: int| 0 <= k < lines.len() ==> !lines[k].done,
    ensures
        stop_len(lines) == lines.len(),
    decreases lines.len(),
{
    if lines.len() > 0 {
        lemma_stop_len_all(lines.drop_first());
    }
}

proof fn lemma_stop_len_done(lines: Seq<LineEvent>, i: int)
    requires
        0 < i <= lines.len(),
        lines[i - 1].done,
        forall|k: int| 0 <= k < i - 1 ==> !lines[k].done,
    ensures
        stop_len(lines) == i,
    decreases i,
{
    if i > 1 {
        lemma_stop_len_done(lines.drop_first(), i - 1);
    }
}

/// Configuration of the streaming generation path: endpoint, model, and the
/// chunking thresholds.
pub struct StreamingOllama {
    pub base_url: String,
    pub model: String,
    pub min_chunk_chars: usize,
    pub max_chunk_chars: usize,
}

impl StreamingOllama {
    pub fn new(model: &str) -> (r: Self)
        ensures
            r.base_url@ == "http://localhost:11434"@,
            r.model@ == model@,
            r.min_chunk_chars == 20,
            r.max_chunk_chars == 100,
    {
        StreamingOllama {
            base_url: String::from_str("http://localhost:11434"),
            model: String::from_str(model),
            min_chunk_chars: 20,
            max_chunk_chars: 100,
        }
    }

    pub fn with_url(self, url: &str) -> (r: Self)
        ensures
            r.base_url@ == url@,
            r.model@ == self.model@,
            r.min_chunk_chars == self.min_chunk_chars,
            r.max_chunk_chars == self.max_chunk_chars,
    {
        StreamingOllama {
            base_url: String::from_str(url),
            model: self.model,
            min_chunk_chars: self.min_chunk_chars,
            max_chunk_chars: self.max_chunk_chars,
        }
    }

    pub fn with_chunk_size(self, min: usize, max: usize) -> (r: Self)
        ensures
            r.base_url@ == self.base_url@,
            r.model@ == self.model@,
            r.min_chunk_chars == min,
            r.max_chunk_chars == max,
    {
        StreamingOllama {
            base_url: self.base_url,
            model: self.model,
            min_chunk_chars: min,
            max_chunk_chars: max,
        }
    }

    /// The request body for one streaming generation of this client.
    pub fn request_body(&self, prompt: &str) -> (r: String)
        ensures
            r@ == spec_generate_request(
                self.model@,
                prompt@,
                true,
                GENERATION_TEMPERATURE_TENTHS as int,
                GENERATION_NUM_PREDICT as int,
            ),
    {
        render_generate_request(
            self.model.as_str(),
            prompt,
            true,
            GENERATION_TEMPERATURE_TENTHS,
            GENERATION_NUM_PREDICT,
        )
    }

    /// A fresh chunking session for one streaming generation.
    pub fn start_session(&self) -> (r: StreamSession)
        ensures
            r.wf(),
            r.min_spec() == self.min_chunk_chars,
            r.max_spec() == self.max_chunk_chars,
            !r.done_seen(),
            r.buffered() == Seq::<char>::empty(),
    {
        StreamSession { chunker: Chunker::new(self.min_chunk_chars, self.max_chunk_chars), finished: false }
    }

    /// Runs the chunking algorithm over a completed sequence of decoded
    /// lines. Processing stops at the first line flagged done; whatever is
    /// buffered when the lines end without one is flushed as a final chunk.
    ///
    /// The ghost result lists, for each chunk, the raw buffer text it was
    /// trimmed from. The contract states the stream laws: the raw texts
    /// concatenate exactly to the consumed input, every chunk flagged final
    /// is the last one, a line flagged done with a fragment to deliver closes
    /// the stream with a final chunk, and every chunk not flagged final was
    /// emitted at the size limit or on a phrase boundary at or past the
    /// minimum.
    pub fn chunk_lines(&self, lines: &Vec<LineEvent>, now_ms: u64) -> (out: (
        Vec<StreamChunk>,
        Ghost<Seq<Seq<char>>>,
    ))
        ensures
            ({
                let chunks = out.0@;
                let raws = out.1@;
                let s = lines@;
                let n = stop_len(s);
                &&& raws.len() == chunks.len()
                &&& forall|k: int|
                    0 <= k < chunks.len() ==> raws[k].len() > 0 && chunks[k].text@ == trim_spec(
                        raws[k],
                    ) && chunks[k].latency_ms == now_ms
                &&& concat_all(raws) == consumed_upto(s, n)
                &&& forall|k: int|
                    0 <= k < chunks.len() && chunks[k].is_final ==> k == chunks.len() - 1
                &&& forall|k: int|
                    0 <= k < chunks.len() && !chunks[k].is_final ==> raws[k].len()
                        >= self.max_chunk_chars || (raws[k].len() >= self.min_chunk_chars
                        && is_boundary_char(raws[k].last()))
                &&& (n > 0 && s[n - 1].done && s[n - 1].text@.len() > 0 ==> chunks.len() > 0
                    && chunks[chunks.len() - 1].is_final)
            }),
    {
        let mut ch = Chunker::new(self.min_chunk_chars, self.max_chunk_chars);
        let mut chunks: Vec<StreamChunk> = Vec::new();
        let ghost mut raws: Seq<Seq<char>> = Seq::empty();
        let mut i: usize = 0;
        let mut finished: bool = false;
        proof {
            assert(concat_all(raws) + ch.buf() =~= consumed_upto(lines@, 0));
        }
        while i < lines.len() && !finished
            invariant
                0 <= i <= lines@.len(),
                ch.wf(),
                ch.min_spec() == self.min_chunk_chars,
                ch.max_spec() == self.max_chunk_chars,
                raws.len() == chunks@.len(),
                concat_all(raws) + ch.buf() == consumed_upto(lines@, i as int),
                forall|k: int|
                    0 <= k < chunks@.len() ==> raws[k].len() > 0 && chunks@[k].text@ == trim_spec(
                        raws[k],
                    ) && chunks@[k].latency_ms == now_ms,
                forall|k: int|
                    0 <= k < chunks@.len() && chunks@[k].is_final ==> finished && k == chunks@.len()
                        - 1,
                forall|k: int|
                    0 <= k < chunks@.len() && !chunks@[k].is_final ==> raws[k].len()
                        >= self.max_chunk_chars || (raws[k].len() >= self.min_chunk_chars
                        && is_boundary_char(raws[k].last())),
                !finished ==> forall|k: int| 0 <= k < i ==> !lines@[k].done,
                finished ==> 0 < i <= lines@.len() && lines@[i - 1].done && (forall|k: int|
                    0 <= k < i - 1 ==> !lines@[k].done) && ch.buf().len() == 0,
                finished && lines@[i - 1].text@.len() > 0 ==> chunks@.len() > 0 && chunks@[chunks@.len()
                    - 1].is_final,
            decreases lines@.len() - i,
        {
            let line = &lines[i];
            let ghost prev_buf = ch.buf();
            let r = ch.push_fragment(line.text.as_str(), line.done, now_ms);
            match r {
                Some(c) => {
                    proof {
                        lemma_concat_all_push(raws, prev_buf + lines@[i as int].text@);
                        raws = raws.push(prev_buf + lines@[i as int].text@);
                    }
                    chunks.push(c);
                },
                None => {},
            }
            if line.done {
                finished = true;
            }
            i = i + 1;
        }
        if !finished {
            let ghost prev_buf = ch.buf();
            let r = ch.flush(now_ms);
            match r {
                Some(c) => {
                    proof {
                        lemma_concat_all_push(raws, prev_buf);
                        raws = raws.push(prev_buf);
                    }
                    chunks.push(c);
                },
                None => {},
            }
        }
        proof {
            if finished {
                lemma_stop_len_done(lines@, i as int);
            } else {
                lemma_stop_len_all(lines@);
            }
        }
        (chunks, Ghost(raws))
    }
}

impl Default for StreamingOllama {
    fn default() -> (r: Self)
        ensures
            r.base_url@ == "http://localhost:11434"@,
            r.model@ == "llama3.2:3b"@,
            r.min_chunk_chars == 20,
            r.max_chunk_chars == 100,
    {
        StreamingOllama::new("llama3.2:3b")
    }
}

/// Incremental chunking of one streaming generation: lines of the transport
/// are fed as they arrive, and malformed lines are skipped rather than
/// aborting the stream.
pub struct StreamSession {
    chunker: Chunker,
    finished: bool,
}

impl StreamSession {
    /// The chunker is well formed, and after the done line nothing remains
    /// buffered.
    pub closed spec fn wf(self) -> bool {
        self.chunker.wf() && (self.finished ==> self.chunker.buf().len() == 0)
    }

    /// Whether a line flagged done has been seen; nothing follows it.
    pub closed spec fn done_seen(self) -> bool {
        self.finished
    }

    /// The accumulated, not yet emitted text.
    pub closed spec fn buffered(self) -> Seq<char> {
        self.chunker.buf()
    }

    pub closed spec fn min_spec(self) -> nat {
        self.chunker.min_spec()
    }

    pub closed spec fn max_spec(self) -> nat {
        self.chunker.max_spec()
    }

    /// Feeds one raw transport line. A line that does not decode to a
    /// `{response, done}` object is skipped; after the done line, further
    /// input is ignored.
    pub fn feed_line(&mut self, line: &str, now_ms: u64) -> (r: Option<StreamChunk>)
        requires
            old(self).wf(),
        ensures
            final(self).wf(),
            final(self).min_spec() == old(self).min_spec(),
            final(self).max_spec() == old(self).max_spec(),
            old(self).done_seen() ==> r is None && *final(self) == *old(self),
            !old(self).done_seen() ==> (match line_fields(line@) {
                None => r is None && *final(self) == *old(self),
                Some(f) => {
                    let raw = old(self).buffered() + f.0;
                    &&& final(self).done_seen() == f.1
                    &&& (match r {
                        Some(c) => {
                            &&& spec_should_emit(raw, f.1, old(self).min_spec(), old(self).max_spec())
                            &&& raw.len() > 0
                            &&& raw.len() <= old(self).max_spec() + f.0.len()
                            &&& c.text@ == trim_spec(raw)
                            &&& c.is_final == f.1
                            &&& c.latency_ms == now_ms
                            &&& final(self).buffered().len() == 0
                        },
                        None => final(self).buffered() == raw && (raw.len() == 0
                            || !spec_should_emit(
                            raw,
                            f.1,
                            old(self).min_spec(),
                            old(self).max_spec(),
                        )),
                    })
                },
            }),
    {
        if self.finished {
            return None;
        }
        match decode_line(line) {
            Some(f) => {
                let (text, done) = f;
                let r = self.chunker.push_fragment(text.as_str(), done, now_ms);
                if done {
                    self.finished = true;
                }
                r
            },
            None => None,
        }
    }

    /// Closes the session when the transport ends without a done line:
    /// whatever is still buffered becomes one last chunk marked final.
    pub fn finish(&mut self, now_ms: u64) -> (r: Option<StreamChunk>)
        requires
            old(self).wf(),
        ensures
            final(self).wf(),
            final(self).buffered().len() == 0,
            old(self).done_seen() ==> r is None && *final(self) == *old(self),
            !old(self).done_seen() ==> (match r {
                Some(c) => old(self).buffered().len() > 0 && c.text@ == trim_spec(
                    old(self).buffered(),
                ) && c.is_final && c.latency_ms == now_ms,
                None => old(self).buffered().len() == 0,
            }),
    {
        if self.finished {
            return None;
        }
        self.chunker.flush(now_ms)
    }

    pub fn is_finished(&self) -> (r: bool)
        ensures
            r == self.done_seen(),
    {
        self.finished
    }
}

/// The chunk texts joined with single spaces, before the final trim.
pub open spec fn joined_with_spaces(chunks: Seq<StreamChunk>) -> Seq<char>
    decreases chunks.len(),
{
    if chunks.len() == 0 {
        Seq::empty()
    } else {
        joined_with_spaces(chunks.drop_last()) + chunks.last().text@ + seq![' ']
    }
}

/// The aggregate response of a drained stream: every chunk text joined with
/// spaces, trimmed at the ends.
pub fn join_chunks(chunks: &Vec<StreamChunk>) -> (r: String)
    ensures
        r@ == trim_spec(joined_with_spaces(chunks@)),
{
    let mut s = String::new();
    let mut i: usize = 0;
    proof {
        assert(chunks@.subrange(0, 0) =~= Seq::<StreamChunk>::empty());
        assert(s@ =~= joined_with_spaces(chunks@.subrange(0, 0)));
    }
    while i < chunks.len()
        invariant
            0 <= i <= chunks@.len(),
            s@ == joined_with_spaces(chunks@.subrange(0, i as int)),
        decreases chunks@.len() - i,
    {
        let ghost pre = chunks@.subrange(0, i as int);
        s.append(chunks[i].text.as_str());
        push_char(&mut s, ' ');
        proof {
            let post = chunks@.subrange(0, i + 1 as int);
            assert(post.drop_last() =~= pre);
            assert(post.last() == chunks@[i as int]);
            assert(s@ =~= joined_with_spaces(pre) + chunks@[i as int].text@ + seq![' ']);
        }
        i = i + 1;
    }
    proof {
        assert(chunks@.subrange(0, chunks@.len() as int) =~= chunks@);
    }
    trim_str(s.as_str())
}

} // verus!

//! Incremental parser for the streaming wire protocol: newline-delimited
//! `data: ` framed JSON events carrying content deltas and token usage,
//! ended by a `data: [DONE]` sentinel or stream closure.
//!
//! The parser holds a residual buffer and is fed successive byte chunks; its
//! whole behaviour is the fold of `step_byte` over the bytes it has seen.
//! Only the JSON payload of one framed line goes through an outside parser,
//! behind a trusted wrapper whose result is named by `chunk_payload_of`;
//! everything around it - line buffering, trimming, prefix and sentinel
//! detection, accumulation of deltas and usage - is verified exactly.

use vstd::prelude::*;
use vstd::string::StringExecFns;

use crate::providers::InferenceResponse;

verus! {

/// Token usage reported by a terminal usage object.
#[derive(Clone, Copy, Debug, PartialEq, Eq, Structural)]
pub struct TokenUsage {
    /// Tokens the prompt tokenized to.
    pub prompt_tokens: u32,
    /// Tokens generated so far.
    pub completion_tokens: u32,
}

/// The plain content of one parsed streaming event: the content delta of
/// each choice (absent where a choice carried none), and the usage object if
/// one was present and well-formed.
#[derive(Debug)]
pub struct ChunkPayload {
    /// One entry per choice, in order: its content delta, if any.
    pub contents: Vec<Option<String>>,
    /// The usage totals, if this event carried them.
    pub usage: Option<TokenUsage>,
}

impl View for ChunkPayload {
    type V = (Seq<Option<Seq<char>>>, Option<(u32, u32)>);

    open spec fn view(&self) -> Self::V {
        (
            self.contents@.map_values(
                |c: Option<String>|
                    match c {
                        Some(s) => Some(s@),
                        None => None,
                    },
            ),
            match self.usage {
                Some(u) => Some((u.prompt_tokens, u.completion_tokens)),
                None => None,
            },
        )
    }
}

/// What the outside JSON parser extracts from one framed payload: a pure
/// function of the payload bytes alone. `None` stands for a payload the
/// parser rejects; such an event is skipped, as the wire contract
/// prescribes.
pub uninterp spec fn chunk_payload_of(data: Seq<u8>) -> Option<
    (Seq<Option<Seq<char>>>, Option<(u32, u32)>),
>;

/// Relies on serde_json::from_slice and the Value accessors (get, as_array,
/// as_str, as_u64): parsing is deterministic in the payload bytes, and the
/// wrapper only moves the parsed fields into plain values. A payload without
/// a `choices` array, or that is not JSON, is rejected; a malformed `usage`
/// object is dropped while the deltas are kept.
#[verifier::external_body]
fn parse_chunk_payload(data: &Vec<u8>) -> (r: Option<ChunkPayload>)
    ensures
        match r {
            Some(p) => chunk_payload_of(data@) == Some(p@),
            None => chunk_payload_of(data@) is None,
        },
{
    let v: serde_json::Value = serde_json::from_slice(data.as_slice()).ok()?;
    let contents = v.get("choices")?.as_array()?.iter().map(
        |c| c.get("delta").and_then(|d| d.get("content")).and_then(|s| s.as_str()).map(
            |s| s.to_string(),
        ),
    ).collect();
    let usage = v.get("usage").and_then(
        |u| Some(TokenUsage {
            prompt_tokens: u32::try_from(u.get("prompt_tokens")?.as_u64()?).ok()?,
            completion_tokens: u32::try_from(u.get("completion_tokens")?.as_u64()?).ok()?,
        }),
    );
    Some(ChunkPayload { contents, usage })
}

/// ASCII whitespace, as the line trimming removes.
pub open spec fn is_ws(b: u8) -> bool {
    b == 32 || (9 <= b && b <= 13)
}

/// A line with leading and trailing whitespace removed.
pub open spec fn trim_spec(s: Seq<u8>) -> Seq<u8>
    decreases s.len(),
{
    if s.len() == 0 {
        s
    } else if is_ws(s[0]) {
        trim_spec(s.drop_first())
    } else if is_ws(s.last()) {
        trim_spec(s.drop_last())
    } else {
        s
    }
}

/// The framing prefix of an event line.
pub open spec fn data_prefix() -> Seq<u8> {
    seq!['d' as u8, 'a' as u8, 't' as u8, 'a' as u8, ':' as u8, ' ' as u8]
}

/// The end-of-stream sentinel payload.
pub open spec fn done_bytes() -> Seq<u8> {
    seq!['[' as u8, 'D' as u8, 'O' as u8, 'N' as u8, 'E' as u8, ']' as u8]
}

/// All content deltas of one event, concatenated in choice order.
pub open spec fn joined_contents(cs: Seq<Option<Seq<char>>>) -> Seq<char>
    decreases cs.len(),
{
    if cs.len() == 0 {
        Seq::empty()
    } else {
        joined_contents(cs.drop_last()) + (match cs.last() {
            Some(s) => s,
            None => Seq::empty(),
        })
    }
}

/// The accumulated state a stream of events builds: output text, input
/// tokens, output tokens, and whether the sentinel was seen.
pub type LineAcc = (Seq<char>, u32, u32, bool);

/// How one complete line changes the accumulated state: trim it; a line
/// without the `data: ` prefix is skipped; the `[DONE]` sentinel only marks
/// the end of the stream; any other payload is parsed, its deltas appended
/// to the text, and its usage totals, when present, replace the counts.
pub open spec fn step_line(acc: LineAcc, line: Seq<u8>) -> LineAcc {
    let t = trim_spec(line);
    if t.len() >= 6 && t.take(6) == data_prefix() {
        let payload = t.skip(6);
        if payload == done_bytes() {
            (acc.0, acc.1, acc.2, true)
        } else {
            match chunk_payload_of(payload) {
                Some(p) => (
                    acc.0 + joined_contents(p.0),
                    match p.1 {
                        Some(u) => u.0,
                        None => acc.1,
                    },
                    match p.1 {
                        Some(u) => u.1,
                        None => acc.2,
                    },
                    acc.3,
                ),
                None => acc,
            }
        }
    } else {
        acc
    }
}

/// The parser's whole state: the residual buffer and the accumulated state.
pub type ParserState = (Seq<u8>, LineAcc);

/// How one byte changes the parser: a newline completes the buffered line
/// and applies it; any other byte is buffered.
pub open spec fn step_byte(st: ParserState, b: u8) -> ParserState {
    if b == 10 {
        (Seq::empty(), step_line(st.1, st.0))
    } else {
        (st.0.push(b), st.1)
    }
}

/// The fold of `step_byte` over a chunk of bytes.
pub open spec fn step_bytes(st: ParserState, bs: Seq<u8>) -> ParserState
    decreases bs.len(),
{
    if bs.len() == 0 {
        st
    } else {
        step_bytes(step_byte(st, bs[0]), bs.drop_first())
    }
}

/// Folding one more byte steps the folded state once.
proof fn lemma_step_bytes_snoc(st: ParserState, bs: Seq<u8>, b: u8)
    ensures
        step_bytes(st, bs.push(b)) == step_byte(step_bytes(st, bs), b),
    decreases bs.len(),
{
    if bs.len() == 0 {
        assert(bs.push(b)[0] == b);
        assert(bs.push(b).drop_first() =~= Seq::<u8>::empty());
        assert(step_bytes(step_byte(st, b), Seq::<u8>::empty()) == step_byte(st, b));
        assert(step_bytes(st, bs.push(b)) == step_bytes(
            step_byte(st, bs.push(b)[0]),
            bs.push(b).drop_first(),
        ));
    } else {
        assert(bs.push(b)[0] == bs[0]);
        assert(bs.push(b).drop_first() =~= bs.drop_first().push(b));
        lemma_step_bytes_snoc(step_byte(st, bs[0]), bs.drop_first(), b);
        assert(step_bytes(st, bs.push(b)) == step_bytes(step_byte(st, bs[0]), bs.drop_first().push(b)));
    }
}

/// A line of nothing but whitespace trims to nothing.
proof fn lemma_trim_all_ws(s: Seq<u8>)
    requires
        forall|k: int| 0 <= k < s.len() ==> is_ws(#[trigger] s[k]),
    ensures
        trim_spec(s) =~= Seq::<u8>::empty(),
    decreases s.len(),
{
    if s.len() > 0 {
        lemma_trim_all_ws(s.drop_first());
    }
}

/// Trimming removes exactly the whitespace margins around the first and
/// last non-whitespace bytes.
proof fn lemma_trim_range(s: Seq<u8>, i: int, j: int)
    requires
        0 <= i < j <= s.len(),
        forall|k: int| 0 <= k < i ==> is_ws(#[trigger] s[k]),
        forall|k: int| j <= k < s.len() ==> is_ws(#[trigger] s[k]),
        !is_ws(s[i]),
        !is_ws(s[j - 1]),
    ensures
        trim_spec(s) == s.subrange(i, j),
    decreases s.len(),
{
    if i > 0 {
        lemma_trim_range(s.drop_first(), i - 1, j - 1);
        assert(s.drop_first().subrange(i - 1, j - 1) =~= s.subrange(i, j));
    } else if j < s.len() {
        lemma_trim_range(s.drop_last(), i, j);
        assert(s.drop_last().subrange(i, j) =~= s.subrange(i, j));
    } else {
        assert(trim_spec(s) == s);
        assert(s.subrange(0, s.len() as int) =~= s);
    }
}

/// ASCII whitespace test.
fn is_ws_byte(b: u8) -> (r: bool)
    ensures
        r == is_ws(b),
{
    b == 32 || (9 <= b && b <= 13)
}

/// Trim leading and trailing whitespace from a line of bytes.
fn trim_bytes(line: &Vec<u8>) -> (t: Vec<u8>)
    ensures
        t@ == trim_spec(line@),
{
    let n = line.len();
    let mut i: usize = 0;
    while i < n && is_ws_byte(line[i])
        invariant
            n == line@.len(),
            0 <= i <= n,
            forall|k: int| 0 <= k < i ==> is_ws(#[trigger] line@[k]),
        decreases n - i,
    {
        i = i + 1;
    }
    if i == n {
        proof {
            lemma_trim_all_ws(line@);
        }
        return Vec::new();
    }
    let mut j: usize = n;
    while j > i && is_ws_byte(line[j - 1])
        invariant
            n == line@.len(),
            0 <= i <= j <= n,
            i < n,
            !is_ws(line@[i as int]),
            forall|k: int| j <= k < n ==> is_ws(#[trigger] line@[k]),
        decreases j,
    {
        j = j - 1;
    }
    let mut t: Vec<u8> = Vec::new();
    let mut k: usize = i;
    while k < j
        invariant
            n == line@.len(),
            0 <= i <= k <= j <= n,
            t@ =~= line@.subrange(i as int, k as int),
        decreases j - k,
    {
        t.push(line[k]);
        proof {
            assert(t@ =~= line@.subrange(i as int, k + 1));
        }
        k = k + 1;
    }
    proof {
        lemma_trim_range(line@, i as int, j as int);
    }
    t
}

/// Whether a trimmed line starts with the `data: ` framing prefix.
fn starts_with_data(t: &Vec<u8>) -> (r: bool)
    ensures
        r == (t@.len() >= 6 && t@.take(6) == data_prefix()),
{
    if t.len() < 6 {
        return false;
    }
    let r = t[0] == 'd' as u8 && t[1] == 'a' as u8 && t[2] == 't' as u8 && t[3] == 'a' as u8
        && t[4] == ':' as u8 && t[5] == ' ' as u8;
    proof {
        if r {
            assert(t@.take(6) =~= data_prefix());
        } else {
            assert(t@.take(6) != data_prefix()) by {
                if t@.take(6) == data_prefix() {
                    assert(t@.take(6)[0] == 'd' as u8);
                    assert(t@.take(6)[1] == 'a' as u8);
                    assert(t@.take(6)[2] == 't' as u8);
                    assert(t@.take(6)[3] == 'a' as u8);
                    assert(t@.take(6)[4] == ':' as u8);
                    assert(t@.take(6)[5] == ' ' as u8);
                }
            }
        }
    }
    r
}

/// Whether a payload is exactly the `[DONE]` sentinel.
fn is_done_marker(payload: &Vec<u8>) -> (r: bool)
    ensures
        r == (payload@ == done_bytes()),
{
    if payload.len() != 6 {
        proof {
            assert(done_bytes().len() == 6);
        }
        return false;
    }
    let r = payload[0] == '[' as u8 && payload[1] == 'D' as u8 && payload[2] == 'O' as u8
        && payload[3] == 'N' as u8 && payload[4] == 'E' as u8 && payload[5] == ']' as u8;
    proof {
        if r {
            assert(payload@ =~= done_bytes());
        } else {
            assert(payload@ != done_bytes()) by {
                if payload@ == done_bytes() {
                    assert(payload@[0] == '[' as u8);
                    assert(payload@[1] == 'D' as u8);
                    assert(payload@[2] == 'O' as u8);
                    assert(payload@[3] == 'N' as u8);
                    assert(payload@[4] == 'E' as u8);
                    assert(payload@[5] == ']' as u8);
                }
            }
        }
    }
    r
}

/// The bytes of a line after its six-byte framing prefix.
fn tail_after_prefix(t: &Vec<u8>) -> (payload: Vec<u8>)
    requires
        t@.len() >= 6,
    ensures
        payload@ == t@.skip(6),
{
    let mut payload: Vec<u8> = Vec::new();
    let mut k: usize = 6;
    while k < t.len()
        invariant
            6 <= k <= t@.len(),
            payload@ =~= t@.subrange(6, k as int),
        decreases t@.len() - k,
    {
        payload.push(t[k]);
        proof {
            assert(payload@ =~= t@.subrange(6, k + 1));
        }
        k = k + 1;
    }
    proof {
        assert(payload@ =~= t@.skip(6));
    }
    payload
}

/// Incremental parser for the framed event stream. Feed it the raw bytes as
/// they arrive; it buffers the current line and folds complete lines into
/// the accumulated output text, token counts, and sentinel flag.
pub struct StreamParser {
    /// Bytes of the current, not yet newline-terminated line.
    pub buffer: Vec<u8>,
    /// Output text accumulated from content deltas.
    pub text: String,
    /// Input token count from the last usage object seen.
    pub input_tokens: u32,
    /// Output token count from the last usage object seen.
    pub output_tokens: u32,
    /// Whether the `[DONE]` sentinel was seen.
    pub saw_done: bool,
}

impl StreamParser {
    /// The accumulated state, as the fold specs speak of it.
    pub open spec fn acc(self) -> LineAcc {
        (self.text@, self.input_tokens, self.output_tokens, self.saw_done)
    }

    /// The whole parser state, residual buffer included.
    pub open spec fn state(self) -> ParserState {
        (self.buffer@, self.acc())
    }

    /// A fresh parser: empty buffer, no text, no tokens, no sentinel.
    pub fn new() -> (parser: StreamParser)
        ensures
            parser.state() == ((Seq::<u8>::empty(), (Seq::<char>::empty(), 0u32, 0u32, false))),
    {
        let parser = StreamParser {
            buffer: Vec::new(),
            text: String::new(),
            input_tokens: 0,
            output_tokens: 0,
            saw_done: false,
        };
        proof {
            assert(parser.buffer@ =~= Seq::<u8>::empty());
            assert(parser.text@ =~= Seq::<char>::empty());
        }
        parser
    }

    /// Apply one complete (already de-framed) line to the accumulated state.
    fn process_line(&mut self, line: &Vec<u8>)
        ensures
            final(self).buffer == old(self).buffer,
            final(self).acc() == step_line(old(self).acc(), line@),
    {
        let t = trim_bytes(line);
        if !starts_with_data(&t) {
            return;
        }
        let payload = tail_after_prefix(&t);
        if is_done_marker(&payload) {
            self.saw_done = true;
            return;
        }
        match parse_chunk_payload(&payload) {
            Some(p) => {
                let ghost contents_view = p@.0;
                let mut k: usize = 0;
                while k < p.contents.len()
                    invariant
                        contents_view == p@.0,
                        contents_view.len() == p.contents@.len(),
                        0 <= k <= p.contents@.len(),
                        self.text@ == old(self).text@ + joined_contents(
                            contents_view.take(k as int),
                        ),
                        self.buffer == old(self).buffer,
                        self.input_tokens == old(self).input_tokens,
                        self.output_tokens == old(self).output_tokens,
                        self.saw_done == old(self).saw_done,
                        forall|m: int|
                            0 <= m < p.contents@.len() ==> contents_view[m] == (match p.contents@[m] {
                                Some(s) => Some(s@),
                                None => None,
                            }),
                    decreases p.contents@.len() - k,
                {
                    proof {
                        assert(contents_view.take(k + 1).drop_last() =~= contents_view.take(
                            k as int,
                        ));
                        assert(contents_view.take(k + 1).last() == contents_view[k as int]);
                    }
                    match &p.contents[k] {
                        Some(s) => {
                            self.text.append(s.as_str());
                        },
                        None => {
                            proof {
                                assert(self.text@ =~= self.text@ + Seq::<char>::empty());
                            }
                        },
                    }
                    k = k + 1;
                }
                proof {
                    assert(contents_view.take(p.contents@.len() as int) =~= contents_view);
                }
                match p.usage {
                    Some(u) => {
                        self.input_tokens = u.prompt_tokens;
                        self.output_tokens = u.completion_tokens;
                    },
                    None => {},
                }
            },
            None => {},
        }
    }

    /// Feed a chunk of raw bytes to the parser. The new state is exactly the
    /// fold of `step_byte` over the chunk, starting from the old state.
    pub fn feed(&mut self, chunk: &Vec<u8>)
        ensures
            final(self).state() == step_bytes(old(self).state(), chunk@),
    {
        let n = chunk.len();
        let mut i: usize = 0;
        while i < n
            invariant
                n == chunk@.len(),
                0 <= i <= n,
                self.state() == step_bytes(old(self).state(), chunk@.take(i as int)),
            decreases n - i,
        {
            proof {
                assert(chunk@.take(i + 1) =~= chunk@.take(i as int).push(chunk@[i as int]));
                lemma_step_bytes_snoc(old(self).state(), chunk@.take(i as int), chunk@[i as int]);
            }
            let b = chunk[i];
            if b == 10 {
                let line = self.buffer.clone();
                self.buffer = Vec::new();
                self.process_line(&line);
                proof {
                    assert(self.buffer@ =~= Seq::<u8>::empty());
                }
            } else {
                self.buffer.push(b);
            }
            i = i + 1;
        }
        proof {
            assert(chunk@.take(n as int) =~= chunk@);
        }
    }
}

/// The time-to-first-token a streaming call reports: the elapsed time at the
/// first received chunk (or the total latency if none arrived), less the
/// prompt transmission time, floored at zero.
pub open spec fn spec_ttft(
    time_to_prompt_ms: u64,
    first_chunk_ms: Option<u64>,
    total_latency_ms: u64,
) -> u64 {
    let at = match first_chunk_ms {
        Some(f) => f,
        None => total_latency_ms,
    };
    if at >= time_to_prompt_ms {
        (at - time_to_prompt_ms) as u64
    } else {
        0
    }
}

/// Assemble the response of a streaming call from the parser's final state
/// and the measured times. The elapsed times must be measured on one
/// monotonic clock, so neither the prompt time nor the first-chunk time
/// exceeds the total.
pub fn streaming_response(
    parser: &StreamParser,
    time_to_prompt_ms: u64,
    first_chunk_ms: Option<u64>,
    total_latency_ms: u64,
) -> (r: InferenceResponse)
    requires
        time_to_prompt_ms <= total_latency_ms,
        first_chunk_ms matches Some(f) ==> f <= total_latency_ms,
    ensures
        r.text@ == parser.text@,
        r.input_tokens == parser.input_tokens,
        r.output_tokens == parser.output_tokens,
        r.time_to_prompt_ms == time_to_prompt_ms,
        r.time_to_first_token_ms == spec_ttft(time_to_prompt_ms, first_chunk_ms, total_latency_ms),
        r.total_latency_ms == total_latency_ms,
        r.model_load_time_ms is None,
        r.wf(),
{
    let at = match first_chunk_ms {
        Some(f) => f,
        None => total_latency_ms,
    };
    let time_to_first_token_ms = if at >= time_to_prompt_ms {
        at - time_to_prompt_ms
    } else {
        0
    };
    InferenceResponse {
        text: parser.text.clone(),
        input_tokens: parser.input_tokens,
        output_tokens: parser.output_tokens,
        time_to_prompt_ms,
        time_to_first_token_ms,
        total_latency_ms,
        model_load_time_ms: None,
    }
}

/// Assemble the response of a non-streaming call. Such a backend cannot
/// observe a first token, so the time to first token is approximated by the
/// prompt transmission time - a documented limitation, not corrected here.
/// A positive reported load duration (nanoseconds) becomes the one-time
/// model load time in milliseconds; zero means none was reported.
pub fn nonstreaming_response(
    text: String,
    input_tokens: u32,
    output_tokens: u32,
    load_duration_ns: u64,
    time_to_prompt_ms: u64,
    total_latency_ms: u64,
) -> (r: InferenceResponse)
    requires
        time_to_prompt_ms <= total_latency_ms,
    ensures
        r.text == text,
        r.input_tokens == input_tokens,
        r.output_tokens == output_tokens,
        r.time_to_prompt_ms == time_to_prompt_ms,
        r.time_to_first_token_ms == time_to_prompt_ms,
        r.total_latency_ms == total_latency_ms,
        r.model_load_time_ms == (if load_duration_ns > 0 {
            Some((load_duration_ns / 1_000_000) as u64)
        } else {
            Option::<u64>::None
        }),
        r.wf(),
{
    let model_load_time_ms = if load_duration_ns > 0 {
        Some(load_duration_ns / 1_000_000)
    } else {
        None
    };
    InferenceResponse {
        text,
        input_tokens,
        output_tokens,
        time_to_prompt_ms,
        time_to_first_token_ms: time_to_prompt_ms,
        total_latency_ms,
        model_load_time_ms,
    }
}

} // verus!

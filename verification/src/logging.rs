//! Tracing context that travels with the messages between actors, and the rendering of trace
//! headers and log levels.
use vstd::prelude::*;

use opentelemetry::trace::TraceContextExt;
use tracing_opentelemetry::OpenTelemetrySpanExt;

verus! {

/// A span of the `tracing` crate.
#[verifier::external_type_specification]
#[verifier::external_body]
pub struct ExSpan(tracing::Span);

/// Cloning a span (`<tracing::Span as Clone>::clone`) gives a new handle to the same span;
/// nothing is stated of the handle.
pub assume_specification[ <tracing::Span as Clone>::clone ](span: &tracing::Span) -> tracing::Span;

/// The current span of the calling thread (`tracing::Span::current`). What it returns depends on
/// the thread's state, so nothing is stated of it.
#[verifier::external_body]
fn current_span() -> tracing::Span {
    tracing::Span::current()
}

/// A span that is disabled and belongs to no trace (`tracing::Span::none`). Nothing is stated of
/// it beyond its type.
#[verifier::external_body]
fn no_span() -> tracing::Span {
    tracing::Span::none()
}

/// The id of the span within its subscriber (`tracing::Span::id`), where the span is enabled.
/// The id depends on the subscriber's state, so nothing is stated of it.
#[verifier::external_body]
fn span_id_of(span: &tracing::Span) -> Option<u64> {
    span.id().map(|id| id.into_u64())
}

/// The OpenTelemetry trace id of the span, big endian (via `OpenTelemetrySpanExt::context`). It
/// depends on the subscriber's state, so nothing is stated of it.
#[verifier::external_body]
fn otel_trace_id_of(span: &tracing::Span) -> u128 {
    u128::from_be_bytes(span.context().span().span_context().trace_id().to_bytes())
}

/// Whether OpenTelemetry samples the span's trace (via `OpenTelemetrySpanExt::context`). It
/// depends on the subscriber's state, so nothing is stated of it.
#[verifier::external_body]
fn otel_sampled_of(span: &tracing::Span) -> bool {
    span.context().span().span_context().is_sampled()
}

/// The trace state of the span's OpenTelemetry context rendered as a header value
/// (`TraceState::header`). It depends on the subscriber's state, so nothing is stated of it.
#[verifier::external_body]
fn otel_trace_state_of(span: &tracing::Span) -> String {
    span.context().span().span_context().trace_state().header()
}

/// Context that is needed to situate certain actions in the overall context: the span that
/// actions of an actor belong to.
#[derive(Clone, Debug)]
pub struct TracingContext(tracing::Span);

impl TracingContext {
    /// The span this context situates actions in.
    pub closed spec fn span_of(&self) -> tracing::Span {
        self.0
    }

    /// The tracing context of the calling thread.
    pub fn current() -> TracingContext {
        TracingContext(current_span())
    }

    /// A tracing context associated with the given span.
    pub fn new(span: tracing::Span) -> (c: TracingContext)
        ensures
            c.span_of() == span,
    {
        TracingContext(span)
    }

    /// The span of this context.
    pub fn span(&self) -> (s: &tracing::Span)
        ensures
            *s == self.span_of(),
    {
        &self.0
    }

    /// A context of a span that belongs to no trace.
    pub fn dummy() -> TracingContext {
        TracingContext(no_span())
    }

    /// The `traceparent` header of this context, where its span is enabled.
    pub fn traceparent_header(&self) -> (h: Option<String>)
        ensures
            h matches Some(v) ==> exists|span_id: u64, trace_id: u128, sampled: bool|
                v@ == #[trigger] spec_traceparent(span_id, trace_id, sampled),
    {
        let span_id = span_id_of(&self.0);
        let trace_id = otel_trace_id_of(&self.0);
        let sampled = otel_sampled_of(&self.0);
        let h = traceparent_from(span_id, trace_id, sampled);
        proof {
            if let Some(id) = span_id {
                assert(h.unwrap()@ == spec_traceparent(id, trace_id, sampled));
            }
        }
        h
    }

    /// The `tracestate` header of this context, where its trace state is not empty.
    pub fn tracestate_header(&self) -> (h: Option<String>)
        ensures
            h matches Some(v) ==> v@.len() > 0,
    {
        tracestate_from(otel_trace_state_of(&self.0))
    }

    /// The W3C trace context headers of this context, as names and values: none where the span
    /// has no id, else its `traceparent` header, followed by its `tracestate` where that is not
    /// empty.
    pub fn w3c_headers(&self) -> (headers: Vec<(String, String)>)
        ensures
            headers.len() <= 2,
            headers.len() > 0 ==> headers@[0].0@ == "traceparent"@,
            headers.len() > 0 ==> exists|span_id: u64, trace_id: u128, sampled: bool|
                headers@[0].1@ == #[trigger] spec_traceparent(span_id, trace_id, sampled),
            headers.len() == 2 ==> headers@[1].0@ == "tracestate"@ && headers@[1].1@.len() > 0,
    {
        let traceparent = self.traceparent_header();
        let tracestate = if traceparent.is_some() {
            self.tracestate_header()
        } else {
            None
        };
        w3c_headers_from(traceparent, tracestate)
    }
}

/// The `traceparent` header for the id of a span, the id of its trace and whether it is sampled;
/// none where the span has no id.
pub fn traceparent_from(span_id: Option<u64>, trace_id: u128, sampled: bool) -> (h: Option<String>)
    ensures
        match span_id {
            Some(id) => h matches Some(v) && v@ == spec_traceparent(id, trace_id, sampled),
            None => h is None,
        },
{
    match span_id {
        Some(id) => Some(TracingContext::format_traceparent_header(id, trace_id, sampled)),
        None => None,
    }
}

/// The `tracestate` header for a rendered trace state: none where it is empty, as vendors should
/// avoid sending empty trace states.
pub fn tracestate_from(header: String) -> (h: Option<String>)
    ensures
        header@.len() == 0 ==> h is None,
        header@.len() > 0 ==> h == Some(header),
{
    if header.as_str().unicode_len() == 0 {
        None
    } else {
        Some(header)
    }
}

/// The W3C trace context headers: `traceparent` where there is one, followed by its companion
/// `tracestate` where there is one too.
pub fn w3c_headers_from(traceparent: Option<String>, tracestate: Option<String>) -> (headers: Vec<
    (String, String),
>)
    ensures
        match traceparent {
            None => headers.len() == 0,
            Some(p) => match tracestate {
                None => headers.len() == 1 && headers@[0].0@ == "traceparent"@ && headers@[0].1 == p,
                Some(st) => headers.len() == 2 && headers@[0].0@ == "traceparent"@ && headers@[0].1
                    == p && headers@[1].0@ == "tracestate"@ && headers@[1].1 == st,
            },
        },
{
    let mut headers: Vec<(String, String)> = Vec::new();
    if let Some(p) = traceparent {
        headers.push(("traceparent".to_owned(), p));
        if let Some(st) = tracestate {
            headers.push(("tracestate".to_owned(), st));
        }
    }
    headers
}

/// The lower case hexadecimal digit of `d`.
pub open spec fn hex_digit(d: nat) -> char {
    "0123456789abcdef"@[d as int]
}

/// The lower case hexadecimal rendering of `n` with exactly `width` digits, padded with zeros
/// (the low `width` digits where `n` needs more).
pub open spec fn hex_fixed(n: nat, width: nat) -> Seq<char>
    decreases width,
{
    if width == 0 {
        Seq::empty()
    } else {
        hex_fixed(n / 16, (width - 1) as nat).push(hex_digit(n % 16))
    }
}

/// Render `n` in lower case hexadecimal with exactly `width` digits.
fn render_hex(n: u128, width: usize) -> (s: String)
    ensures
        s@ == hex_fixed(n as nat, width as nat),
{
    let digits = "0123456789abcdef";
    proof {
        reveal_strlit("0123456789abcdef");
    }
    // the digits from the least significant one on
    let mut low_first: Vec<usize> = Vec::new();
    let mut rest: u128 = n;
    let mut k: usize = 0;
    while k < width
        invariant
            k <= width,
            low_first.len() == k,
            forall|i: int| 0 <= i < k ==> #[trigger] low_first@[i] < 16,
            hex_fixed(n as nat, width as nat) == hex_fixed(rest as nat, (width - k) as nat) + Seq::new(
                k as nat,
                |i: int| hex_digit(low_first@[k - 1 - i] as nat),
            ),
        decreases width - k,
    {
        let d = (rest % 16) as usize;
        let ghost before = Seq::new(k as nat, |i: int| hex_digit(low_first@[k - 1 - i] as nat));
        low_first.push(d);
        let ghost after = Seq::new((k + 1) as nat, |i: int| hex_digit(low_first@[k - i] as nat));
        assert(after =~= seq![hex_digit(d as nat)] + before);
        assert(hex_fixed(rest as nat, (width - k) as nat) == hex_fixed(
            (rest / 16) as nat,
            (width - k - 1) as nat,
        ).push(hex_digit((rest % 16) as nat)));
        assert(hex_fixed(rest as nat, (width - k) as nat) + before =~= hex_fixed(
            (rest / 16) as nat,
            (width - k - 1) as nat,
        ) + after);
        rest = rest / 16;
        k = k + 1;
    }
    assert(hex_fixed(rest as nat, 0) =~= Seq::<char>::empty());
    let mut s = String::new();
    let mut j: usize = 0;
    while j < width
        invariant
            j <= width,
            low_first.len() == width,
            forall|i: int| 0 <= i < width ==> #[trigger] low_first@[i] < 16,
            digits@ == "0123456789abcdef"@,
            digits@.len() == 16,
            s@ == Seq::new(j as nat, |i: int| hex_digit(low_first@[width - 1 - i] as nat)),
        decreases width - j,
    {
        let d = low_first[width - 1 - j];
        let piece = digits.substring_char(d, d + 1);
        assert(piece@ =~= seq![hex_digit(d as nat)]);
        let ghost before = s@;
        s.append(piece);
        assert(s@ =~= Seq::new((j + 1) as nat, |i: int| hex_digit(low_first@[width - 1 - i] as nat)));
        j = j + 1;
    }
    assert(s@ =~= hex_fixed(n as nat, width as nat));
    s
}

/// The `traceparent` header of a span: the supported version `00`, the trace id, the span id and
/// the sampled flag, each in lower case hexadecimal and separated by dashes.
pub open spec fn spec_traceparent(span_id: u64, trace_id: u128, sampled: bool) -> Seq<char> {
    hex_fixed(0, 2) + "-"@ + hex_fixed(trace_id as nat, 32) + "-"@ + hex_fixed(span_id as nat, 16)
        + "-"@ + hex_fixed(if sampled { 1 } else { 0 }, 2)
}

/// The value of a lower case hexadecimal digit.
pub open spec fn hex_digit_value(c: char) -> nat {
    if '0' <= c && c <= '9' {
        (c as int - '0' as int) as nat
    } else {
        (c as int - 'a' as int + 10) as nat
    }
}

/// The number that a sequence of lower case hexadecimal digits spells, most significant first.
pub open spec fn hex_value(s: Seq<char>) -> nat
    decreases s.len(),
{
    if s.len() == 0 {
        0
    } else {
        16 * hex_value(s.drop_last()) + hex_digit_value(s.last())
    }
}

/// Sixteen to the power of `w`.
pub open spec fn pow16(w: nat) -> nat
    decreases w,
{
    if w == 0 {
        1
    } else {
        16 * pow16((w - 1) as nat)
    }
}

proof fn lemma_hex_digit_value(d: nat)
    requires
        d < 16,
    ensures
        hex_digit_value(hex_digit(d)) == d,
{
    reveal_strlit("0123456789abcdef");
}

proof fn lemma_hex_fixed(n: nat, w: nat)
    requires
        n < pow16(w),
    ensures
        hex_fixed(n, w).len() == w,
        hex_value(hex_fixed(n, w)) == n,
    decreases w,
{
    if w == 0 {
    } else {
        let p = pow16((w - 1) as nat);
        assert(n / 16 < p) by (nonlinear_arith)
            requires
                n < 16 * p,
        ;
        lemma_hex_fixed(n / 16, (w - 1) as nat);
        lemma_hex_digit_value(n % 16);
        let s = hex_fixed(n, w);
        assert(s.drop_last() =~= hex_fixed(n / 16, (w - 1) as nat));
    }
}

proof fn lemma_pow16_values()
    ensures
        pow16(2) == 256,
        pow16(16) == 0x1_0000_0000_0000_0000,
        pow16(32) == 0x1_0000_0000_0000_0000_0000_0000_0000_0000,
{
    reveal_with_fuel(pow16, 33);
}

/// The `traceparent` header carries the trace id and the span id unchanged: it is 55 characters
/// long, and its second and third fields read back as the trace id and the span id, its last as
/// the sampled flag.
pub proof fn law_traceparent_carries_the_ids(span_id: u64, trace_id: u128, sampled: bool)
    ensures
        ({
            let h = spec_traceparent(span_id, trace_id, sampled);
            &&& h.len() == 55
            &&& hex_value(h.subrange(3, 35)) == trace_id
            &&& hex_value(h.subrange(36, 52)) == span_id
            &&& hex_value(h.subrange(53, 55)) == (if sampled { 1nat } else { 0nat })
        }),
{
    lemma_pow16_values();
    let flag: nat = if sampled { 1 } else { 0 };
    lemma_hex_fixed(0, 2);
    lemma_hex_fixed(trace_id as nat, 32);
    lemma_hex_fixed(span_id as nat, 16);
    lemma_hex_fixed(flag, 2);
    reveal_strlit("-");
    let h = spec_traceparent(span_id, trace_id, sampled);
    let dash = "-"@;
    assert(dash.len() == 1);
    assert(h.len() == 55);
    assert forall|i: int| 0 <= i < 32 implies h.subrange(3, 35)[i] == hex_fixed(
        trace_id as nat,
        32,
    )[i] by {
        assert(h[3 + i] == hex_fixed(trace_id as nat, 32)[i]);
    }
    assert forall|i: int| 0 <= i < 16 implies h.subrange(36, 52)[i] == hex_fixed(
        span_id as nat,
        16,
    )[i] by {
        assert(h[36 + i] == hex_fixed(span_id as nat, 16)[i]);
    }
    assert(h.subrange(3, 35) =~= hex_fixed(trace_id as nat, 32));
    assert(h.subrange(36, 52) =~= hex_fixed(span_id as nat, 16));
    assert(h.subrange(53, 55) =~= hex_fixed(flag, 2));
}

impl TracingContext {
    /// Construct a traceparent header from a span id and trace id.
    pub fn format_traceparent_header(span_id: u64, trace_id: u128, sampled: bool) -> (h: String)
        ensures
            h@ == spec_traceparent(span_id, trace_id, sampled),
    {
        let mut h = render_hex(0, 2);
        h.append("-");
        h.append(render_hex(trace_id, 32).as_str());
        h.append("-");
        h.append(render_hex(span_id as u128, 16).as_str());
        h.append("-");
        let flag: u128 = if sampled {
            1
        } else {
            0
        };
        h.append(render_hex(flag, 2).as_str());
        h
    }
}

/// The severity of a log event.
#[derive(Debug, Clone, Copy, PartialEq, Eq, Structural)]
pub enum LogLevel {
    Trace,
    Debug,
    Info,
    Warn,
    Error,
}

/// The terminal escape codes that open and close the color of a log level.
pub open spec fn spec_ansi_for_level(level: LogLevel) -> (Seq<char>, Seq<char>) {
    match level {
        LogLevel::Trace => ("\x1b[34m"@, "\x1b[0m"@),
        LogLevel::Debug => ("\x1b[36m"@, "\x1b[0m"@),
        LogLevel::Info => ("\x1b[32m"@, "\x1b[0m"@),
        LogLevel::Warn => ("\x1b[33m"@, "\x1b[0m"@),
        LogLevel::Error => ("\x1b[1;31m"@, "\x1b[0m"@),
    }
}

/// The color of a log level: blue, cyan, green, yellow and bold red, from trace to error.
pub fn ansi_for_level(level: LogLevel) -> (r: (&'static str, &'static str))
    ensures
        (r.0@, r.1@) == spec_ansi_for_level(level),
{
    match level {
        LogLevel::Trace => ("\x1b[34m", "\x1b[0m"),
        LogLevel::Debug => ("\x1b[36m", "\x1b[0m"),
        LogLevel::Info => ("\x1b[32m", "\x1b[0m"),
        LogLevel::Warn => ("\x1b[33m", "\x1b[0m"),
        LogLevel::Error => ("\x1b[1;31m", "\x1b[0m"),
    }
}

/// An attribute key of the GenAI semantic conventions starts with `genai.`.
pub open spec fn is_genai_key(key: Seq<char>) -> bool {
    key.len() >= 6 && key.subrange(0, 6) == "genai."@
}

/// A span carries GenAI attributes where any of its attribute keys is one.
pub open spec fn spec_has_genai_attributes(keys: Seq<Seq<char>>) -> bool {
    exists|i: int| 0 <= i < keys.len() && is_genai_key(#[trigger] keys[i])
}

/// Does a span with these attribute keys carry GenAI attributes?
pub fn has_genai_attributes(keys: &Vec<String>) -> (r: bool)
    ensures
        r == spec_has_genai_attributes(keys@.map_values(|k: String| k@)),
{
    let ghost views = keys@.map_values(|k: String| k@);
    let prefix = crate::text::chars_of("genai.");
    proof {
        reveal_strlit("genai.");
    }
    let mut i: usize = 0;
    while i < keys.len()
        invariant
            views == keys@.map_values(|k: String| k@),
            prefix@ == "genai."@,
            prefix@.len() == 6,
            i <= keys.len(),
            forall|k: int| 0 <= k < i ==> !is_genai_key(#[trigger] views[k]),
        decreases keys.len() - i,
    {
        let chars = crate::text::chars_of(keys[i].as_str());
        let found = crate::text::matches_at(&chars, &prefix, 0);
        assert(views[i as int] == keys@[i as int]@);
        if found {
            assert(chars@ == views[i as int]);
            assert(is_genai_key(views[i as int]));
            return true;
        }
        assert(!is_genai_key(views[i as int]));
        i = i + 1;
    }
    false
}

/// Whether the processor that keeps GenAI spans (`include_genai`), or the one that keeps the
/// others, handles a span with these attribute keys.
pub open spec fn spec_should_process(include_genai: bool, keys: Seq<Seq<char>>) -> bool {
    include_genai == spec_has_genai_attributes(keys)
}

/// Sends spans to one of two exporters: the GenAI processor keeps only spans with GenAI
/// attributes, the main processor only the others.
#[derive(Debug, Clone, Copy, PartialEq, Eq, Structural)]
pub struct GenAiSpanFilter {
    pub include_genai: bool,
}

impl GenAiSpanFilter {
    /// Does this processor handle a span with these attribute keys?
    pub fn should_process_span(&self, keys: &Vec<String>) -> (r: bool)
        ensures
            r == spec_should_process(self.include_genai, keys@.map_values(|k: String| k@)),
    {
        let has_genai = has_genai_attributes(keys);
        if self.include_genai {
            has_genai
        } else {
            !has_genai
        }
    }
}

/// Each span is handled by exactly one of the two processors: the GenAI one and the main one
/// never both take a span, and never both leave it.
pub proof fn law_each_span_goes_to_one_processor(keys: Seq<Seq<char>>)
    ensures
        spec_should_process(true, keys) != spec_should_process(false, keys),
{
}

} // verus!


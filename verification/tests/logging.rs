use pharia_kernel::logging::{
    ansi_for_level, has_genai_attributes, traceparent_from, tracestate_from, w3c_headers_from,
    GenAiSpanFilter, LogLevel, TracingContext,
};

#[test]
#[allow(clippy::unreadable_literal)]
fn traceparent_rendering_of_sampled_span() {
    let trace_id = 0x4bf92f3577b34da6a3ce929d0e0e4736;
    let span_id = 0x00f067aa0ba902b7;
    let sampled = true;
    assert_eq!(
        TracingContext::format_traceparent_header(span_id, trace_id, sampled),
        "00-4bf92f3577b34da6a3ce929d0e0e4736-00f067aa0ba902b7-01"
    );
}

#[test]
#[allow(clippy::unreadable_literal)]
fn traceparent_rendering_of_unsampled_span() {
    let trace_id = 0x4bf92f3577b34da6a3ce929d0e0e4736;
    let span_id = 0x00f067aa0ba902b7;
    let sampled = false;
    assert_eq!(
        TracingContext::format_traceparent_header(span_id, trace_id, sampled),
        "00-4bf92f3577b34da6a3ce929d0e0e4736-00f067aa0ba902b7-00"
    );
}

#[test]
fn traceparent_pads_small_ids_and_renders_the_largest() {
    assert_eq!(
        TracingContext::format_traceparent_header(1, 2, true),
        "00-00000000000000000000000000000002-0000000000000001-01"
    );
    assert_eq!(
        TracingContext::format_traceparent_header(u64::MAX, u128::MAX, false),
        "00-ffffffffffffffffffffffffffffffff-ffffffffffffffff-00"
    );
    for (span_id, trace_id) in [(0u64, 0u128), (0xabc, 0x1234_5678), (u64::MAX / 3, u128::MAX / 7)] {
        assert_eq!(
            TracingContext::format_traceparent_header(span_id, trace_id, true),
            format!("{:02x}-{:032x}-{:016x}-{:02x}", 0, trace_id, span_id, 1)
        );
    }
}

#[test]
fn log_levels_have_colors() {
    assert_eq!(ansi_for_level(LogLevel::Trace), ("\x1b[34m", "\x1b[0m"));
    assert_eq!(ansi_for_level(LogLevel::Debug), ("\x1b[36m", "\x1b[0m"));
    assert_eq!(ansi_for_level(LogLevel::Info), ("\x1b[32m", "\x1b[0m"));
    assert_eq!(ansi_for_level(LogLevel::Warn), ("\x1b[33m", "\x1b[0m"));
    assert_eq!(ansi_for_level(LogLevel::Error), ("\x1b[1;31m", "\x1b[0m"));
}

#[test]
fn tracing_context_keeps_its_span() {
    let context = TracingContext::new(tracing::Span::none());
    assert!(context.span().is_none());
    let current = TracingContext::current();
    assert!(current.span().is_none());
}

#[test]
fn empty_tracestate() {
    // Given a context containing a span with an empty tracestate
    let context = TracingContext::dummy();

    // When
    let tracestate = context.tracestate_header();

    // Then
    assert!(tracestate.is_none());
}

#[test]
fn w3c_headers_are_empty_if_no_trace_context_is_present() {
    let context = TracingContext::dummy();
    let headers = context.w3c_headers();
    assert!(headers.is_empty());
    assert!(context.traceparent_header().is_none());
}

#[test]
fn traceparent_needs_a_span_id() {
    assert_eq!(traceparent_from(None, 1, true), None);
    assert_eq!(
        traceparent_from(Some(0x00f067aa0ba902b7), 0x4bf92f3577b34da6a3ce929d0e0e4736, true),
        Some("00-4bf92f3577b34da6a3ce929d0e0e4736-00f067aa0ba902b7-01".to_owned())
    );
}

#[test]
fn empty_trace_state_is_not_sent() {
    assert_eq!(tracestate_from(String::new()), None);
    assert_eq!(
        tracestate_from("foo=bar".to_owned()),
        Some("foo=bar".to_owned())
    );
}

#[test]
fn tracestate_only_accompanies_a_traceparent() {
    assert!(w3c_headers_from(None, Some("foo=bar".to_owned())).is_empty());
    assert_eq!(
        w3c_headers_from(Some("tp".to_owned()), None),
        vec![("traceparent".to_owned(), "tp".to_owned())]
    );
    assert_eq!(
        w3c_headers_from(Some("tp".to_owned()), Some("foo=bar".to_owned())),
        vec![
            ("traceparent".to_owned(), "tp".to_owned()),
            ("tracestate".to_owned(), "foo=bar".to_owned())
        ]
    );
}

#[test]
fn genai_spans_go_to_their_own_processor() {
    let genai = vec!["http.method".to_owned(), "genai.request.model".to_owned()];
    let plain = vec!["gen_ai.request.model".to_owned(), "genai".to_owned()];
    assert!(has_genai_attributes(&genai));
    assert!(!has_genai_attributes(&plain));
    assert!(!has_genai_attributes(&vec![]));
    let genai_processor = GenAiSpanFilter {
        include_genai: true,
    };
    let main_processor = GenAiSpanFilter {
        include_genai: false,
    };
    for keys in [&genai, &plain] {
        assert_ne!(
            genai_processor.should_process_span(keys),
            main_processor.should_process_span(keys)
        );
    }
    assert!(genai_processor.should_process_span(&genai));
    assert!(main_processor.should_process_span(&plain));
}

use std::fmt;

use opentelemetry::{
    baggage::BaggageExt,
    global,
    propagation::{
        text_map_propagator::FieldIter, Extractor, Injector, TextMapCompositePropagator,
        TextMapPropagator,
    },
    trace::{SpanContext, SpanId, TraceContextExt, TraceFlags, TraceId, TraceState},
    Context, KeyValue,
};
use opentelemetry_sdk::propagation::{BaggagePropagator, TraceContextPropagator};
use pgtask::json::{Json, JsonObject};
use pgtask::propagation::{header_names, header_text, inject_context, inject_fields};
use tracing_opentelemetry::OpenTelemetrySpanExt;

struct HeaderExtractor<'a>(&'a JsonObject);

impl Extractor for HeaderExtractor<'_> {
    fn get(&self, key: &str) -> Option<&str> {
        header_text(self.0, key)
    }

    fn keys(&self) -> Vec<&str> {
        header_names(self.0)
    }
}

struct KeysPropagator {
    fields: Vec<String>,
}

impl fmt::Debug for KeysPropagator {
    fn fmt(&self, formatter: &mut fmt::Formatter<'_>) -> fmt::Result {
        formatter.debug_struct("KeysPropagator").finish()
    }
}

impl TextMapPropagator for KeysPropagator {
    fn inject_context(&self, _context: &Context, _injector: &mut dyn Injector) {}

    fn extract_with_context(&self, context: &Context, extractor: &dyn Extractor) -> Context {
        assert!(extractor.keys().contains(&"application"));
        assert_eq!(extractor.get("application"), Some("kept"));
        assert_eq!(extractor.get("numeric"), None);
        assert_eq!(extractor.get("missing"), None);
        context.clone()
    }

    fn fields(&self) -> FieldIter<'_> {
        FieldIter::new(&self.fields)
    }
}

fn configure_propagation() {
    global::set_text_map_propagator(TextMapCompositePropagator::new(vec![
        Box::new(TraceContextPropagator::new()),
        Box::new(BaggagePropagator::new()),
    ]));
}

#[test]
fn propagation_uses_json_headers_without_replacing_application_values() {
    configure_propagation();
    let span_context = SpanContext::new(
        TraceId::from_hex("4bf92f3577b34da6a3ce929d0e0e4736").unwrap(),
        SpanId::from_hex("00f067aa0ba902b7").unwrap(),
        TraceFlags::SAMPLED,
        false,
        TraceState::default(),
    );
    let context = Context::new()
        .with_remote_span_context(span_context)
        .with_baggage([KeyValue::new("tenant", "acme")]);
    let original = JsonObject::new()
        .with("application", Json::text("kept"))
        .with("numeric", Json::unsigned(1));

    let headers = inject_context(original, &context);

    assert_eq!(headers.get("application"), Some(&Json::text("kept")));
    assert_eq!(headers.get("numeric"), Some(&Json::unsigned(1)));
    assert_eq!(
        headers.get("traceparent"),
        Some(&Json::text(
            "00-4bf92f3577b34da6a3ce929d0e0e4736-00f067aa0ba902b7-01"
        ))
    );
    assert_eq!(headers.get("baggage"), Some(&Json::text("tenant=acme")));

    global::set_text_map_propagator(KeysPropagator { fields: Vec::new() });
    let context = global::get_text_map_propagator(|propagator| {
        propagator.extract(&HeaderExtractor(&headers))
    });
    assert!(tracing::Span::none().set_parent(context).is_err());
    configure_propagation();
    let context = global::get_text_map_propagator(|propagator| {
        propagator.extract(&HeaderExtractor(&headers))
    });
    assert_eq!(
        context.span().span_context().trace_id().to_string(),
        "4bf92f3577b34da6a3ce929d0e0e4736"
    );
}

#[test]
fn fields_take_the_place_of_headers_of_their_name() {
    let headers = inject_fields(
        JsonObject::new()
            .with("traceparent", Json::unsigned(1))
            .with("application", Json::Null),
        vec![
            ("traceparent".to_owned(), "new".to_owned()),
            ("baggage".to_owned(), "b=1".to_owned()),
        ],
    );
    assert_eq!(header_text(&headers, "traceparent"), Some("new"));
    assert_eq!(header_text(&headers, "baggage"), Some("b=1"));
    assert_eq!(header_text(&headers, "application"), None);
    assert_eq!(headers.get("application"), Some(&Json::Null));
    assert_eq!(header_names(&headers), ["traceparent", "application", "baggage"]);
}

use opentelemetry::{
    global,
    propagation::{text_map_propagator::FieldIter, Extractor, Injector, TextMapPropagator},
    Context,
};
use pgtask::json::{Json, JsonObject};
use pgtask::propagation::{header_names, header_text, inject_context};

/// Writes a field in mixed case, and another one twice.
#[derive(Debug)]
struct MixedCase {
    fields: Vec<String>,
}

impl TextMapPropagator for MixedCase {
    fn inject_context(&self, _context: &Context, injector: &mut dyn Injector) {
        injector.set("X-Trace-Id", "1".to_owned());
        injector.set("state", "old".to_owned());
        injector.set("state", "new".to_owned());
    }

    fn extract_with_context(&self, context: &Context, _extractor: &dyn Extractor) -> Context {
        context.clone()
    }

    fn fields(&self) -> FieldIter<'_> {
        FieldIter::new(&self.fields)
    }
}

#[test]
fn fields_keep_their_names_as_they_are_written() {
    global::set_text_map_propagator(MixedCase { fields: Vec::new() });
    let headers = inject_context(
        JsonObject::new().with("x-trace-id", Json::unsigned(7)),
        &Context::new(),
    );
    assert_eq!(header_text(&headers, "X-Trace-Id"), Some("1"));
    assert_eq!(headers.get("x-trace-id"), Some(&Json::unsigned(7)));
    assert_eq!(header_text(&headers, "state"), Some("new"));
    assert_eq!(header_names(&headers), ["x-trace-id", "X-Trace-Id", "state"]);
}

//! How a trace travels with a task: as text among the headers of the application.

use vstd::prelude::*;

use crate::json::{is_text, Json, JsonObject};

verus! {

/// A trace context of OpenTelemetry. Nothing is known of what it holds.
#[verifier::external_type_specification]
#[verifier::external_body]
pub struct ExContext(opentelemetry::Context);

/// The fields that a propagator wrote, in the order in which it wrote them.
pub struct Carrier {
    fields: Vec<(String, String)>,
}

impl View for Carrier {
    type V = Seq<(String, String)>;

    closed spec fn view(&self) -> Seq<(String, String)> {
        self.fields@
    }
}

impl opentelemetry::propagation::Injector for Carrier {
    /// Takes down a field under its name as it is written.
    fn set(&mut self, key: &str, value: String)
        ensures
            final(self)@.len() == old(self)@.len() + 1,
            final(self)@.drop_last() == old(self)@,
            final(self)@.last().0@ == key@,
            final(self)@.last().1 == value,
    {
        self.fields.push((key.to_owned(), value));
        assert(self@.drop_last() =~= old(self)@);
    }
}

/// Calls `inject_context` of the propagator that `opentelemetry::global` holds, and lists the
/// fields that it writes to a carrier. Which fields those are, and in what order they come, depends
/// on the propagator that the process has set, and stays unsaid.
#[verifier::external_body]
fn injected_fields(context: &opentelemetry::Context) -> (result: Vec<(String, String)>) {
    let mut carrier = Carrier { fields: Vec::new() };
    opentelemetry::global::get_text_map_propagator(|propagator| {
        propagator.inject_context(context, &mut carrier)
    });
    carrier.fields
}

/// Headers with fields added as text. A field takes the place of a header of its name.
pub open spec fn with_fields(
    headers: Map<Seq<char>, Json>,
    fields: Seq<(String, String)>,
) -> Map<Seq<char>, Json>
    decreases fields.len(),
{
    if fields.len() == 0 {
        headers
    } else {
        with_fields(headers, fields.drop_last()).insert(
            fields.last().0@,
            Json::Text(fields.last().1),
        )
    }
}

/// Adds the fields of a trace to headers.
pub fn inject_fields(headers: JsonObject, fields: Vec<(String, String)>) -> (result: JsonObject)
    ensures
        result@ == with_fields(headers@, fields@),
{
    let ghost given = fields@;
    let ghost original = headers@;
    let mut result = headers;
    assert(given.take(0) =~= Seq::empty());
    for field in iter: fields
        invariant
            iter.seq() == given,
            result@ == with_fields(original, given.take(iter.index() as int)),
    {
        let ghost place = iter.index() as int;
        assert(field == given[place]);
        assert(given.take(place + 1).drop_last() =~= given.take(place));
        let (name, value) = field;
        result = result.with(name.as_str(), Json::Text(value));
    }
    assert(given.take(given.len() as int) =~= given);
    result
}

/// Whether headers are others with the fields of some trace added.
pub open spec fn is_injected(
    result: Map<Seq<char>, Json>,
    headers: Map<Seq<char>, Json>,
    fields: Seq<(String, String)>,
) -> bool {
    result == with_fields(headers, fields)
}

/// Adds the trace of a context to headers, as the propagator of the process writes it.
pub fn inject_context(headers: JsonObject, context: &opentelemetry::Context) -> (result: JsonObject)
    ensures
        exists|fields: Seq<(String, String)>| #[trigger] is_injected(result@, headers@, fields),
{
    let fields = injected_fields(context);
    let ghost written = fields@;
    let ghost original = headers@;
    let result = inject_fields(headers, fields);
    assert(is_injected(result@, original, written));
    result
}

/// Headers that no field is named after are as they were.
pub proof fn application_headers_are_kept(
    headers: Map<Seq<char>, Json>,
    fields: Seq<(String, String)>,
    name: Seq<char>,
)
    requires
        headers.dom().contains(name),
        forall|i: int| 0 <= i < fields.len() ==> (#[trigger] fields[i]).0@ != name,
    ensures
        with_fields(headers, fields).dom().contains(name),
        with_fields(headers, fields)[name] == headers[name],
    decreases fields.len(),
{
    if fields.len() > 0 {
        assert(fields.last() == fields[fields.len() - 1]);
        assert forall|i: int| 0 <= i < fields.drop_last().len() implies (
        #[trigger] fields.drop_last()[i]).0@ != name by {
            assert(fields[i].0@ != name);
        }
        application_headers_are_kept(headers, fields.drop_last(), name);
    }
}

/// What a propagator writes is what it reads back: each field is a text header, unless a later one
/// took its name.
pub proof fn injected_fields_read_back(
    headers: Map<Seq<char>, Json>,
    fields: Seq<(String, String)>,
    place: int,
)
    requires
        0 <= place < fields.len(),
        forall|i: int| place < i < fields.len() ==> (#[trigger] fields[i]).0@ != fields[place].0@,
    ensures
        with_fields(headers, fields).dom().contains(fields[place].0@),
        is_text(with_fields(headers, fields)[fields[place].0@], fields[place].1@),
    decreases fields.len(),
{
    if place < fields.len() - 1 {
        let earlier = fields.drop_last();
        assert forall|i: int| place < i < earlier.len() implies (#[trigger] earlier[i]).0@
            != earlier[place].0@ by {
            assert(fields[i].0@ != fields[place].0@);
        }
        injected_fields_read_back(headers, earlier, place);
        assert(fields[place].0@ != fields[fields.len() - 1].0@);
    }
}

/// The text of a header, as a propagator asks for it: nothing where the header is missing or is no
/// text.
pub fn header_text<'a>(headers: &'a JsonObject, name: &str) -> (result: Option<&'a str>)
    ensures
        match result {
            Some(text) => headers@.dom().contains(name@) && is_text(headers@[name@], text@),
            None => !(headers@.dom().contains(name@) && headers@[name@] is Text),
        },
{
    match headers.get(name) {
        Some(value) => value.as_str(),
        None => None,
    }
}

/// The names of all headers.
pub fn header_names(headers: &JsonObject) -> (result: Vec<&str>)
    ensures
        result@.map_values(|name: &str| name@) == headers.keys(),
        headers.keys().to_set() == headers@.dom(),
{
    let count: usize = headers.len();
    let mut names: Vec<&str> = Vec::new();
    let mut index: usize = 0;
    assert(names@.map_values(|name: &str| name@) =~= headers.keys().take(0));
    while index < count
        invariant
            index <= count,
            count == headers.keys().len(),
            headers.keys().to_set() == headers@.dom(),
            names@.map_values(|name: &str| name@) == headers.keys().take(index as int),
        decreases count - index,
    {
        let ghost before = names@;
        names.push(headers.entry(index).0);
        assert(names@.map_values(|name: &str| name@) =~= before.map_values(
            |name: &str| name@,
        ).push(names@.last()@));
        assert(headers.keys().take(index + 1) =~= headers.keys().take(index as int).push(
            headers.keys()[index as int],
        ));
        index += 1;
    }
    assert(headers.keys().take(count as int) =~= headers.keys());
    names
}

/// Injection adds the fields, and no header besides.
pub proof fn only_fields_are_added(
    headers: Map<Seq<char>, Json>,
    fields: Seq<(String, String)>,
    name: Seq<char>,
)
    ensures
        with_fields(headers, fields).dom().contains(name) <==> headers.dom().contains(name)
            || exists|i: int| 0 <= i < fields.len() && (#[trigger] fields[i]).0@ == name,
    decreases fields.len(),
{
    if fields.len() > 0 {
        let earlier = fields.drop_last();
        only_fields_are_added(headers, earlier, name);
        assert(fields[fields.len() - 1] == fields.last());
        if exists|i: int| 0 <= i < earlier.len() && (#[trigger] earlier[i]).0@ == name {
            let i = choose|i: int| 0 <= i < earlier.len() && (#[trigger] earlier[i]).0@ == name;
            assert(fields[i].0@ == name);
        }
        if exists|i: int| 0 <= i < fields.len() && (#[trigger] fields[i]).0@ == name {
            let i = choose|i: int| 0 <= i < fields.len() && (#[trigger] fields[i]).0@ == name;
            if i < earlier.len() {
                assert(earlier[i].0@ == name);
            }
        }
    }
}

} // verus!

//! Events: what flows through the pipeline. An event maps unique string
//! field names to values; insertion order carries no meaning.

use vstd::prelude::*;

use crate::value::{spec_debug_of, spec_escape, Value, ValueView};

verus! {

/// One named field of an event.
pub struct EventField {
    pub name: String,
    pub value: Value,
}

/// An event: a mapping from field names to values, keys unique.
pub struct Event {
    pub fields: Vec<EventField>,
}

/// The value shape under the first field carrying `name`, if any.
pub open spec fn spec_event_get(fields: Seq<EventField>, name: Seq<char>) -> Option<ValueView>
    decreases fields.len(),
{
    if fields.len() == 0 {
        None
    } else if fields[0].name@ == name {
        Some(fields[0].value@)
    } else {
        spec_event_get(fields.drop_first(), name)
    }
}

/// No two fields carry the same name.
pub open spec fn spec_names_unique(fields: Seq<EventField>) -> bool {
    forall|i: int, j: int|
        0 <= i < j < fields.len() ==> #[trigger] fields[i].name@ != #[trigger] fields[j].name@
}

/// Replacing the field at one position with one of the same name moves the
/// lookup of that name to the new value and no other.
proof fn lemma_event_get_update(
    fields: Seq<EventField>,
    k: int,
    f2: EventField,
    name: Seq<char>,
)
    requires
        0 <= k < fields.len(),
        f2.name@ == fields[k].name@,
        forall|j: int| 0 <= j < k ==> #[trigger] fields[j].name@ != fields[k].name@,
    ensures
        spec_event_get(fields.update(k, f2), name) == if name == f2.name@ {
            Some(f2.value@)
        } else {
            spec_event_get(fields, name)
        },
    decreases fields.len(),
{
    if k == 0 {
        assert(fields.update(0, f2)[0] == f2);
        assert(fields.update(0, f2).drop_first() =~= fields.drop_first());
    } else {
        assert(fields.update(k, f2)[0] == fields[0]);
        assert(fields.update(k, f2).drop_first() =~= fields.drop_first().update(k - 1, f2));
        assert forall|j: int| 0 <= j < k - 1 implies #[trigger] fields.drop_first()[j].name@
            != fields.drop_first()[k - 1].name@ by {
            assert(fields.drop_first()[j] == fields[j + 1]);
        }
        lemma_event_get_update(fields.drop_first(), k - 1, f2, name);
    }
}

/// Appending a field with a fresh name adds that one lookup and no other.
proof fn lemma_event_get_push(fields: Seq<EventField>, f: EventField, name: Seq<char>)
    requires
        forall|j: int| 0 <= j < fields.len() ==> #[trigger] fields[j].name@ != f.name@,
    ensures
        spec_event_get(fields.push(f), name) == if name == f.name@ {
            Some(f.value@)
        } else {
            spec_event_get(fields, name)
        },
    decreases fields.len(),
{
    if fields.len() == 0 {
        reveal_with_fuel(spec_event_get, 3);
        assert(fields.push(f)[0] == f);
        assert(fields.push(f).drop_first() =~= Seq::<EventField>::empty());
    } else {
        assert(fields.push(f)[0] == fields[0]);
        assert(fields.push(f).drop_first() =~= fields.drop_first().push(f));
        assert forall|j: int| 0 <= j < fields.drop_first().len() implies #[trigger] fields.drop_first()[j].name@
            != f.name@ by {
            assert(fields.drop_first()[j] == fields[j + 1]);
        }
        lemma_event_get_push(fields.drop_first(), f, name);
        if fields[0].name@ == name {
            assert(spec_event_get(fields.push(f), name) == Some(fields[0].value@));
            assert(spec_event_get(fields, name) == Some(fields[0].value@));
            assert(fields[0].name@ != f.name@);
        } else {
            assert(spec_event_get(fields.push(f), name) == spec_event_get(
                fields.drop_first().push(f),
                name,
            ));
            assert(spec_event_get(fields, name) == spec_event_get(fields.drop_first(), name));
        }
    }
}

impl Event {
    /// Keys are unique: the event's invariant.
    pub open spec fn wf(&self) -> bool {
        spec_names_unique(self.fields@)
    }

    pub fn new() -> (e: Event)
        ensures
            e.fields@.len() == 0,
            e.wf(),
    {
        Event { fields: Vec::new() }
    }

    pub fn len(&self) -> (n: usize)
        ensures
            n == self.fields@.len(),
    {
        self.fields.len()
    }

    /// The value under a field name, if the event carries it.
    pub fn get<'a>(&'a self, name: &str) -> (r: Option<&'a Value>)
        ensures
            match spec_event_get(self.fields@, name@) {
                Some(v) => r matches Some(w) && w@ == v,
                None => r is None,
            },
    {
        let n = self.fields.len();
        proof {
            assert(self.fields@.skip(0) =~= self.fields@);
        }
        for i in 0..n
            invariant
                n == self.fields@.len(),
                spec_event_get(self.fields@, name@) == spec_event_get(
                    self.fields@.skip(i as int),
                    name@,
                ),
        {
            proof {
                assert(self.fields@.skip(i as int)[0] == self.fields@[i as int]);
                assert(self.fields@.skip(i as int).drop_first() =~= self.fields@.skip(i + 1));
            }
            if crate::text::str_eq(self.fields[i].name.as_str(), name) {
                return Some(&self.fields[i].value);
            }
        }
        None
    }

    /// Sets a field: replaces the value under an existing name, or appends
    /// a new field; every other field keeps its value, and keys stay
    /// unique.
    #[verifier::loop_isolation(false)]
    pub fn insert(&mut self, name: &str, v: Value)
        requires
            old(self).wf(),
        ensures
            final (self).wf(),
            spec_event_get(final (self).fields@, name@) == Some(v@),
            forall|other: Seq<char>|
                other != name@ ==> #[trigger] spec_event_get(final (self).fields@, other)
                    == spec_event_get(old(self).fields@, other),
    {
        let n = self.fields.len();
        let ghost fields0 = self.fields@;
        for i in 0..n
            invariant
                self.fields@ == fields0,
                forall|j: int| 0 <= j < i ==> #[trigger] fields0[j].name@ != name@,
        {
            if crate::text::str_eq(self.fields[i].name.as_str(), name) {
                let f2 = EventField { name: self.fields[i].name.clone(), value: v };
                self.fields.set(i, f2);
                proof {
                    lemma_event_get_update(fields0, i as int, f2, name@);
                    assert forall|other: Seq<char>|
                        other != name@ implies #[trigger] spec_event_get(
                        self.fields@,
                        other,
                    ) == spec_event_get(fields0, other) by {
                        lemma_event_get_update(fields0, i as int, f2, other);
                    }
                }
                return ;
            }
        }
        let f = EventField { name: name.to_owned(), value: v };
        self.fields.push(f);
        proof {
            lemma_event_get_push(fields0, f, name@);
            assert forall|other: Seq<char>|
                other != name@ implies #[trigger] spec_event_get(self.fields@, other)
                == spec_event_get(fields0, other) by {
                lemma_event_get_push(fields0, f, other);
            }
            assert forall|i: int, j: int|
                0 <= i < j < self.fields@.len() implies #[trigger] self.fields@[i].name@
                != #[trigger] self.fields@[j].name@ by {
                if j < self.fields@.len() - 1 {
                    assert(self.fields@[i] == fields0[i] && self.fields@[j] == fields0[j]);
                } else {
                    assert(self.fields@[j] == f);
                    assert(self.fields@[i] == fields0[i]);
                }
            }
        }
    }
}

/// Anything that can present itself as an event hands the pipeline one.
pub trait ToEvent {
    fn to(&self) -> Event;
}

/// The rendering of one event field: the quoted, escaped name, a colon,
/// then the debug form of the value.
pub open spec fn spec_field_text(f: EventField) -> Seq<char> {
    "\""@ + spec_escape(f.name@) + "\": "@ + spec_debug_of(f.value@)
}

/// The comma-separated renderings of an event's fields.
pub open spec fn spec_fields_text(fields: Seq<EventField>) -> Seq<char>
    decreases fields.len(),
{
    if fields.len() == 0 {
        Seq::empty()
    } else if fields.len() == 1 {
        spec_field_text(fields[0])
    } else {
        spec_fields_text(fields.drop_last()) + ", "@ + spec_field_text(fields.last())
    }
}

/// The one-line rendering of an event: its fields inside braces.
pub open spec fn spec_event_text(fields: Seq<EventField>) -> Seq<char> {
    "{"@ + spec_fields_text(fields) + "}"@
}

/// Renders an event into one line of text.
#[verifier::loop_isolation(false)]
pub fn render_event(event: &Event) -> (r: String)
    ensures
        r@ == spec_event_text(event.fields@),
{
    let mut out = String::new();
    out.append("{");
    let n = event.fields.len();
    for i in 0..n
        invariant
            out@ == "{"@ + spec_fields_text(event.fields@.take(i as int)),
    {
        proof {
            assert(event.fields@.take(i + 1).drop_last() =~= event.fields@.take(i as int));
            assert(event.fields@.take(i + 1).last() == event.fields@[i as int]);
        }
        if i > 0 {
            out.append(", ");
        }
        out.append("\"");
        out.append(crate::value::escape_text(event.fields[i].name.as_str()).as_str());
        out.append("\": ");
        out.append(event.fields[i].value.debug_text().as_str());
        proof {
            assert(out@ =~= "{"@ + spec_fields_text(event.fields@.take(i + 1)));
        }
    }
    out.append("}");
    proof {
        assert(event.fields@.take(n as int) =~= event.fields@);
        assert(out@ =~= spec_event_text(event.fields@));
    }
    out
}

} // verus!

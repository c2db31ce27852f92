use vstd::prelude::*;
use vstd::utf8::encode_utf8;
use crate::fields::{keys_unique, FieldMap};
use crate::messages::{Event, StreamQuery, StreamResults};
use crate::text::{coerce_bytes, coerced_text, val_to_string, StoreValue};

verus! {

/// A planned append: the stream to append to and the event's fields,
/// flattened into an ordered sequence of (field, value) pairs.
pub struct AppendCommand {
    /// The stream the event is appended to.
    pub stream: String,
    /// The field pairs, in the mapping's deterministic order.
    pub entries: Vec<(String, String)>,
}

/// A planned range read: one of the four retrieval modes selected by the
/// Cartesian combination of {time range present/absent} x {cap present/absent}.
pub enum QueryCommand {
    /// The whole stream, lowest to highest id.
    Full { stream: String },
    /// Lowest to highest id, limited to `count` results.
    FullCounted { stream: String, count: u64 },
    /// Within the inclusive timestamp interval.
    Bounded { stream: String, min_time: u64, max_time: u64 },
    /// Within the inclusive timestamp interval, limited to `count` results.
    BoundedCounted { stream: String, min_time: u64, max_time: u64, count: u64 },
}

/// Which planned read a stream query calls for.
pub open spec fn plan_matches(cmd: QueryCommand, q: StreamQuery) -> bool {
    match q.range {
        Some(tr) => if q.count > 0 {
            cmd matches QueryCommand::BoundedCounted { stream, min_time, max_time, count }
                && stream@ == q.stream_id@ && min_time == tr.min_time && max_time == tr.max_time
                && count == q.count
        } else {
            cmd matches QueryCommand::Bounded { stream, min_time, max_time } && stream@
                == q.stream_id@ && min_time == tr.min_time && max_time == tr.max_time
        },
        None => if q.count > 0 {
            cmd matches QueryCommand::FullCounted { stream, count } && stream@ == q.stream_id@
                && count == q.count
        } else {
            cmd matches QueryCommand::Full { stream } && stream@ == q.stream_id@
        },
    }
}

/// Plans the range read a query calls for: a bounded read exactly when a
/// time range is present, a counted read exactly when the cap is non-zero.
pub fn plan_query(query: &StreamQuery) -> (cmd: QueryCommand)
    ensures
        plan_matches(cmd, *query),
{
    match &query.range {
        Some(tr) => {
            if query.count > 0 {
                QueryCommand::BoundedCounted {
                    stream: query.stream_id.clone(),
                    min_time: tr.min_time,
                    max_time: tr.max_time,
                    count: query.count,
                }
            } else {
                QueryCommand::Bounded {
                    stream: query.stream_id.clone(),
                    min_time: tr.min_time,
                    max_time: tr.max_time,
                }
            }
        },
        None => {
            if query.count > 0 {
                QueryCommand::FullCounted { stream: query.stream_id.clone(), count: query.count }
            } else {
                QueryCommand::Full { stream: query.stream_id.clone() }
            }
        },
    }
}

/// A raw stream entry as the store hands it back: the store-native id and
/// the entry's raw field values.
pub struct StreamItem {
    /// The store-native id, combining timestamp and sequence.
    pub id: String,
    /// The raw field values of the entry.
    pub fields: Vec<(String, StoreValue)>,
}

/// The text the raw fields of a stream entry are coerced to, in order.
pub open spec fn field_views(s: Seq<(String, StoreValue)>) -> Seq<(Seq<char>, Seq<char>)> {
    Seq::new(s.len(), |i: int| (s[i].0@, coerced_text(s[i].1)))
}

/// Reconstructs an event from a raw stream entry: the store-native id, the
/// queried stream name echoed back, and each raw value coerced to text.
pub fn build_event(stream: &str, item: &StreamItem) -> (e: Event)
    requires
        keys_unique(field_views(item.fields@)),
    ensures
        e.event_id@ == item.id@,
        e.stream@ == stream@,
        e.values.wf(),
        e.values.pairs_view() =~= field_views(item.fields@),
{
    let ghost target = field_views(item.fields@);
    let mut values = FieldMap::new();
    let mut i: usize = 0;
    while i < item.fields.len()
        invariant
            i <= item.fields@.len(),
            keys_unique(target),
            target == field_views(item.fields@),
            values.wf(),
            values.pairs_view() =~= target.subrange(0, i as int),
        decreases item.fields@.len() - i,
    {
        let k = item.fields[i].0.clone();
        let v = val_to_string(&item.fields[i].1);
        proof {
            assert(target[i as int] == (k@, v@));
            if values.contains_key(k@) {
                let w = values.spec_index_of(k@);
                assert(0 <= w < values.pairs_view().len() && values.pairs_view()[w].0 == k@);
                assert(target[w].0 == target[i as int].0);
            }
        }
        values.insert(k, v);
        proof {
            assert(values.pairs_view() =~= target.subrange(0, i + 1 as int));
        }
        i += 1;
    }
    proof {
        assert(values.pairs_view() =~= target);
    }
    Event { event_id: item.id.clone(), stream: stream.to_owned(), values }
}

/// Reconstructs the ordered result list of a stream query from the raw
/// entries the store returned, preserving the store's ascending order.
pub fn build_results(stream: &str, items: &Vec<StreamItem>) -> (r: StreamResults)
    requires
        forall|i: int| 0 <= i < items@.len() ==> keys_unique(field_views(items@[i].fields@)),
    ensures
        r.events@.len() == items@.len(),
        forall|i: int|
            0 <= i < items@.len() ==> {
                &&& r.events@[i].event_id@ == items@[i].id@
                &&& r.events@[i].stream@ == stream@
                &&& r.events@[i].values.wf()
                &&& r.events@[i].values.pairs_view() =~= field_views(items@[i].fields@)
            },
{
    let mut events: Vec<Event> = Vec::new();
    let mut i: usize = 0;
    while i < items.len()
        invariant
            i <= items@.len(),
            events@.len() == i,
            forall|k: int| 0 <= k < items@.len() ==> keys_unique(field_views(items@[k].fields@)),
            forall|k: int|
                0 <= k < i ==> {
                    &&& events@[k].event_id@ == items@[k].id@
                    &&& events@[k].stream@ == stream@
                    &&& events@[k].values.wf()
                    &&& events@[k].values.pairs_view() =~= field_views(items@[k].fields@)
                },
        decreases items@.len() - i,
    {
        let e = build_event(stream, &items[i]);
        events.push(e);
        i += 1;
    }
    StreamResults { events }
}

/// A field value that reaches the store as the UTF-8 encoding of a text is
/// coerced back to exactly that text on a query.
pub proof fn lemma_field_value_round_trip(text: Seq<char>)
    ensures
        coerce_bytes(encode_utf8(text)) == text,
{
    vstd::utf8::encode_utf8_valid_utf8(text);
    vstd::utf8::encode_utf8_decode_utf8(text);
}

/// Round trip of the translation layer: when a stream entry carries back,
/// in order, the written field names and binary values holding the UTF-8
/// encodings of the written field values, coercion reconstructs exactly
/// the written pairs, in order. With `build_event`'s contract this gives
/// the reconstructed event exactly the fields that were written.
pub proof fn lemma_write_query_round_trip(
    written: Seq<(Seq<char>, Seq<char>)>,
    fields: Seq<(String, StoreValue)>,
)
    requires
        fields.len() == written.len(),
        forall|i: int|
            0 <= i < written.len() ==> {
                &&& (#[trigger] fields[i]).0@ == written[i].0
                &&& fields[i].1 matches StoreValue::Data(b) && b@ == encode_utf8(written[i].1)
            },
    ensures
        field_views(fields) =~= written,
{
    assert forall|i: int| 0 <= i < written.len() implies coerced_text(fields[i].1) == written[
        i
    ].1 by {
        assert(fields[i].1 matches StoreValue::Data(b) && b@ == encode_utf8(written[i].1));
        lemma_field_value_round_trip(written[i].1);
    }
}

} // verus!

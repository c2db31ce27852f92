use redis_eventstreams::adapter::{build_results, QueryCommand, StreamItem};
use redis_eventstreams::descriptor::{get_descriptor, OperationDirection};
use redis_eventstreams::errors::ProviderError;
use redis_eventstreams::fields::{map_to_tuples, FieldMap};
use redis_eventstreams::messages::{CapabilityConfiguration, Event, StreamQuery, TimeRange};
use redis_eventstreams::provider::{route, Operation, RedisStreamsProvider};
use redis_eventstreams::text::{val_to_string, StoreValue};

fn test_config(module: &str, url: &str) -> CapabilityConfiguration {
    let mut values = FieldMap::new();
    values.insert("URL".to_string(), url.to_string());
    CapabilityConfiguration {
        module: module.to_string(),
        values,
    }
}

fn gen_values() -> FieldMap {
    let mut h = FieldMap::new();
    h.insert("test".to_string(), "ok".to_string());
    h.insert("scruffy-looking".to_string(), "nerf-herder".to_string());
    h
}

// An in-memory stand-in for the backing store: (timestamp, id, entries),
// appended in call order, read back in ascending id order.
fn append(store: &mut Vec<(u64, String, Vec<(String, String)>)>, entries: Vec<(String, String)>) {
    let ts = 1000 + store.len() as u64;
    let id = format!("{}-0", ts);
    store.push((ts, id, entries));
}

fn to_items(rows: &[(u64, String, Vec<(String, String)>)]) -> Vec<StreamItem> {
    rows.iter()
        .map(|(_, id, entries)| StreamItem {
            id: id.clone(),
            fields: entries
                .iter()
                .map(|(k, v)| (k.clone(), StoreValue::Data(v.clone().into_bytes())))
                .collect(),
        })
        .collect()
}

fn run_plan(
    store: &[(u64, String, Vec<(String, String)>)],
    cmd: &QueryCommand,
) -> Vec<StreamItem> {
    match cmd {
        QueryCommand::Full { .. } => to_items(store),
        QueryCommand::FullCounted { count, .. } => {
            let mut v = to_items(store);
            v.truncate(*count as usize);
            v
        }
        QueryCommand::Bounded {
            min_time, max_time, ..
        } => {
            let rows: Vec<(u64, String, Vec<(String, String)>)> = store
                .iter()
                .filter(|(ts, _, _)| *min_time <= *ts && *ts <= *max_time)
                .cloned()
                .collect();
            to_items(&rows)
        }
        QueryCommand::BoundedCounted {
            min_time,
            max_time,
            count,
            ..
        } => {
            let rows: Vec<(u64, String, Vec<(String, String)>)> = store
                .iter()
                .filter(|(ts, _, _)| *min_time <= *ts && *ts <= *max_time)
                .cloned()
                .collect();
            let mut v = to_items(&rows);
            v.truncate(*count as usize);
            v
        }
    }
}

#[test]
fn round_trip() {
    let mut prov = RedisStreamsProvider::new();
    let config = test_config("testing-actor", "redis://0.0.0.0:6379/");
    prov.configure(&config).unwrap();

    let mut store: Vec<(u64, String, Vec<(String, String)>)> = Vec::new();
    for _ in 0..6 {
        let ev = Event {
            event_id: "".to_string(),
            stream: "my-stream".to_string(),
            values: gen_values(),
        };
        let (_client, cmd) = prov.write_event("testing-actor", ev).unwrap();
        assert_eq!(cmd.stream.as_str(), "my-stream");
        append(&mut store, cmd.entries);
    }

    let query = StreamQuery {
        count: 0,
        range: None,
        stream_id: "my-stream".to_string(),
    };
    let (_client, plan) = prov.query_stream("testing-actor", &query).unwrap();
    assert!(matches!(&plan, QueryCommand::Full { stream } if stream.as_str() == "my-stream"));
    let items = run_plan(&store, &plan);
    let query_res = build_results("my-stream", &items);
    assert_eq!(6, query_res.events.len());
    assert_eq!(
        query_res.events[0]
            .values
            .get("scruffy-looking")
            .unwrap()
            .as_str(),
        "nerf-herder"
    );
    for (i, ev) in query_res.events.iter().enumerate() {
        assert_eq!(ev.event_id, format!("{}-0", 1000 + i));
        assert_eq!(ev.stream.as_str(), "my-stream");
        assert_eq!(ev.values.len(), 2);
        assert_eq!(ev.values.get("test").unwrap().as_str(), "ok");
        assert_eq!(ev.values.get("scruffy-looking").unwrap().as_str(), "nerf-herder");
    }
}

#[test]
fn write_six_query_all() {
    let mut prov = RedisStreamsProvider::new();
    prov.configure(&test_config("actor-1", "redis://0.0.0.0:6379/"))
        .unwrap();

    let mut store: Vec<(u64, String, Vec<(String, String)>)> = Vec::new();
    for i in 0..6 {
        let mut values = FieldMap::new();
        values.insert("scruffy-looking".to_string(), "nerf-herder".to_string());
        values.insert("marker".to_string(), format!("m{}", i));
        let ev = Event {
            event_id: "".to_string(),
            stream: "s1".to_string(),
            values,
        };
        let (_client, cmd) = prov.write_event("actor-1", ev).unwrap();
        append(&mut store, cmd.entries);
    }

    let query = StreamQuery {
        count: 0,
        range: None,
        stream_id: "s1".to_string(),
    };
    let (_client, plan) = prov.query_stream("actor-1", &query).unwrap();
    let items = run_plan(&store, &plan);
    let res = build_results("s1", &items);
    assert_eq!(6, res.events.len());
    for (i, ev) in res.events.iter().enumerate() {
        assert_eq!(
            ev.values.get("scruffy-looking").unwrap().as_str(),
            "nerf-herder"
        );
        assert_eq!(ev.values.get("marker").unwrap().as_str(), format!("m{}", i));
    }
}

#[test]
fn unconfigured_rejection() {
    let mut prov = RedisStreamsProvider::new();
    let ev = Event {
        event_id: "".to_string(),
        stream: "s1".to_string(),
        values: gen_values(),
    };
    match prov.write_event("ghost", ev) {
        Err(e) => assert_eq!(e, ProviderError::NotConfigured),
        Ok(_) => panic!("write for an unconfigured identity must fail"),
    }
    let query = StreamQuery {
        count: 0,
        range: None,
        stream_id: "s1".to_string(),
    };
    match prov.query_stream("ghost", &query) {
        Err(e) => assert_eq!(e, ProviderError::NotConfigured),
        Ok(_) => panic!("query for an unconfigured identity must fail"),
    }

    prov.configure(&test_config("actor-1", "redis://0.0.0.0:6379/"))
        .unwrap();
    prov.deconfigure("actor-1").unwrap();
    match prov.query_stream("actor-1", &query) {
        Err(e) => assert_eq!(e, ProviderError::NotConfigured),
        Ok(_) => panic!("query for a deconfigured identity must fail"),
    }
}

#[test]
fn replace_on_reconfigure() {
    let mut prov = RedisStreamsProvider::new();
    prov.configure(&test_config("actor-1", "redis://127.0.0.1:6379/"))
        .unwrap();
    prov.configure(&test_config("actor-1", "redis://127.0.0.1:6380/"))
        .unwrap();
    assert_eq!(
        prov.endpoint_of("actor-1").unwrap().as_str(),
        "redis://127.0.0.1:6380/"
    );
}

#[test]
fn idempotent_removal() {
    let mut prov = RedisStreamsProvider::new();
    prov.configure(&test_config("actor-1", "redis://0.0.0.0:6379/"))
        .unwrap();
    let first = prov.deconfigure("actor-1").unwrap();
    assert!(first.is_empty());
    let second = prov.deconfigure("actor-1").unwrap();
    assert!(second.is_empty());
    let never = prov.deconfigure("never-bound").unwrap();
    assert!(never.is_empty());
}

#[test]
fn count_cap() {
    let mut prov = RedisStreamsProvider::new();
    prov.configure(&test_config("actor-1", "redis://0.0.0.0:6379/"))
        .unwrap();
    let mut store: Vec<(u64, String, Vec<(String, String)>)> = Vec::new();
    for _ in 0..6 {
        let ev = Event {
            event_id: "".to_string(),
            stream: "s1".to_string(),
            values: gen_values(),
        };
        let (_client, cmd) = prov.write_event("actor-1", ev).unwrap();
        append(&mut store, cmd.entries);
    }
    let query = StreamQuery {
        count: 4,
        range: None,
        stream_id: "s1".to_string(),
    };
    let (_client, plan) = prov.query_stream("actor-1", &query).unwrap();
    assert!(matches!(&plan, QueryCommand::FullCounted { count: 4, .. }));
    let res = build_results("s1", &run_plan(&store, &plan));
    assert_eq!(4, res.events.len());
    for (i, ev) in res.events.iter().enumerate() {
        assert_eq!(ev.event_id, format!("{}-0", 1000 + i));
    }
}

#[test]
fn time_range_filter() {
    let mut prov = RedisStreamsProvider::new();
    prov.configure(&test_config("actor-1", "redis://0.0.0.0:6379/"))
        .unwrap();
    let mut store: Vec<(u64, String, Vec<(String, String)>)> = Vec::new();
    for _ in 0..6 {
        let ev = Event {
            event_id: "".to_string(),
            stream: "s1".to_string(),
            values: gen_values(),
        };
        let (_client, cmd) = prov.write_event("actor-1", ev).unwrap();
        append(&mut store, cmd.entries);
    }
    // rows carry timestamps 1000..=1005; keep the middle three
    let query = StreamQuery {
        count: 0,
        range: Some(TimeRange {
            min_time: 1001,
            max_time: 1003,
        }),
        stream_id: "s1".to_string(),
    };
    let (_client, plan) = prov.query_stream("actor-1", &query).unwrap();
    assert!(matches!(
        &plan,
        QueryCommand::Bounded {
            min_time: 1001,
            max_time: 1003,
            ..
        }
    ));
    let res = build_results("s1", &run_plan(&store, &plan));
    assert_eq!(3, res.events.len());
    assert_eq!(res.events[0].event_id.as_str(), "1001-0");
    assert_eq!(res.events[1].event_id.as_str(), "1002-0");
    assert_eq!(res.events[2].event_id.as_str(), "1003-0");
}

#[test]
fn time_range_with_count() {
    let mut prov = RedisStreamsProvider::new();
    prov.configure(&test_config("actor-1", "redis://0.0.0.0:6379/"))
        .unwrap();
    let mut store: Vec<(u64, String, Vec<(String, String)>)> = Vec::new();
    for _ in 0..6 {
        let ev = Event {
            event_id: "".to_string(),
            stream: "s1".to_string(),
            values: gen_values(),
        };
        let (_client, cmd) = prov.write_event("actor-1", ev).unwrap();
        append(&mut store, cmd.entries);
    }
    let query = StreamQuery {
        count: 2,
        range: Some(TimeRange {
            min_time: 1001,
            max_time: 1004,
        }),
        stream_id: "s1".to_string(),
    };
    let (_client, plan) = prov.query_stream("actor-1", &query).unwrap();
    assert!(matches!(
        &plan,
        QueryCommand::BoundedCounted {
            min_time: 1001,
            max_time: 1004,
            count: 2,
            ..
        }
    ));
    let res = build_results("s1", &run_plan(&store, &plan));
    assert_eq!(2, res.events.len());
    assert_eq!(res.events[0].event_id.as_str(), "1001-0");
    assert_eq!(res.events[1].event_id.as_str(), "1002-0");
}

#[test]
fn unknown_operation() {
    match route("system", "FooOp") {
        Err(e) => assert_eq!(e, ProviderError::BadDispatch),
        Ok(_) => panic!("an unknown operation must be rejected"),
    }
    match route("actor-1", "FooOp") {
        Err(e) => assert_eq!(e, ProviderError::BadDispatch),
        Ok(_) => panic!("an unknown operation must be rejected"),
    }
    match route("actor-1", "DeliverEvent") {
        Err(e) => assert_eq!(e, ProviderError::BadDispatch),
        Ok(_) => panic!("an operation the provider does not handle must be rejected"),
    }
}

#[test]
fn privilege_check() {
    for op in ["BindActor", "RemoveActor", "GetCapabilityDescriptor"] {
        match route("actor-1", op) {
            Err(e) => assert_eq!(e, ProviderError::BadDispatch),
            Ok(_) => panic!("a privileged operation from a non-system caller must be rejected"),
        }
    }
}

#[test]
fn route_known_operations() {
    assert_eq!(route("system", "BindActor").unwrap(), Operation::BindActor);
    assert_eq!(route("system", "RemoveActor").unwrap(), Operation::RemoveActor);
    assert_eq!(
        route("system", "GetCapabilityDescriptor").unwrap(),
        Operation::GetDescriptor
    );
    assert_eq!(route("anyone", "WriteEvent").unwrap(), Operation::WriteEvent);
    assert_eq!(route("system", "WriteEvent").unwrap(), Operation::WriteEvent);
    assert_eq!(
        route("anyone", "QueryStream").unwrap(),
        Operation::QueryStream
    );
}

#[test]
fn configure_rejects_bad_url() {
    let mut prov = RedisStreamsProvider::new();
    match prov.configure(&test_config("actor-1", "not-a-redis-url")) {
        Err(e) => assert_eq!(e, ProviderError::InvalidEndpoint),
        Ok(_) => panic!("a malformed endpoint URL must be rejected at bind time"),
    }
    let query = StreamQuery {
        count: 0,
        range: None,
        stream_id: "s1".to_string(),
    };
    match prov.query_stream("actor-1", &query) {
        Err(e) => assert_eq!(e, ProviderError::NotConfigured),
        Ok(_) => panic!("a failed bind must leave the identity unconfigured"),
    }
}

#[test]
fn configure_uses_default_endpoint() {
    let mut prov = RedisStreamsProvider::new();
    let config = CapabilityConfiguration {
        module: "actor-1".to_string(),
        values: FieldMap::new(),
    };
    prov.configure(&config).unwrap();
    assert_eq!(
        prov.endpoint_of("actor-1").unwrap().as_str(),
        "redis://0.0.0.0:6379/"
    );
}

#[test]
fn val_to_string_coercion() {
    assert_eq!(
        val_to_string(&StoreValue::Data("hello".as_bytes().to_vec())).as_str(),
        "hello"
    );
    assert_eq!(val_to_string(&StoreValue::Data(vec![0xff, 0xc0])).as_str(), "??");
    assert_eq!(val_to_string(&StoreValue::Other).as_str(), "??");
}

#[test]
fn map_to_tuples_keeps_insertion_order() {
    let mut m = FieldMap::new();
    m.insert("alpha".to_string(), "1".to_string());
    m.insert("beta".to_string(), "2".to_string());
    let tuples = map_to_tuples(m);
    assert_eq!(tuples.len(), 2);
    assert_eq!(tuples[0].0.as_str(), "alpha");
    assert_eq!(tuples[0].1.as_str(), "1");
    assert_eq!(tuples[1].0.as_str(), "beta");
    assert_eq!(tuples[1].1.as_str(), "2");
}

#[test]
fn field_map_replaces_value_in_place() {
    let mut m = FieldMap::new();
    m.insert("k".to_string(), "first".to_string());
    m.insert("other".to_string(), "x".to_string());
    m.insert("k".to_string(), "second".to_string());
    assert_eq!(m.len(), 2);
    assert_eq!(m.get("k").unwrap().as_str(), "second");
    let tuples = map_to_tuples(m);
    assert_eq!(tuples[0].0.as_str(), "k");
    assert_eq!(tuples[0].1.as_str(), "second");
}

#[test]
fn descriptor_reports_stream_operations() {
    let d = get_descriptor();
    assert_eq!(d.id.as_str(), "wascc:eventstreams");
    assert_eq!(d.name.as_str(), "waSCC Default Event Streams Provider (Redis)");
    assert_eq!(d.version.as_str(), "0.2.0");
    assert_eq!(d.revision, 2);
    assert_eq!(d.supported_operations.len(), 2);
    assert_eq!(d.supported_operations[0].op_name.as_str(), "WriteEvent");
    assert_eq!(
        d.supported_operations[0].direction,
        OperationDirection::ToProvider
    );
    assert_eq!(d.supported_operations[1].op_name.as_str(), "QueryStream");
    assert_eq!(
        d.supported_operations[1].direction,
        OperationDirection::ToProvider
    );

    let prov = RedisStreamsProvider::new();
    let d2 = prov.get_descriptor();
    assert_eq!(d2.id.as_str(), "wascc:eventstreams");
}

#[test]
fn error_messages() {
    assert_eq!(ProviderError::BadDispatch.message(), "bad dispatch");
    assert_eq!(
        ProviderError::NotConfigured.message(),
        "No client for this actor. Did the host configure it?"
    );
    assert_eq!(
        ProviderError::InvalidEndpoint.message(),
        "Failed to connect to redis: invalid endpoint URL"
    );
    assert_eq!(ProviderError::Store.message(), "Redis stream command failed");
    assert_eq!(ProviderError::Decode.message(), "Failed to de-serialize");
}

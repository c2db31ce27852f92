use vstd::prelude::*;
use crate::adapter::{plan_matches, plan_query, AppendCommand, QueryCommand};
use crate::connector::{endpoint_url, parsed_client, url_accepted};
use crate::descriptor;
use crate::descriptor::{descriptor_reported, CapabilityDescriptor};
use crate::errors::ProviderError;
use crate::fields::{map_to_tuples, pair_views};
use crate::messages::{CapabilityConfiguration, Event, StreamQuery};
use crate::registry::ClientRegistry;
use crate::text::str_eq;

verus! {

/// The operations the dispatch router recognises. The three configuration
/// operations are reserved to the system identity; the two stream
/// operations are open to any caller.
#[derive(Clone, Copy, Debug, PartialEq, Eq, Structural)]
pub enum Operation {
    /// Configure a caller's store client (system identity only).
    BindActor,
    /// Remove a caller's store client (system identity only).
    RemoveActor,
    /// Report the capability descriptor (system identity only).
    GetDescriptor,
    /// Append an event to a stream (any caller).
    WriteEvent,
    /// Query a range of events from a stream (any caller).
    QueryStream,
}

/// Where the dispatch router sends a call, keyed by caller identity and
/// operation name; anything unrecognised is rejected before any work.
pub open spec fn spec_route(actor: Seq<char>, op: Seq<char>) -> Result<Operation, ProviderError> {
    if op == "BindActor"@ && actor == "system"@ {
        Ok(Operation::BindActor)
    } else if op == "RemoveActor"@ && actor == "system"@ {
        Ok(Operation::RemoveActor)
    } else if op == "GetCapabilityDescriptor"@ && actor == "system"@ {
        Ok(Operation::GetDescriptor)
    } else if op == "WriteEvent"@ {
        Ok(Operation::WriteEvent)
    } else if op == "QueryStream"@ {
        Ok(Operation::QueryStream)
    } else {
        Err(ProviderError::BadDispatch)
    }
}

/// Routes an inbound call. Privileged operations dispatched by a non-system
/// caller, and operation names outside the recognised set, are rejected
/// with a dispatch error and no partial work.
pub fn route(actor: &str, op: &str) -> (r: Result<Operation, ProviderError>)
    ensures
        r == spec_route(actor@, op@),
{
    let system = str_eq(actor, "system");
    if str_eq(op, "BindActor") && system {
        Ok(Operation::BindActor)
    } else if str_eq(op, "RemoveActor") && system {
        Ok(Operation::RemoveActor)
    } else if str_eq(op, "GetCapabilityDescriptor") && system {
        Ok(Operation::GetDescriptor)
    } else if str_eq(op, "WriteEvent") {
        Ok(Operation::WriteEvent)
    } else if str_eq(op, "QueryStream") {
        Ok(Operation::QueryStream)
    } else {
        Err(ProviderError::BadDispatch)
    }
}

/// The provider core: the per-caller client registry and the planning and
/// reconstruction logic around it. The host-facing shell owns the dispatch
/// channel and performs the store commands this core plans.
pub struct RedisStreamsProvider {
    registry: ClientRegistry,
}

impl View for RedisStreamsProvider {
    type V = Map<Seq<char>, Seq<char>>;

    /// The provider abstracts to its registry: the map from configured
    /// caller identity to the endpoint URL its client was opened for.
    closed spec fn view(&self) -> Map<Seq<char>, Seq<char>> {
        self.registry@
    }
}

impl Default for RedisStreamsProvider {
    /// A provider with an empty registry.
    fn default() -> (r: Self)
        ensures
            r.wf(),
            r@ =~= Map::<Seq<char>, Seq<char>>::empty(),
    {
        RedisStreamsProvider::new()
    }
}

impl RedisStreamsProvider {
    /// Well-formed: the registry holds at most one entry per identity, and
    /// each entry holds the client parsed from its recorded endpoint.
    pub closed spec fn wf(&self) -> bool {
        self.registry.wf()
    }

    /// The client stored for the caller identity `a`.
    pub closed spec fn client_of(&self, a: Seq<char>) -> redis_streams::Client {
        self.registry.client_of(a)
    }

    /// A provider with an empty registry.
    pub fn new() -> (r: Self)
        ensures
            r.wf(),
            r@ =~= Map::<Seq<char>, Seq<char>>::empty(),
    {
        RedisStreamsProvider { registry: ClientRegistry::new() }
    }

    /// Opens a store client from the bind-time configuration and installs
    /// it under the caller identity, replacing any prior entry.
    pub fn configure(&mut self, config: &CapabilityConfiguration) -> (r: Result<
        Vec<u8>,
        ProviderError,
    >)
        requires
            old(self).wf(),
            config.values.wf(),
        ensures
            final(self).wf(),
            r is Ok <==> url_accepted(endpoint_url(*config)),
            r is Ok ==> final(self)@ == old(self)@.insert(config.module@, endpoint_url(*config)),
            r is Ok ==> final(self).client_of(config.module@) == parsed_client(
                endpoint_url(*config),
            ),
            r matches Ok(v) ==> v@ =~= Seq::<u8>::empty(),
            r matches Err(e) ==> e == ProviderError::InvalidEndpoint && *final(self) == *old(
                self,
            ),
    {
        self.registry.configure(config)
    }

    /// Removes the caller's entry; removing an absent identity is a no-op
    /// success.
    pub fn deconfigure(&mut self, actor: &str) -> (r: Result<Vec<u8>, ProviderError>)
        requires
            old(self).wf(),
        ensures
            final(self).wf(),
            r is Ok,
            r matches Ok(v) ==> v@ =~= Seq::<u8>::empty(),
            final(self)@ == old(self)@.remove(actor@),
    {
        self.registry.deconfigure(actor)
    }

    /// Looks the caller's store client up; fails with a registry error
    /// exactly when the identity is not configured. The client handed back
    /// is the one stored for this caller, the parse of the caller's
    /// recorded endpoint.
    pub fn actor_client(&self, actor: &str) -> (r: Result<
        &redis_streams::Client,
        ProviderError,
    >)
        requires
            self.wf(),
        ensures
            r is Ok <==> self@.contains_key(actor@),
            r matches Ok(c) ==> *c == self.client_of(actor@) && *c == parsed_client(
                self@[actor@],
            ),
            r matches Err(e) ==> e == ProviderError::NotConfigured,
    {
        self.registry.actor_client(actor)
    }

    /// The endpoint URL the caller's client was opened for, if configured.
    pub fn endpoint_of(&self, actor: &str) -> (r: Option<&String>)
        requires
            self.wf(),
        ensures
            r is Some <==> self@.contains_key(actor@),
            (match r {
                Some(u) => u@ == self@[actor@],
                None => true,
            }),
    {
        self.registry.endpoint_of(actor)
    }

    /// The write path: resolves the caller's client and flattens the event
    /// into the append the store is to perform. Any incoming event id is
    /// ignored; the store assigns the id. Fails with a registry error, and
    /// plans no store work, exactly when the caller is not configured.
    pub fn write_event(&self, actor: &str, event: Event) -> (r: Result<
        (&redis_streams::Client, AppendCommand),
        ProviderError,
    >)
        requires
            self.wf(),
            event.values.wf(),
        ensures
            r is Ok <==> self@.contains_key(actor@),
            r matches Ok(p) ==> *p.0 == self.client_of(actor@) && *p.0 == parsed_client(
                self@[actor@],
            ),
            r matches Ok(p) ==> p.1.stream@ == event.stream@ && pair_views(p.1.entries@)
                == event.values.pairs_view(),
            r matches Err(e) ==> e == ProviderError::NotConfigured,
    {
        match self.registry.actor_client(actor) {
            Ok(client) => {
                let entries = map_to_tuples(event.values);
                Ok((client, AppendCommand { stream: event.stream, entries }))
            },
            Err(e) => Err(e),
        }
    }

    /// The query path: resolves the caller's client and plans the range
    /// read the query calls for. Fails with a registry error, and plans no
    /// store work, exactly when the caller is not configured.
    pub fn query_stream(&self, actor: &str, query: &StreamQuery) -> (r: Result<
        (&redis_streams::Client, QueryCommand),
        ProviderError,
    >)
        requires
            self.wf(),
        ensures
            r is Ok <==> self@.contains_key(actor@),
            r matches Ok(p) ==> *p.0 == self.client_of(actor@) && *p.0 == parsed_client(
                self@[actor@],
            ),
            r matches Ok(p) ==> plan_matches(p.1, *query),
            r matches Err(e) ==> e == ProviderError::NotConfigured,
    {
        match self.registry.actor_client(actor) {
            Ok(client) => Ok((client, plan_query(query))),
            Err(e) => Err(e),
        }
    }

    /// Reports the fixed capability descriptor, the same on every call.
    /// No failure modes.
    pub fn get_descriptor(&self) -> (d: CapabilityDescriptor)
        ensures
            descriptor_reported(d),
    {
        descriptor::get_descriptor()
    }
}

} // verus!

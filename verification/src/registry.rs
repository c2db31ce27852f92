use vstd::prelude::*;
use vstd::map::*;
use crate::connector::{endpoint_string, endpoint_url, initialize_client, parsed_client, url_accepted};
use crate::errors::ProviderError;
use crate::messages::CapabilityConfiguration;
use crate::text::str_eq;

verus! {

/// One configured caller: its identity, the endpoint it selected, and the
/// store client opened for that endpoint.
struct RegistryEntry {
    actor: String,
    url: String,
    client: redis_streams::Client,
}

/// Whether some entry carries the caller identity `a`.
spec fn has_actor(s: Seq<RegistryEntry>, a: Seq<char>) -> bool {
    exists|i: int| 0 <= i < s.len() && s[i].actor@ == a
}

/// The position of the entry carrying `a` (unique when the registry is
/// well-formed).
spec fn actor_index(s: Seq<RegistryEntry>, a: Seq<char>) -> int {
    choose|i: int| 0 <= i < s.len() && s[i].actor@ == a
}

/// Pairwise-distinct caller identities.
spec fn actors_unique(s: Seq<RegistryEntry>) -> bool {
    forall|i: int, j: int| 0 <= i < j < s.len() ==> s[i].actor@ != s[j].actor@
}

/// Every entry's client is the one parsing its recorded endpoint yields.
spec fn clients_parsed(s: Seq<RegistryEntry>) -> bool {
    forall|i: int| 0 <= i < s.len() ==> s[i].client == parsed_client(s[i].url@)
}

proof fn lemma_actor_index(s: Seq<RegistryEntry>, a: Seq<char>, i: int)
    requires
        actors_unique(s),
        0 <= i < s.len(),
        s[i].actor@ == a,
    ensures
        has_actor(s, a),
        actor_index(s, a) == i,
{
    assert(has_actor(s, a));
    let w = actor_index(s, a);
    assert(0 <= w < s.len() && s[w].actor@ == a);
    if w < i {
        assert(s[w].actor@ != s[i].actor@);
    } else if i < w {
        assert(s[i].actor@ != s[w].actor@);
    }
}

/// The per-caller client registry: caller identity to store client, with a
/// later configuration for the same identity replacing the earlier one.
pub struct ClientRegistry {
    entries: Vec<RegistryEntry>,
}

impl View for ClientRegistry {
    type V = Map<Seq<char>, Seq<char>>;

    /// The registry abstracts to the map from caller identity to the
    /// endpoint URL its client was opened for.
    closed spec fn view(&self) -> Map<Seq<char>, Seq<char>> {
        Map::new(
            |a: Seq<char>| has_actor(self.entries@, a),
            |a: Seq<char>| self.entries@[actor_index(self.entries@, a)].url@,
        )
    }
}

impl ClientRegistry {
    /// Well-formed: no two entries share a caller identity, and each entry
    /// holds the client that parsing its recorded endpoint yields.
    pub closed spec fn wf(&self) -> bool {
        actors_unique(self.entries@) && clients_parsed(self.entries@)
    }

    /// The client stored for the caller identity `a` (meaningful when the
    /// registry is well-formed and holds `a`).
    pub closed spec fn client_of(&self, a: Seq<char>) -> redis_streams::Client {
        self.entries@[actor_index(self.entries@, a)].client
    }

    /// An empty registry.
    pub fn new() -> (r: ClientRegistry)
        ensures
            r.wf(),
            r@ =~= Map::<Seq<char>, Seq<char>>::empty(),
    {
        ClientRegistry { entries: Vec::new() }
    }

    /// The position of the entry for `actor`, if one exists.
    fn find_index(&self, actor: &str) -> (r: Option<usize>)
        ensures
            (match r {
                Some(i) => 0 <= i < self.entries@.len() && self.entries@[i as int].actor@
                    == actor@,
                None => !has_actor(self.entries@, actor@),
            }),
    {
        let mut i: usize = 0;
        while i < self.entries.len()
            invariant
                i <= self.entries@.len(),
                forall|j: int| 0 <= j < i ==> self.entries@[j].actor@ != actor@,
            decreases self.entries@.len() - i,
        {
            if str_eq(self.entries[i].actor.as_str(), actor) {
                return Some(i);
            }
            i += 1;
        }
        None
    }

    /// Opens a store client from the configuration and installs it under the
    /// caller identity, overwriting any prior entry for that identity.
    pub fn configure(&mut self, config: &CapabilityConfiguration) -> (r: Result<
        Vec<u8>,
        ProviderError,
    >)
        requires
            old(self).wf(),
            config.values.wf(),
        ensures
            final(self).wf(),
            r is Ok <==> url_accepted(endpoint_url(*config)),
            r is Ok ==> final(self)@ == old(self)@.insert(config.module@, endpoint_url(*config)),
            r is Ok ==> final(self).client_of(config.module@) == parsed_client(
                endpoint_url(*config),
            ),
            r matches Ok(v) ==> v@ =~= Seq::<u8>::empty(),
            r matches Err(e) ==> e == ProviderError::InvalidEndpoint && *final(self) == *old(
                self,
            ),
    {
        let client = match initialize_client(config) {
            Ok(c) => c,
            Err(e) => {
                return Err(e);
            },
        };
        let url = endpoint_string(config);
        let entry = RegistryEntry { actor: config.module.clone(), url, client };
        let ghost pre = self.entries@;
        let ghost a = config.module@;
        let ghost u = endpoint_url(*config);
        match self.find_index(config.module.as_str()) {
            Some(i) => {
                self.entries.set(i, entry);
                proof {
                    let post = self.entries@;
                    assert forall|p: int, q: int| 0 <= p < q < post.len() implies post[p].actor@
                        != post[q].actor@ by {
                        if p == i {
                            assert(pre[p].actor@ == a);
                            assert(pre[p].actor@ != pre[q].actor@);
                        } else if q == i {
                            assert(pre[q].actor@ == a);
                            assert(pre[p].actor@ != pre[q].actor@);
                        } else {
                            assert(pre[p].actor@ != pre[q].actor@);
                        }
                    }
                    assert forall|p: int| 0 <= p < post.len() implies post[p].client
                        == parsed_client(post[p].url@) by {
                        if p != i {
                            assert(pre[p].client == parsed_client(pre[p].url@));
                        }
                    }
                    lemma_actor_index(post, a, i as int);
                    self.lemma_view_is_insert(pre, i as int, a, u);
                }
            },
            None => {
                self.entries.push(entry);
                proof {
                    let post = self.entries@;
                    let n = pre.len() as int;
                    assert forall|p: int, q: int| 0 <= p < q < post.len() implies post[p].actor@
                        != post[q].actor@ by {
                        if q == n {
                            assert(post[q].actor@ == a);
                            if post[p].actor@ == a {
                                assert(has_actor(pre, a));
                            }
                        } else {
                            assert(pre[p].actor@ != pre[q].actor@);
                        }
                    }
                    assert forall|p: int| 0 <= p < post.len() implies post[p].client
                        == parsed_client(post[p].url@) by {
                        if p != n {
                            assert(pre[p].client == parsed_client(pre[p].url@));
                        }
                    }
                    lemma_actor_index(post, a, n);
                    self.lemma_view_is_insert(pre, n, a, u);
                }
            },
        }
        Ok(Vec::new())
    }

    /// After an entry carrying `a`/`u` was written at position `i` (all other
    /// positions unchanged), the registry abstracts to the old map with `a`
    /// bound to `u`.
    proof fn lemma_view_is_insert(&self, pre: Seq<RegistryEntry>, i: int, a: Seq<char>, u: Seq<
        char,
    >)
        requires
            actors_unique(self.entries@),
            actors_unique(pre),
            0 <= i < self.entries@.len(),
            self.entries@.len() == if i < pre.len() {
                pre.len() as int
            } else {
                pre.len() + 1 as int
            },
            self.entries@[i].actor@ == a,
            self.entries@[i].url@ == u,
            forall|j: int| 0 <= j < self.entries@.len() && j != i ==> j < pre.len()
                && self.entries@[j] == pre[j],
            i < pre.len() ==> pre[i].actor@ == a,
        ensures
            self@ == Map::new(
                |k: Seq<char>| has_actor(pre, k),
                |k: Seq<char>| pre[actor_index(pre, k)].url@,
            ).insert(a, u),
    {
        let post = self.entries@;
        let pre_map = Map::new(
            |k: Seq<char>| has_actor(pre, k),
            |k: Seq<char>| pre[actor_index(pre, k)].url@,
        );
        assert_maps_equal!(self.view(), pre_map.insert(a, u), k => {
            if k == a {
                lemma_actor_index(post, a, i);
            } else {
                if has_actor(post, k) {
                    let w = actor_index(post, k);
                    assert(0 <= w < post.len() && post[w].actor@ == k);
                    lemma_actor_index(post, k, w);
                    assert(w != i);
                    assert(pre[w].actor@ == k);
                    lemma_actor_index(pre, k, w);
                }
                if has_actor(pre, k) {
                    let w = actor_index(pre, k);
                    assert(0 <= w < pre.len() && pre[w].actor@ == k);
                    assert(w != i);
                    assert(post[w].actor@ == k);
                    lemma_actor_index(post, k, w);
                    lemma_actor_index(pre, k, w);
                }
            }
        });
    }

    /// Removes the entry for the caller identity if one exists; removing an
    /// absent identity is a no-op success.
    pub fn deconfigure(&mut self, actor: &str) -> (r: Result<Vec<u8>, ProviderError>)
        requires
            old(self).wf(),
        ensures
            final(self).wf(),
            r is Ok,
            r matches Ok(v) ==> v@ =~= Seq::<u8>::empty(),
            final(self)@ == old(self)@.remove(actor@),
    {
        let ghost pre = self.entries@;
        let ghost a = actor@;
        let ghost pre_map = self@;
        match self.find_index(actor) {
            Some(i) => {
                self.entries.swap_remove(i);
                proof {
                    let post = self.entries@;
                    let n = pre.len() as int;
                    assert(post.len() == n - 1);
                    assert(pre[i as int].actor@ == a);
                    assert forall|j: int| 0 <= j < post.len() implies post[j] == pre[
                        if j == i as int {
                            n - 1
                        } else {
                            j
                        }
                    ] by {}
                    assert forall|p: int, q: int| 0 <= p < q < post.len() implies post[p].actor@
                        != post[q].actor@ by {
                        let sp: int = if p == i as int { n - 1 } else { p };
                        let sq: int = if q == i as int { n - 1 } else { q };
                        if sp < sq {
                            assert(pre[sp].actor@ != pre[sq].actor@);
                        } else {
                            assert(pre[sq].actor@ != pre[sp].actor@);
                        }
                    }
                    assert forall|p: int| 0 <= p < post.len() implies post[p].client
                        == parsed_client(post[p].url@) by {
                        let sp: int = if p == i as int { n - 1 } else { p };
                        assert(pre[sp].client == parsed_client(pre[sp].url@));
                    }
                    assert_maps_equal!(self.view(), pre_map.remove(a), k => {
                        if has_actor(post, k) {
                            let w = actor_index(post, k);
                            assert(0 <= w < post.len() && post[w].actor@ == k);
                            lemma_actor_index(post, k, w);
                            let sw: int = if w == i as int { n - 1 } else { w };
                            assert(pre[sw].actor@ == k);
                            lemma_actor_index(pre, k, sw);
                            if k == a {
                                lemma_actor_index(pre, a, i as int);
                                assert(false);
                            }
                        }
                        if k != a && has_actor(pre, k) {
                            let w = actor_index(pre, k);
                            assert(0 <= w < pre.len() && pre[w].actor@ == k);
                            lemma_actor_index(pre, k, w);
                            assert(w != i as int) by {
                                if w == i as int {
                                    assert(pre[i as int].actor@ == a);
                                }
                            }
                            if w == n - 1 {
                                assert(post[i as int].actor@ == k);
                                lemma_actor_index(post, k, i as int);
                            } else {
                                assert(post[w].actor@ == k);
                                lemma_actor_index(post, k, w);
                            }
                        }
                    });
                }
            },
            None => {
                proof {
                    assert(!pre_map.contains_key(a));
                    assert(self@ =~= pre_map.remove(a));
                }
            },
        }
        Ok(Vec::new())
    }

    /// Looks the caller's client up; fails exactly when the identity was
    /// never configured (or was deconfigured). The client handed back is
    /// the one stored for this caller: the client parsing the caller's
    /// recorded endpoint yields.
    pub fn actor_client(&self, actor: &str) -> (r: Result<&redis_streams::Client, ProviderError>)
        requires
            self.wf(),
        ensures
            r is Ok <==> self@.contains_key(actor@),
            r matches Ok(c) ==> *c == self.client_of(actor@) && *c == parsed_client(
                self@[actor@],
            ),
            r matches Err(e) ==> e == ProviderError::NotConfigured,
    {
        match self.find_index(actor) {
            Some(i) => {
                proof {
                    lemma_actor_index(self.entries@, actor@, i as int);
                    assert(self.entries@[i as int].client == parsed_client(
                        self.entries@[i as int].url@,
                    ));
                }
                Ok(&self.entries[i].client)
            },
            None => Err(ProviderError::NotConfigured),
        }
    }

    /// The endpoint URL the caller's client was opened for, if configured.
    pub fn endpoint_of(&self, actor: &str) -> (r: Option<&String>)
        requires
            self.wf(),
        ensures
            r is Some <==> self@.contains_key(actor@),
            (match r {
                Some(u) => u@ == self@[actor@],
                None => true,
            }),
    {
        match self.find_index(actor) {
            Some(i) => {
                proof {
                    lemma_actor_index(self.entries@, actor@, i as int);
                }
                Some(&self.entries[i].url)
            },
            None => None,
        }
    }
}

/// Replace on reconfigure: configuring the same identity twice leaves the
/// registry exactly as one configuration with the second endpoint would,
/// so subsequent lookups resolve the second endpoint only.
pub proof fn lemma_replace_on_reconfigure(
    m: Map<Seq<char>, Seq<char>>,
    a: Seq<char>,
    u1: Seq<char>,
    u2: Seq<char>,
)
    ensures
        m.insert(a, u1).insert(a, u2) == m.insert(a, u2),
        m.insert(a, u1).insert(a, u2)[a] == u2,
{
    assert(m.insert(a, u1).insert(a, u2) =~= m.insert(a, u2));
}

/// Idempotent removal: deconfiguring an identity a second time leaves the
/// registry exactly where the first removal left it (and by
/// `ClientRegistry::deconfigure`'s contract both calls succeed).
pub proof fn lemma_removal_idempotent(m: Map<Seq<char>, Seq<char>>, a: Seq<char>)
    ensures
        m.remove(a).remove(a) == m.remove(a),
{
    assert(m.remove(a).remove(a) =~= m.remove(a));
}

} // verus!

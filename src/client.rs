//! The request layer: one fetch as a state machine. With caching on, a
//! fetch first looks its cache key up and, on a hit, is done without any
//! network access or rate-limiter wait. On a miss, or with caching off, it
//! waits on its provider's limiter, sends the request, stores the body when
//! caching is on, and is done.
//!
//! The caller performs each action and answers it with an event; failures
//! of the network or the disk end the fetch on the caller's side, with no
//! retry.
use vstd::prelude::*;
use vstd::string::StringExecFns;
use crate::cache::Cache;
use crate::limiter::Provider;

verus! {

/// What a fetch asks its caller to do next.
pub enum FetchAction {
    /// Look the body up under this cache key; answer `Cached`.
    ReadCache(String),
    /// Wait on this provider's limiter; answer `Acquired`.
    Acquire(Provider),
    /// Send the request; answer `Received` with the body.
    Send,
    /// Store the body under the cache key; answer `Stored`.
    WriteCache(String, String),
    /// The fetch is over and this is the body.
    Done(String),
}

/// The caller's answer to an action.
pub enum FetchEvent {
    /// The cached body, or `None` when the key is not cached.
    Cached(Option<String>),
    Acquired,
    Received(String),
    Stored,
}

/// Where a fetch stands.
#[derive(Clone, Copy, PartialEq, Eq, Structural, Debug)]
pub enum Phase {
    Looking,
    Acquiring,
    Sending,
    Storing,
    Finished,
}

/// An action, with text as character sequences.
pub enum ActionModel {
    ReadCache(Seq<char>),
    Acquire(Provider),
    Send,
    WriteCache(Seq<char>, Seq<char>),
    Done(Seq<char>),
}

/// An event, with text as character sequences.
pub enum EventModel {
    Cached(Option<Seq<char>>),
    Acquired,
    Received(Seq<char>),
    Stored,
}

/// A fetch, with text as character sequences.
pub struct FetchModel {
    pub key: Option<Seq<char>>,
    pub provider: Option<Provider>,
    pub phase: Phase,
    pub body: Seq<char>,
}

impl View for FetchAction {
    type V = ActionModel;

    open spec fn view(&self) -> ActionModel {
        match self {
            FetchAction::ReadCache(k) => ActionModel::ReadCache(k@),
            FetchAction::Acquire(p) => ActionModel::Acquire(*p),
            FetchAction::Send => ActionModel::Send,
            FetchAction::WriteCache(k, b) => ActionModel::WriteCache(k@, b@),
            FetchAction::Done(b) => ActionModel::Done(b@),
        }
    }
}

impl View for FetchEvent {
    type V = EventModel;

    open spec fn view(&self) -> EventModel {
        match self {
            FetchEvent::Cached(Some(b)) => EventModel::Cached(Some(b@)),
            FetchEvent::Cached(None) => EventModel::Cached(None),
            FetchEvent::Acquired => EventModel::Acquired,
            FetchEvent::Received(b) => EventModel::Received(b@),
            FetchEvent::Stored => EventModel::Stored,
        }
    }
}

/// One fetch in progress.
pub struct Fetch {
    /// The cache key, when caching is on.
    pub key: Option<String>,
    /// The provider whose limiter the request waits on, if any.
    pub provider: Option<Provider>,
    pub phase: Phase,
    /// The body, once known.
    pub body: String,
}

impl View for Fetch {
    type V = FetchModel;

    open spec fn view(&self) -> FetchModel {
        FetchModel {
            key: match self.key {
                Some(k) => Some(k@),
                None => None,
            },
            provider: self.provider,
            phase: self.phase,
            body: self.body@,
        }
    }
}

/// The cache key of a request: its URL followed by its payload, if any.
pub open spec fn key_of(url: Seq<char>, payload: Option<Seq<char>>) -> Seq<char> {
    match payload {
        Some(p) => url + p,
        None => url,
    }
}

/// The step that goes to the network: the limiter first, when there is one.
pub open spec fn network_start(m: FetchModel) -> (FetchModel, ActionModel) {
    match m.provider {
        Some(p) => (FetchModel { phase: Phase::Acquiring, ..m }, ActionModel::Acquire(p)),
        None => (FetchModel { phase: Phase::Sending, ..m }, ActionModel::Send),
    }
}

/// A new fetch and its first action: the cache lookup when caching is on.
pub open spec fn fetch_start(key: Option<Seq<char>>, provider: Option<Provider>) -> (FetchModel, ActionModel) {
    let m = FetchModel { key, provider, phase: Phase::Looking, body: Seq::empty() };
    match key {
        Some(k) => (m, ActionModel::ReadCache(k)),
        None => network_start(m),
    }
}

/// The event answers the action of the fetch's phase.
pub open spec fn accepts(m: FetchModel, e: EventModel) -> bool {
    match e {
        EventModel::Cached(_) => m.phase == Phase::Looking,
        EventModel::Acquired => m.phase == Phase::Acquiring,
        EventModel::Received(_) => m.phase == Phase::Sending,
        EventModel::Stored => m.phase == Phase::Storing,
    }
}

/// The fetch after an event, and its next action.
pub open spec fn fetch_next(m: FetchModel, e: EventModel) -> (FetchModel, ActionModel) {
    match e {
        EventModel::Cached(Some(b)) => (
            FetchModel { phase: Phase::Finished, body: b, ..m },
            ActionModel::Done(b),
        ),
        EventModel::Cached(None) => network_start(m),
        EventModel::Acquired => (FetchModel { phase: Phase::Sending, ..m }, ActionModel::Send),
        EventModel::Received(b) => match m.key {
            Some(k) => (
                FetchModel { phase: Phase::Storing, body: b, ..m },
                ActionModel::WriteCache(k, b),
            ),
            None => (FetchModel { phase: Phase::Finished, body: b, ..m }, ActionModel::Done(b)),
        },
        EventModel::Stored => (FetchModel { phase: Phase::Finished, ..m }, ActionModel::Done(m.body)),
    }
}

/// The requests of one provider, with its cache if caching is on.
pub struct Client {
    pub cache: Option<Cache>,
    pub provider: Option<Provider>,
}

impl Client {
    /// A client that waits on `provider`'s limiter, if given, and, given a
    /// cache name, caches its bodies as `json` files in
    /// `cache/client/<name>` under `base_dir`.
    pub fn new(base_dir: &str, cache_name: Option<&str>, provider: Option<Provider>) -> (r: Self)
        ensures
            match cache_name {
                Some(name) => r.cache matches Some(c) && c.dir@ == base_dir@ + "/cache/"@ + "client/"@
                    + name@ && c.ext@ == "json"@,
                None => r.cache is None,
            },
            r.provider == provider,
    {
        let cache: Option<Cache> = match cache_name {
            Some(name) => {
                let sub: String = String::from_str("client/").concat(name);
                let c = Cache::new(base_dir, sub.as_str(), "json");
                assert(c.dir@ =~= base_dir@ + "/cache/"@ + "client/"@ + name@);
                Some(c)
            },
            None => None,
        };
        Client { cache, provider }
    }

    /// The cache key of a request: its URL followed by its payload, if any.
    pub fn cache_key(url: &str, payload: Option<&str>) -> (r: String)
        ensures
            r@ == key_of(
                url@,
                match payload {
                    Some(p) => Some(p@),
                    None => None,
                },
            ),
    {
        match payload {
            Some(p) => String::from_str(url).concat(p),
            None => String::from_str(url),
        }
    }

    /// Starts fetching `url` with the optional `payload`, and returns the
    /// fetch and its first action.
    pub fn fetch(&self, url: &str, payload: Option<&str>) -> (r: (Fetch, FetchAction))
        ensures
            (r.0@, r.1@) == fetch_start(
                if self.cache is Some {
                    Some(
                        key_of(
                            url@,
                            match payload {
                                Some(p) => Some(p@),
                                None => None,
                            },
                        ),
                    )
                } else {
                    None
                },
                self.provider,
            ),
    {
        let key: Option<String> = match &self.cache {
            Some(_) => Some(Self::cache_key(url, payload)),
            None => None,
        };
        let fetch = Fetch { key, provider: self.provider, phase: Phase::Looking, body: String::new() };
        match &fetch.key {
            Some(k) => {
                let action = FetchAction::ReadCache(k.clone());
                (fetch, action)
            },
            None => fetch.start_network(),
        }
    }
}

impl Fetch {
    fn start_network(self) -> (r: (Fetch, FetchAction))
        ensures
            (r.0@, r.1@) == network_start(self@),
    {
        match self.provider {
            Some(p) => (Fetch { phase: Phase::Acquiring, ..self }, FetchAction::Acquire(p)),
            None => (Fetch { phase: Phase::Sending, ..self }, FetchAction::Send),
        }
    }

    /// Whether `event` answers the action of the fetch's phase.
    pub fn accepts(&self, event: &FetchEvent) -> (r: bool)
        ensures
            r == accepts(self@, event@),
    {
        match event {
            FetchEvent::Cached(_) => self.phase == Phase::Looking,
            FetchEvent::Acquired => self.phase == Phase::Acquiring,
            FetchEvent::Received(_) => self.phase == Phase::Sending,
            FetchEvent::Stored => self.phase == Phase::Storing,
        }
    }

    /// Takes the caller's answer to the last action, and returns the next
    /// action.
    pub fn next(self, event: FetchEvent) -> (r: (Fetch, FetchAction))
        requires
            accepts(self@, event@),
        ensures
            (r.0@, r.1@) == fetch_next(self@, event@),
    {
        match event {
            FetchEvent::Cached(Some(b)) => {
                let done = FetchAction::Done(b.clone());
                (Fetch { phase: Phase::Finished, body: b, ..self }, done)
            },
            FetchEvent::Cached(None) => self.start_network(),
            FetchEvent::Acquired => (Fetch { phase: Phase::Sending, ..self }, FetchAction::Send),
            FetchEvent::Received(b) => match &self.key {
                Some(k) => {
                    let write = FetchAction::WriteCache(k.clone(), b.clone());
                    (Fetch { phase: Phase::Storing, body: b, ..self }, write)
                },
                None => {
                    let done = FetchAction::Done(b.clone());
                    (Fetch { phase: Phase::Finished, body: b, ..self }, done)
                },
            },
            FetchEvent::Stored => {
                let done = FetchAction::Done(self.body.clone());
                (Fetch { phase: Phase::Finished, ..self }, done)
            },
        }
    }
}

/// The answer to an action from a cache that holds `store`, bodies by key,
/// and a network that answers `response`.
pub open spec fn answer(a: ActionModel, store: Map<Seq<char>, Seq<char>>, response: Seq<char>) -> EventModel {
    match a {
        ActionModel::ReadCache(k) => EventModel::Cached(
            if store.contains_key(k) {
                Some(store[k])
            } else {
                None
            },
        ),
        ActionModel::Acquire(_) => EventModel::Acquired,
        ActionModel::Send => EventModel::Received(response),
        _ => EventModel::Stored,
    }
}

/// The cache after an action: a write stores its body under its key.
pub open spec fn store_after(a: ActionModel, store: Map<Seq<char>, Seq<char>>) -> Map<Seq<char>, Seq<char>> {
    match a {
        ActionModel::WriteCache(k, b) => store.insert(k, b),
        _ => store,
    }
}

/// The actions of a fetch from `(m, a)` on, for at most `steps` more
/// answers, and the cache it leaves.
pub open spec fn drive(
    m: FetchModel,
    a: ActionModel,
    store: Map<Seq<char>, Seq<char>>,
    response: Seq<char>,
    steps: nat,
) -> (Seq<ActionModel>, Map<Seq<char>, Seq<char>>)
    decreases steps,
{
    if steps == 0 || a is Done {
        (seq![a], store)
    } else {
        let next = fetch_next(m, answer(a, store, response));
        let rest = drive(next.0, next.1, store_after(a, store), response, (steps - 1) as nat);
        (seq![a] + rest.0, rest.1)
    }
}

/// Idempotence of cached fetches: two fetches of one request with caching
/// on, against a cache that returns what was stored in it, go to the
/// network at most once. The second is served from the cache, with no
/// limiter wait and no request, and yields the first one's body.
pub proof fn lemma_second_fetch_from_cache(
    key: Seq<char>,
    provider: Option<Provider>,
    store: Map<Seq<char>, Seq<char>>,
    first: Seq<char>,
    second: Seq<char>,
)
    ensures
        ({
            let start = fetch_start(Some(key), provider);
            let one = drive(start.0, start.1, store, first, 5);
            let two = drive(start.0, start.1, one.1, second, 5);
            let body = if store.contains_key(key) {
                store[key]
            } else {
                first
            };
            &&& two.0 == seq![ActionModel::ReadCache(key), ActionModel::Done(body)]
            &&& one.0.last() == ActionModel::Done(body)
            &&& store.contains_key(key) ==> one.0 == two.0
            &&& !store.contains_key(key) ==> one.0 == seq![ActionModel::ReadCache(key)] + match provider {
                Some(p) => seq![ActionModel::Acquire(p)],
                None => Seq::empty(),
            } + seq![ActionModel::Send, ActionModel::WriteCache(key, first), ActionModel::Done(first)]
        }),
{
    reveal_with_fuel(drive, 6);
    let start = fetch_start(Some(key), provider);
    let one = drive(start.0, start.1, store, first, 5);
    let two = drive(start.0, start.1, one.1, second, 5);
    assert(one.1.contains_key(key));
    if store.contains_key(key) {
        assert(one.1 == store);
        assert(one.0 =~= seq![ActionModel::ReadCache(key), ActionModel::Done(store[key])]);
    } else {
        assert(one.1 == store.insert(key, first));
        match provider {
            Some(p) => {
                assert(one.0 =~= seq![
                    ActionModel::ReadCache(key),
                    ActionModel::Acquire(p),
                    ActionModel::Send,
                    ActionModel::WriteCache(key, first),
                    ActionModel::Done(first),
                ]);
            },
            None => {
                assert(one.0 =~= seq![
                    ActionModel::ReadCache(key),
                    ActionModel::Send,
                    ActionModel::WriteCache(key, first),
                    ActionModel::Done(first),
                ]);
            },
        }
    }
    assert(two.0 =~= seq![ActionModel::ReadCache(key), ActionModel::Done(one.1[key])]);
}

} // verus!

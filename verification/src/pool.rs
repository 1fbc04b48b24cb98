//! The relay connection pool model: an ordered set of registered
//! endpoints, each with a connection state. Registration and state
//! transitions are verified here; the transport that drives them lives
//! outside the library and reports results back through
//! `record_connect_result`.
use vstd::prelude::*;

use crate::errors::Error;
use crate::urls::{is_valid_relay_url, valid_relay_url};

verus! {

/// Connection state of one relay endpoint.
#[derive(Clone, Copy, Debug, PartialEq, Eq, Structural)]
pub enum ConnState {
    Disconnected,
    Connecting,
    Connected,
    Failed,
}

/// What initiating connections does to one endpoint's state: a registered,
/// untouched endpoint starts connecting; the others keep their state.
pub open spec fn connect_step(s: ConnState) -> ConnState {
    if s is Disconnected {
        ConnState::Connecting
    } else {
        s
    }
}

/// How many endpoints of `s` are connected.
pub open spec fn count_connected(s: Seq<ConnState>) -> nat
    decreases s.len(),
{
    if s.len() == 0 {
        0
    } else {
        count_connected(s.drop_last()) + (if s.last() is Connected {
            1nat
        } else {
            0nat
        })
    }
}

/// The members of `us` that are valid relay URLs, in order.
pub open spec fn valid_only(us: Seq<Seq<char>>) -> Seq<Seq<char>>
    decreases us.len(),
{
    if us.len() == 0 {
        Seq::<Seq<char>>::empty()
    } else if valid_relay_url(us.last()) {
        valid_only(us.drop_last()).push(us.last())
    } else {
        valid_only(us.drop_last())
    }
}

struct RelayEndpoint {
    url: String,
    state: ConnState,
}

/// The pool of registered relay endpoints, in registration order. An
/// endpoint is never removed once added.
pub struct RelayPool {
    relays: Vec<RelayEndpoint>,
}

impl RelayPool {
    /// The registered URLs, in registration order.
    pub closed spec fn urls(&self) -> Seq<Seq<char>> {
        self.relays@.map_values(|r: RelayEndpoint| r.url@)
    }

    /// The per-endpoint connection states, in registration order.
    pub closed spec fn states(&self) -> Seq<ConnState> {
        self.relays@.map_values(|r: RelayEndpoint| r.state)
    }

    /// There is one state per registered URL.
    pub proof fn lemma_lengths(&self)
        ensures
            self.urls().len() == self.states().len(),
    {
    }

    /// An empty pool.
    pub fn new() -> (r: RelayPool)
        ensures
            r.urls() == Seq::<Seq<char>>::empty(),
            r.states() == Seq::<ConnState>::empty(),
    {
        let r = RelayPool { relays: Vec::new() };
        proof {
            assert(r.urls() =~= Seq::<Seq<char>>::empty());
            assert(r.states() =~= Seq::<ConnState>::empty());
        }
        r
    }

    /// The number of registered endpoints.
    pub fn len(&self) -> (r: usize)
        ensures
            r == self.urls().len(),
    {
        self.relays.len()
    }

    /// The URL of the endpoint at `index`.
    pub fn url_at(&self, index: usize) -> (r: &String)
        requires
            index < self.urls().len(),
        ensures
            r@ == self.urls()[index as int],
    {
        &self.relays[index].url
    }

    /// The connection state of the endpoint at `index`.
    pub fn state_at(&self, index: usize) -> (r: ConnState)
        requires
            index < self.urls().len(),
        ensures
            r == self.states()[index as int],
    {
        self.relays[index].state
    }

    /// Registers `url` in state Disconnected, or rejects it with
    /// `InvalidRelayUrl` and leaves the pool unchanged. Never removes or
    /// reorders what is already registered.
    pub fn add_relay(&mut self, url: &str) -> (r: Result<(), Error>)
        ensures
            valid_relay_url(url@) ==> {
                &&& r == Result::<(), Error>::Ok(())
                &&& final(self).urls() == old(self).urls().push(url@)
                &&& final(self).states() == old(self).states().push(ConnState::Disconnected)
            },
            !valid_relay_url(url@) ==> {
                &&& r == Result::<(), Error>::Err(Error::InvalidRelayUrl)
                &&& final(self).urls() == old(self).urls()
                &&& final(self).states() == old(self).states()
            },
    {
        if is_valid_relay_url(url) {
            self.relays.push(RelayEndpoint { url: url.to_owned(), state: ConnState::Disconnected });
            proof {
                assert(final(self).urls() =~= old(self).urls().push(url@));
                assert(final(self).states() =~= old(self).states().push(ConnState::Disconnected));
            }
            Result::Ok(())
        } else {
            Result::Err(Error::InvalidRelayUrl)
        }
    }

    /// Registers every valid URL of the batch and reports one outcome per
    /// input: a bad URL is rejected but never aborts the rest. The pool
    /// gains exactly the valid URLs, in order, each starting Disconnected.
    pub fn add_relays(&mut self, urls: &Vec<String>) -> (r: Vec<Result<(), Error>>)
        ensures
            r@.len() == urls@.len(),
            forall|i: int|
                0 <= i < urls@.len() ==> #[trigger] r@[i] == (if valid_relay_url(urls@[i]@) {
                    Result::<(), Error>::Ok(())
                } else {
                    Result::<(), Error>::Err(Error::InvalidRelayUrl)
                }),
            final(self).urls() == old(self).urls() + valid_only(
                urls@.map_values(|u: String| u@),
            ),
            final(self).states().len() == final(self).urls().len(),
            forall|j: int|
                0 <= j < old(self).states().len() ==> #[trigger] final(self).states()[j] == old(
                    self,
                ).states()[j],
            forall|j: int|
                old(self).states().len() <= j < final(self).states().len()
                    ==> #[trigger] final(self).states()[j] is Disconnected,
    {
        let ghost views = urls@.map_values(|u: String| u@);
        let mut r: Vec<Result<(), Error>> = Vec::new();
        let mut i: usize = 0;
        proof {
            self.lemma_lengths();
            assert(valid_only(views.take(0)) =~= Seq::<Seq<char>>::empty());
            assert(self.urls() =~= old(self).urls() + valid_only(views.take(0)));
        }
        while i < urls.len()
            invariant
                views == urls@.map_values(|u: String| u@),
                i <= urls@.len(),
                r@.len() == i,
                forall|k: int|
                    0 <= k < i ==> #[trigger] r@[k] == (if valid_relay_url(urls@[k]@) {
                        Result::<(), Error>::Ok(())
                    } else {
                        Result::<(), Error>::Err(Error::InvalidRelayUrl)
                    }),
                self.urls() == old(self).urls() + valid_only(views.take(i as int)),
                self.states().len() == self.urls().len(),
                forall|j: int|
                    0 <= j < old(self).states().len() ==> #[trigger] self.states()[j] == old(
                        self,
                    ).states()[j],
                forall|j: int|
                    old(self).states().len() <= j < self.states().len()
                        ==> #[trigger] self.states()[j] is Disconnected,
                old(self).states().len() == old(self).urls().len(),
            decreases urls@.len() - i,
        {
            let outcome = self.add_relay(urls[i].as_str());
            r.push(outcome);
            i = i + 1;
            proof {
                assert(views.take(i as int).drop_last() =~= views.take(i as int - 1));
                assert(views.take(i as int).last() == urls@[i as int - 1]@);
                assert(self.urls() =~= old(self).urls() + valid_only(views.take(i as int)));
            }
        }
        proof {
            assert(views.take(urls@.len() as int) =~= views);
        }
        r
    }

    /// Initiates connection attempts: every Disconnected endpoint becomes
    /// Connecting; no URL and no other state changes. Completion is not
    /// implied — results arrive per endpoint via `record_connect_result`.
    pub fn connect_all(&mut self)
        ensures
            final(self).urls() == old(self).urls(),
            final(self).states().len() == old(self).states().len(),
            forall|i: int|
                0 <= i < old(self).states().len() ==> #[trigger] final(self).states()[i]
                    == connect_step(old(self).states()[i]),
    {
        let n = self.relays.len();
        let mut i: usize = 0;
        while i < n
            invariant
                n == self.relays@.len(),
                i <= n,
                self.relays@.len() == old(self).relays@.len(),
                forall|j: int|
                    0 <= j < i ==> #[trigger] self.relays@[j].url == old(self).relays@[j].url,
                forall|j: int|
                    0 <= j < i ==> #[trigger] self.relays@[j].state == connect_step(
                        old(self).relays@[j].state,
                    ),
                forall|j: int| i <= j < n ==> #[trigger] self.relays@[j] == old(self).relays@[j],
            decreases n - i,
        {
            let is_disconnected = match self.relays[i].state {
                ConnState::Disconnected => true,
                _ => false,
            };
            if is_disconnected {
                self.relays[i].state = ConnState::Connecting;
            }
            i = i + 1;
        }
        proof {
            assert(final(self).urls() =~= old(self).urls());
            assert forall|j: int|
                0 <= j < old(self).states().len() implies #[trigger] final(self).states()[j]
                == connect_step(old(self).states()[j]) by {
                assert(final(self).states()[j] == self.relays@[j].state);
                assert(old(self).states()[j] == old(self).relays@[j].state);
            }
        }
    }

    /// Records the outcome of one endpoint's connection attempt: Connected
    /// on success, Failed otherwise. Only that endpoint's state changes.
    pub fn record_connect_result(&mut self, index: usize, connected: bool)
        requires
            index < old(self).urls().len(),
        ensures
            final(self).urls() == old(self).urls(),
            final(self).states() == old(self).states().update(
                index as int,
                if connected {
                    ConnState::Connected
                } else {
                    ConnState::Failed
                },
            ),
    {
        proof {
            self.lemma_lengths();
        }
        if connected {
            self.relays[index].state = ConnState::Connected;
        } else {
            self.relays[index].state = ConnState::Failed;
        }
        proof {
            assert(final(self).urls() =~= old(self).urls());
            assert(final(self).states() =~= old(self).states().update(
                index as int,
                if connected {
                    ConnState::Connected
                } else {
                    ConnState::Failed
                },
            ));
        }
    }

    /// A non-blocking snapshot count of the endpoints now Connected.
    pub fn poll_connected_count(&self) -> (r: usize)
        ensures
            r == count_connected(self.states()),
    {
        let n = self.relays.len();
        let mut count: usize = 0;
        let mut i: usize = 0;
        proof {
            assert(self.states().take(0) =~= Seq::<ConnState>::empty());
        }
        while i < n
            invariant
                n == self.relays@.len(),
                i <= n,
                count <= i,
                count == count_connected(self.states().take(i as int)),
            decreases n - i,
        {
            let is_connected = match self.relays[i].state {
                ConnState::Connected => true,
                _ => false,
            };
            if is_connected {
                count = count + 1;
            }
            i = i + 1;
            proof {
                assert(self.states().take(i as int).drop_last() =~= self.states().take(
                    i as int - 1,
                ));
                assert(self.states().take(i as int).last() == self.states()[i as int - 1]);
            }
        }
        proof {
            assert(self.states().take(n as int) =~= self.states());
        }
        count
    }

    /// An ordered snapshot of (url, state) for diagnostics.
    pub fn snapshot(&self) -> (r: Vec<(String, ConnState)>)
        ensures
            r@.len() == self.urls().len(),
            forall|i: int|
                0 <= i < r@.len() ==> (#[trigger] r@[i]).0@ == self.urls()[i] && r@[i].1
                    == self.states()[i],
    {
        let n = self.relays.len();
        let mut r: Vec<(String, ConnState)> = Vec::new();
        let mut i: usize = 0;
        while i < n
            invariant
                n == self.relays@.len(),
                i <= n,
                r@.len() == i,
                forall|j: int|
                    0 <= j < i ==> (#[trigger] r@[j]).0@ == self.urls()[j] && r@[j].1
                        == self.states()[j],
            decreases n - i,
        {
            let url = self.relays[i].url.clone();
            let state = self.relays[i].state;
            r.push((url, state));
            i = i + 1;
        }
        r
    }
}

} // verus!

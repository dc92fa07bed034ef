//! The session: one client and, once discovery has run, the engine that
//! caches what it found, with the list of groups as it was taken down
//! from that engine.
//!
//! Running the engine is network work that the caller does. The session
//! only decides: [`Session::begin`] answers from the cache or hands the
//! engine out to be run, and [`Session::complete`] takes the outcome of that
//! run. A caller that can run the engine on the spot makes both steps in
//! one call of [`Session::ensure_populated`].
//!
//! The engine keeps its groups in no order of its own. The session takes
//! them down once, when a run is handed in, and serves that list from then
//! on: every later reply names the same groups in the same order.
//!
//! A caller holds the session exclusively from `begin` to `complete`, the
//! run included, so that requests pass through it one after another. That
//! makes every request wait for a run that is under way; in return no two
//! requests ever run the engine for the same empty cache.
//!
//! Nothing empties a populated cache. Groups that the cluster comes to
//! serve later are not seen until the process starts anew: the session
//! has no expiry and no way to invalidate what it holds.

use crate::groups::{duplicate_groups, group_set, group_views, snapshot, XApiGroup, XApiGroupView};
use crate::kube_ext::{discovery_admits, discovery_client, discovery_groups};
use kube::{Client, Discovery};
use vstd::multiset::Multiset;
use vstd::prelude::*;

verus! {

broadcast use vstd::seq_lib::group_to_multiset_ensures;

/// An engine together with the list of its groups as it was taken down.
struct Held {
    engine: Discovery,
    listing: Vec<XApiGroup>,
}

/// The client of the process and its discovery cache.
pub struct Session {
    kube_client: Client,
    kube_discovery: Option<Held>,
}

/// How a discovery request goes on after [`Session::begin`].
pub enum Step {
    /// The cache is populated: these are its groups, and the request is
    /// over.
    Serve(Vec<XApiGroup>),
    /// The cache is empty: run this engine and hand the outcome to
    /// [`Session::complete`].
    Run(Discovery),
}

/// What `begin` decides, over the listed groups alone: `Some` of them when
/// there are any, `None` when a run is needed.
pub open spec fn begin_spec(listed: Seq<XApiGroupView>) -> Option<Seq<XApiGroupView>> {
    if listed.len() > 0 {
        Some(listed)
    } else {
        None
    }
}

/// What `complete` makes of a run's outcome, where the outcome is the
/// groups of the run as they were taken down, or the failure: the groups
/// listed afterwards, and the reply. A successful run replaces the list
/// whole; a failed one leaves it as it was.
pub open spec fn complete_spec(
    listed: Seq<XApiGroupView>,
    outcome: Result<Seq<XApiGroupView>, Seq<char>>,
) -> (Seq<XApiGroupView>, Result<Seq<XApiGroupView>, Seq<char>>) {
    match outcome {
        Ok(found) => (found, Ok(found)),
        Err(message) => (listed, Err(message)),
    }
}

/// The groups that a step serves, if it serves any.
pub open spec fn served(step: Step) -> Option<Seq<XApiGroupView>> {
    match step {
        Step::Serve(groups) => Some(group_views(groups@)),
        Step::Run(_) => None,
    }
}

/// A run's outcome as `complete_spec` takes it, where `taken_down` is the
/// list that was made of a successful run's groups.
pub open spec fn outcome_view(
    outcome: Result<Discovery, String>,
    taken_down: Seq<XApiGroupView>,
) -> Result<Seq<XApiGroupView>, Seq<char>> {
    match outcome {
        Ok(_) => Ok(taken_down),
        Err(message) => Err(message@),
    }
}

/// A reply as `complete_spec` gives it.
pub open spec fn reply_view(reply: Result<Vec<XApiGroup>, String>) -> Result<
    Seq<XApiGroupView>,
    Seq<char>,
> {
    match reply {
        Ok(groups) => Ok(group_views(groups@)),
        Err(message) => Err(message@),
    }
}

/// One request as seen from outside: the groups listed afterwards, the
/// reply, and whether the engine was run.
pub struct Answer {
    pub listed: Seq<XApiGroupView>,
    pub reply: Result<Seq<XApiGroupView>, Seq<char>>,
    pub ran: bool,
}

/// One request against a cache: `begin`, and where that asks for a run,
/// `complete`. `outcome` is what the run comes back with if one is made; a
/// request that the cache answers does not look at it.
pub open spec fn answer(
    listed: Seq<XApiGroupView>,
    outcome: Result<Seq<XApiGroupView>, Seq<char>>,
) -> Answer {
    match begin_spec(listed) {
        Some(groups) => Answer { listed, reply: Ok(groups), ran: false },
        None => Answer {
            listed: complete_spec(listed, outcome).0,
            reply: complete_spec(listed, outcome).1,
            ran: true,
        },
    }
}

impl Session {
    /// The list is the engine's groups, each once.
    #[verifier::type_invariant]
    spec fn listing_is_of_the_engine(self) -> bool {
        match self.kube_discovery {
            Some(held) => group_set(held.listing@) == discovery_groups(held.engine),
            None => true,
        }
    }

    /// The client that the session was made with.
    pub closed spec fn client(&self) -> Client {
        self.kube_client
    }

    /// The engine that the session holds, if any.
    pub closed spec fn engine(&self) -> Option<Discovery> {
        match self.kube_discovery {
            Some(held) => Some(held.engine),
            None => None,
        }
    }

    /// The groups that the session serves, in the order in which it serves
    /// them: none where it holds no engine.
    pub closed spec fn listed(&self) -> Seq<XApiGroupView> {
        match self.kube_discovery {
            Some(held) => group_views(held.listing@),
            None => Seq::empty(),
        }
    }

    /// The groups that the session's engine has cached: none where it holds
    /// no engine.
    pub open spec fn cached(&self) -> Multiset<XApiGroupView> {
        match self.engine() {
            Some(held) => discovery_groups(held),
            None => Multiset::empty(),
        }
    }

    /// Whether the cache holds at least one group.
    pub open spec fn populated(&self) -> bool {
        self.listed().len() > 0
    }

    /// Whether `engine` is one that a run of this session is made with: the
    /// engine held, or, where none is held, an engine for the session's
    /// client that has cached nothing and looks at every group.
    pub open spec fn hands_out(&self, engine: Discovery) -> bool {
        match self.engine() {
            Some(held) => engine == held,
            None => {
                &&& discovery_client(engine) == self.client()
                &&& discovery_groups(engine) == Multiset::<XApiGroupView>::empty()
                &&& forall|group: Seq<char>| #[trigger] discovery_admits(engine, group)
            },
        }
    }

    /// A session for a client, with no engine yet.
    pub fn new(client: Client) -> (session: Session)
        ensures
            session.client() == client,
            session.engine() is None,
            session.listed() == Seq::<XApiGroupView>::empty(),
    {
        Session { kube_client: client, kube_discovery: None }
    }

    /// Process setup, from the outcome of connecting: a session where a
    /// client was made, and the failure itself where none was. Without a
    /// client there is no session, and so nothing to serve requests from.
    pub fn start(connected: Result<Client, String>) -> (started: Result<Session, String>)
        ensures
            match connected {
                Ok(client) => started matches Ok(session) && session.client() == client
                    && session.engine() is None && session.listed() == Seq::<
                    XApiGroupView,
                >::empty(),
                Err(message) => started == Err::<Session, String>(message),
            },
    {
        match connected {
            Ok(client) => Ok(Session::new(client)),
            Err(message) => Err(message),
        }
    }

    /// Starts a discovery request.
    ///
    /// A populated cache answers at once, with its groups in the order in
    /// which they are listed, and the session stays as it is. Otherwise the
    /// engine leaves the session to be run: the one held, or a new one for
    /// the session's client where none was held. Until `complete` is called
    /// the session holds no engine, so a request that is abandoned here
    /// leaves it ready for the next one.
    pub fn begin(&mut self) -> (step: Step)
        ensures
            final(self).client() == old(self).client(),
            final(self).listed() == old(self).listed(),
            final(self).listed().to_multiset() == final(self).cached(),
            served(step) == begin_spec(old(self).listed()),
            match step {
                Step::Serve(_) => final(self).engine() == old(self).engine(),
                Step::Run(engine) => {
                    &&& final(self).engine() is None
                    &&& old(self).hands_out(engine)
                    &&& discovery_groups(engine).len() == 0
                },
            },
    {
        proof {
            use_type_invariant(&*self);
        }
        let mut taken: Option<Held> = None;
        std::mem::swap(&mut taken, &mut self.kube_discovery);
        match taken {
            None => Step::Run(Discovery::new(self.kube_client.clone())),
            Some(held) => {
                if held.listing.len() == 0 {
                    Step::Run(held.engine)
                } else {
                    let groups = duplicate_groups(&held.listing);
                    self.kube_discovery = Some(held);
                    Step::Serve(groups)
                }
            },
        }
    }

    /// Ends a discovery request with the outcome of the run.
    ///
    /// The engine of a successful run becomes the session's engine, in
    /// place of any other. Its groups are taken down, each once, and that
    /// list is the reply and what the session serves from then on. A
    /// failure is handed on as it came, and the session stays as it is.
    pub fn complete(&mut self, outcome: Result<Discovery, String>) -> (reply: Result<
        Vec<XApiGroup>,
        String,
    >)
        ensures
            final(self).client() == old(self).client(),
            final(self).listed().to_multiset() == final(self).cached(),
            (final(self).listed(), reply_view(reply)) == complete_spec(
                old(self).listed(),
                outcome_view(outcome, final(self).listed()),
            ),
            match outcome {
                Ok(engine) => final(self).engine() == Some(engine) && reply is Ok,
                Err(message) => final(self).engine() == old(self).engine() && reply == Err::<
                    Vec<XApiGroup>,
                    String,
                >(message),
            },
    {
        proof {
            use_type_invariant(&*self);
        }
        match outcome {
            Ok(engine) => {
                let listing = snapshot(&engine);
                let groups = duplicate_groups(&listing);
                self.kube_discovery = Some(Held { engine, listing });
                Ok(groups)
            },
            Err(message) => Err(message),
        }
    }

    /// One whole discovery request, for a caller that can run the engine on
    /// the spot: `run` is called with the engine, once, only where the cache
    /// is empty, and what it returns is handed to `complete`.
    ///
    /// A populated cache is the reply, and `run` is not called. Otherwise
    /// the reply is made of whatever `run` returned for the session's engine:
    /// the groups of a successful run, which are listed from then on, or the
    /// failure as it came, with the cache as empty as before.
    pub fn ensure_populated<F>(&mut self, run: F) -> (reply: Result<Vec<XApiGroup>, String>) where
        F: FnOnce(Discovery) -> Result<Discovery, String>,

        requires
            !old(self).populated() ==> forall|engine: Discovery|
                old(self).hands_out(engine) ==> call_requires(run, (engine,)),
        ensures
            final(self).client() == old(self).client(),
            final(self).listed().to_multiset() == final(self).cached(),
            old(self).populated() ==> {
                &&& final(self).engine() == old(self).engine()
                &&& forall|outcome: Result<Seq<XApiGroupView>, Seq<char>>|
                    #[trigger] answer(old(self).listed(), outcome) == (Answer {
                        listed: final(self).listed(),
                        reply: reply_view(reply),
                        ran: false,
                    })
            },
            !old(self).populated() ==> exists|handed: Discovery, outcome: Result<Discovery, String>|
                {
                    &&& old(self).hands_out(handed)
                    &&& discovery_groups(handed).len() == 0
                    &&& #[trigger] call_ensures(run, (handed,), outcome)
                    &&& answer(old(self).listed(), outcome_view(outcome, final(self).listed()))
                        == (Answer {
                        listed: final(self).listed(),
                        reply: reply_view(reply),
                        ran: true,
                    })
                    &&& final(self).engine() == outcome.ok()
                },
    {
        let ghost before = *self;
        match self.begin() {
            Step::Serve(groups) => Ok(groups),
            Step::Run(engine) => {
                let ghost handed = engine;
                let outcome = run(engine);
                let ghost seen = outcome;
                let reply = self.complete(outcome);
                proof {
                    assert(before.hands_out(handed));
                    assert(call_ensures(run, (handed,), seen));
                    assert(self.engine() == seen.ok());
                }
                reply
            },
        }
    }
}

} // verus!

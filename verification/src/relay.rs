//! The server's connection registry and its relay decisions: which
//! registered connection a relayed player update is written to, how a
//! registration message binds a name to a connection, and how a failed
//! write retires a connection as a dropout.
use vstd::prelude::*;
use crate::message::{Message, MessageType};

verus! {

/// A registered connection: the display name bound to it at registration.
/// The socket itself lives with the caller, keyed by this connection's
/// index in the registry.
#[derive(Debug)]
pub struct Connection {
    pub name: String,
}

/// Why a registration message was rejected.
#[derive(Clone, Copy, Debug, PartialEq, Eq, Structural)]
pub enum RegisterError {
    /// The first message on the connection was not tagged `PlayerPosition`.
    WrongKind,
    /// The message was tagged `PlayerPosition` but carried no player.
    MissingPlayer,
}

/// The registry's abstract state: the registered names in registration
/// order, and the set of names whose connection suffered a write failure.
#[verifier::ext_equal]
pub struct RelayModel {
    pub connections: Seq<Seq<char>>,
    pub dropouts: Set<Seq<char>>,
}

/// Whether a relayed update originating from the player named `origin` is
/// written to connection `i`: the connection must be registered, must not
/// be the originator's own (self-suppression), and must not be a dropout.
pub open spec fn should_deliver(m: RelayModel, origin: Seq<char>, i: int) -> bool {
    &&& 0 <= i < m.connections.len()
    &&& m.connections[i] != origin
    &&& !m.dropouts.contains(m.connections[i])
}

/// One registry event: a registration attempt, or a write failure that
/// records the connection's name as a dropout.
pub enum RelayEvent {
    Register(Message),
    MarkDropout(String),
}

/// What one event does to the registry's abstract state. A registration
/// binds the carried player's name iff the message is a `PlayerPosition`
/// with a player; recording a dropout adds the name to the dropout set.
pub open spec fn model_step(m: RelayModel, e: RelayEvent) -> RelayModel {
    match e {
        RelayEvent::Register(msg) => match msg.player {
            Some(p) => if msg.mtype is PlayerPosition {
                RelayModel { connections: m.connections.push(p.name@), dropouts: m.dropouts }
            } else {
                m
            },
            None => m,
        },
        RelayEvent::MarkDropout(n) => RelayModel {
            connections: m.connections,
            dropouts: m.dropouts.insert(n@),
        },
    }
}

/// The registry's abstract state after a sequence of events.
pub open spec fn model_run(m: RelayModel, evs: Seq<RelayEvent>) -> RelayModel
    decreases evs.len(),
{
    if evs.len() == 0 {
        m
    } else {
        model_run(model_step(m, evs[0]), evs.skip(1))
    }
}

/// Relay self-suppression: a delivery decision never targets the
/// connection registered under the originating player's own name.
pub proof fn lemma_relay_self_suppression(m: RelayModel, origin: Seq<char>, i: int)
    requires
        should_deliver(m, origin, i),
    ensures
        m.connections[i] != origin,
{
}

/// Dropout monotonicity: once a name is recorded as a dropout, it remains
/// one through any further sequence of registrations and dropout
/// recordings, and no later delivery decision, whatever the origin,
/// targets a connection bearing that name.
pub proof fn lemma_dropout_monotonic(m: RelayModel, evs: Seq<RelayEvent>, name: Seq<char>)
    requires
        m.dropouts.contains(name),
    ensures
        model_run(m, evs).dropouts.contains(name),
        forall|origin: Seq<char>, i: int|
            should_deliver(model_run(m, evs), origin, i) ==> model_run(m, evs).connections[i]
                != name,
    decreases evs.len(),
{
    if evs.len() > 0 {
        lemma_dropout_monotonic(model_step(m, evs[0]), evs.skip(1), name);
    }
}

/// The server's connection registry: the registered connections in
/// registration order, and the names marked as dropouts after a write
/// failure. Dropouts are never removed; a dropped connection is only
/// skipped.
#[derive(Debug)]
pub struct Relay {
    pub connections: Vec<Connection>,
    pub dropouts: Vec<String>,
}

impl View for Relay {
    type V = RelayModel;

    open spec fn view(&self) -> RelayModel {
        RelayModel {
            connections: self.connections@.map(|i: int, c: Connection| c.name@),
            dropouts: Set::new(
                |n: Seq<char>|
                    exists|k: int| 0 <= k < self.dropouts@.len() && self.dropouts@[k]@ == n,
            ),
        }
    }
}

/// Whether one of the given strings has the given characters.
fn contains_string(v: &Vec<String>, name: &String) -> (r: bool)
    ensures
        r == exists|k: int| 0 <= k < v@.len() && v@[k]@ == name@,
{
    let mut i: usize = 0;
    while i < v.len()
        invariant
            i <= v@.len(),
            forall|k: int| 0 <= k < i ==> v@[k]@ != name@,
        decreases v@.len() - i,
    {
        if v[i] == *name {
            return true;
        }
        i = i + 1;
    }
    false
}

impl Relay {
    /// An empty registry: no connection, no dropout.
    pub fn new() -> (r: Relay)
        ensures
            r@.connections.len() == 0,
            forall|n: Seq<char>| !r@.dropouts.contains(n),
    {
        Relay { connections: Vec::new(), dropouts: Vec::new() }
    }

    /// Bind a connection to the name carried by its first message. The
    /// message must be a `PlayerPosition` carrying a player; any other
    /// first message is a registration error and registers nothing.
    pub fn register(&mut self, m: &Message) -> (r: Result<(), RegisterError>)
        ensures
            final(self)@ == model_step(old(self)@, RelayEvent::Register(*m)),
            final(self).dropouts@ == old(self).dropouts@,
            r is Ok <==> (m.mtype is PlayerPosition && m.player is Some),
            r is Err ==> final(self).connections@ == old(self).connections@,
            r == Result::<(), RegisterError>::Err(RegisterError::WrongKind) <==> !(m.mtype
                is PlayerPosition),
            r == Result::<(), RegisterError>::Err(RegisterError::MissingPlayer) <==> (m.mtype
                is PlayerPosition && m.player is None),
    {
        match m.mtype {
            MessageType::PlayerPosition => match &m.player {
                Some(p) => {
                    let c = Connection { name: p.name.clone() };
                    self.connections.push(c);
                    proof {
                        assert(self@.connections =~= old(self)@.connections.push(
                            p.name@,
                        ));
                        assert(self@.dropouts =~= old(self)@.dropouts);
                        assert(self@ =~= model_step(old(self)@, RelayEvent::Register(*m)));
                    }
                    Ok(())
                },
                None => Err(RegisterError::MissingPlayer),
            },
            MessageType::WorldState => Err(RegisterError::WrongKind),
        }
    }

    /// The connections a relayed message is written to, in registration
    /// order: every registered connection except the originator's own and
    /// the dropouts. A message that is not a well-formed `PlayerPosition`
    /// is discarded and delivered nowhere.
    pub fn targets(&self, m: &Message) -> (v: Vec<usize>)
        ensures
            m.wf() && m.mtype is PlayerPosition ==> (m.player matches Some(p) ==> {
                &&& forall|k: int| 0 <= k < v@.len() ==> should_deliver(self@, p.name@, v@[k] as int)
                &&& forall|k: int|
                    0 <= k < v@.len() ==> self@.connections[v@[k] as int] != p.name@
                &&& forall|i: int|
                    should_deliver(self@, p.name@, i) ==> exists|k: int|
                        0 <= k < v@.len() && v@[k] as int == i
                &&& forall|k1: int, k2: int| 0 <= k1 < k2 < v@.len() ==> v@[k1] < v@[k2]
            }),
            !(m.wf() && m.mtype is PlayerPosition) ==> v@.len() == 0,
    {
        let origin: &String = match m.mtype {
            MessageType::PlayerPosition => match &m.player {
                Some(p) => {
                    if m.world.is_some() {
                        return Vec::new();
                    }
                    &p.name
                },
                None => {
                    return Vec::new();
                },
            },
            MessageType::WorldState => {
                return Vec::new();
            },
        };
        let mut v: Vec<usize> = Vec::new();
        let mut i: usize = 0;
        while i < self.connections.len()
            invariant
                i <= self.connections@.len(),
                self@.connections.len() == self.connections@.len(),
                forall|k: int|
                    0 <= k < v@.len() ==> should_deliver(self@, origin@, v@[k] as int) && v@[k]
                        < i,
                forall|j: int|
                    0 <= j < i && should_deliver(self@, origin@, j) ==> exists|k: int|
                        0 <= k < v@.len() && v@[k] as int == j,
                forall|k1: int, k2: int| 0 <= k1 < k2 < v@.len() ==> v@[k1] < v@[k2],
            decreases self.connections@.len() - i,
        {
            let same = self.connections[i].name == *origin;
            let dropped = contains_string(&self.dropouts, &self.connections[i].name);
            proof {
                assert(self@.connections[i as int] == self.connections@[i as int].name@);
                assert(self@.dropouts.contains(self.connections@[i as int].name@) == dropped);
            }
            let ghost vpre = v@;
            if !same && !dropped {
                v.push(i);
            }
            proof {
                assert forall|j: int|
                    0 <= j < i + 1 && should_deliver(self@, origin@, j) implies exists|k: int|
                    0 <= k < v@.len() && v@[k] as int == j by {
                    if j < i {
                        let k = choose|k: int| 0 <= k < vpre.len() && vpre[k] as int == j;
                        assert(v@[k] as int == j);
                    } else {
                        assert(v@[v@.len() - 1] as int == j);
                    }
                }
            }
            i = i + 1;
        }
        v
    }

    /// Record a write failure: the connection's name joins the dropout set
    /// and every later delivery decision skips it. Names already recorded
    /// stay recorded; the registered connections are untouched.
    pub fn mark_dropout(&mut self, name: &String)
        ensures
            final(self)@ == model_step(old(self)@, RelayEvent::MarkDropout(*name)),
            final(self).connections@ == old(self).connections@,
            final(self)@.dropouts.contains(name@),
            forall|n: Seq<char>|
                old(self)@.dropouts.contains(n) ==> final(self)@.dropouts.contains(n),
    {
        self.dropouts.push(name.clone());
        proof {
            let oldv = old(self).dropouts@;
            let newv = self.dropouts@;
            assert(newv[oldv.len() as int]@ == name@);
            assert forall|n: Seq<char>| #[trigger] self@.dropouts.contains(n) implies old(
                self,
            )@.dropouts.insert(name@).contains(n) by {
                let k = choose|k: int| 0 <= k < newv.len() && newv[k]@ == n;
                if k < oldv.len() {
                    assert(oldv[k]@ == n);
                    assert(old(self)@.dropouts.contains(n));
                } else {
                    assert(n == name@);
                }
            }
            assert forall|n: Seq<char>|
                #[trigger] old(self)@.dropouts.insert(name@).contains(n) implies self@.dropouts.contains(
                n,
            ) by {
                if old(self)@.dropouts.contains(n) {
                    let k = choose|k: int| 0 <= k < oldv.len() && oldv[k]@ == n;
                    assert(newv[k]@ == n);
                } else {
                    assert(newv[oldv.len() as int]@ == n);
                }
            }
            assert(self@.dropouts =~= old(self)@.dropouts.insert(name@));
            assert(self@.connections =~= old(self)@.connections);
            assert(self@ =~= model_step(old(self)@, RelayEvent::MarkDropout(*name)));
        }
    }
}

} // verus!

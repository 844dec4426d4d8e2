//! The game world: the locally controlled player, the remote players known
//! from the network, the static obstacles, and the per-tick
//! prediction-and-collision engine that commits or discards a speculative
//! move.
use vstd::prelude::*;
use crate::message::{Message, MessageType};
use crate::player::{
    circles_intersect, latch_down, latch_up, lr_sign, lr_sign_of, ud_sign, ud_sign_of, Critter,
    Key, Player, Pos, UDDir, LRDir,
};

verus! {

/// Distance moved on an axis per tick while an intent is held, in whole
/// units.
pub const MOVE_STEP: i32 = 5;

/// The center of a critter as a point.
pub open spec fn critter_pos(c: Critter) -> Pos {
    Pos { pos_x: c.pos_x, pos_y: c.pos_y }
}

/// Whether the circle at `pos` with radius `size` intersects any obstacle.
pub open spec fn intersects_any(pos: Pos, size: u32, objects: Seq<Critter>) -> bool {
    exists|i: int|
        0 <= i < objects.len() && circles_intersect(
            pos,
            size,
            critter_pos(objects[i]),
            objects[i].size,
        )
}

/// The index of the first player with the given name, or -1 if none has it.
pub open spec fn index_of_name(s: Seq<Player>, name: Seq<char>) -> int
    decreases s.len(),
{
    if s.len() == 0 {
        -1
    } else if s[0].name@ == name {
        0
    } else {
        let r = index_of_name(s.skip(1), name);
        if r == -1 {
            -1
        } else {
            r + 1
        }
    }
}

pub proof fn lemma_index_of_name_props(s: Seq<Player>, name: Seq<char>)
    ensures
        index_of_name(s, name) == -1 ==> (forall|j: int| 0 <= j < s.len() ==> s[j].name@ != name),
        index_of_name(s, name) != -1 ==> {
            let k = index_of_name(s, name);
            &&& 0 <= k < s.len()
            &&& s[k].name@ == name
            &&& forall|j: int| 0 <= j < k ==> s[j].name@ != name
        },
    decreases s.len(),
{
    if s.len() == 0 {
    } else if s[0].name@ == name {
    } else {
        lemma_index_of_name_props(s.skip(1), name);
        assert forall|j: int| 1 <= j < s.len() implies s.skip(1)[j - 1] == s[j] by {}
    }
}

pub proof fn lemma_index_of_name_first(s: Seq<Player>, name: Seq<char>, i: int)
    requires
        0 <= i < s.len(),
        s[i].name@ == name,
        forall|j: int| 0 <= j < i ==> s[j].name@ != name,
    ensures
        index_of_name(s, name) == i,
    decreases s.len(),
{
    if i == 0 {
    } else {
        assert(s[0].name@ != name);
        assert(s.skip(1)[i - 1] == s[i]);
        assert forall|j: int| 0 <= j < i - 1 implies s.skip(1)[j].name@ != name by {
            assert(s.skip(1)[j] == s[j + 1]);
        }
        lemma_index_of_name_first(s.skip(1), name, i - 1);
    }
}

/// What one remote player update does to the remote-player registry: an
/// update named like the main player is ignored, any other is upserted by
/// name (the first entry with that name is replaced, or the player is
/// appended if none has it).
pub open spec fn spec_update_player(players: Seq<Player>, main_name: Seq<char>, p: Player) -> Seq<
    Player,
> {
    if p.name@ == main_name {
        players
    } else {
        let i = index_of_name(players, p.name@);
        if i == -1 {
            players.push(p)
        } else {
            players.update(i, p)
        }
    }
}

/// At most one remote entry per name: the registry is logically keyed by
/// player name.
pub open spec fn unique_names(players: Seq<Player>) -> bool {
    forall|i: int, j: int|
        0 <= i < j < players.len() ==> players[i].name@ != players[j].name@
}

/// A remote player update never inserts or overwrites an entry bearing the
/// main player's own name: a registry free of the main player stays free
/// of it, whatever the update.
pub proof fn lemma_update_player_excludes_main(
    players: Seq<Player>,
    main_name: Seq<char>,
    p: Player,
)
    requires
        forall|j: int| 0 <= j < players.len() ==> players[j].name@ != main_name,
    ensures
        forall|j: int|
            0 <= j < spec_update_player(players, main_name, p).len() ==> spec_update_player(
                players,
                main_name,
                p,
            )[j].name@ != main_name,
{
    if p.name@ != main_name {
        let s = spec_update_player(players, main_name, p);
        let i = index_of_name(players, p.name@);
        if i != -1 {
            lemma_index_of_name_props(players, p.name@);
        }
        assert forall|j: int| 0 <= j < s.len() implies s[j].name@ != main_name by {
            if i != -1 && j == i {
                assert(s[j] == p);
            } else if j < players.len() {
                assert(s[j] == players[j]);
            } else {
                assert(s[j] == p);
            }
        }
    }
}

/// The upsert keyed by name preserves name uniqueness: a registry with at
/// most one entry per name never gains a duplicate.
pub proof fn lemma_update_player_preserves_unique_names(
    players: Seq<Player>,
    main_name: Seq<char>,
    p: Player,
)
    requires
        unique_names(players),
    ensures
        unique_names(spec_update_player(players, main_name, p)),
{
    if p.name@ != main_name {
        lemma_index_of_name_props(players, p.name@);
    }
}

/// Applying the same player update twice yields the same remote-player
/// registry as applying it once: the upsert keyed by name never makes a
/// duplicate entry.
pub proof fn lemma_update_player_idempotent(players: Seq<Player>, main_name: Seq<char>, p: Player)
    ensures
        spec_update_player(spec_update_player(players, main_name, p), main_name, p)
            == spec_update_player(players, main_name, p),
{
    if p.name@ != main_name {
        lemma_index_of_name_props(players, p.name@);
        let i = index_of_name(players, p.name@);
        if i == -1 {
            let s1 = players.push(p);
            lemma_index_of_name_first(s1, p.name@, players.len() as int);
            assert(s1.update(players.len() as int, p) =~= s1);
        } else {
            let s1 = players.update(i, p);
            lemma_index_of_name_first(s1, p.name@, i);
            assert(s1.update(i, p) =~= s1);
        }
    }
}

/// The world as one client sees it: the remote players keyed logically by
/// name, the locally controlled main player, and the static obstacles.
#[derive(Debug)]
pub struct GameWorld {
    pub players: Vec<Player>,
    pub main_player: Player,
    pub objects: Vec<Critter>,
}

/// Whether the circle at `pos` with radius `size` intersects any of the
/// given obstacles.
fn intersects_any_exec(pos: Pos, size: u32, objects: &Vec<Critter>) -> (r: bool)
    ensures
        r == intersects_any(pos, size, objects@),
{
    let mut i: usize = 0;
    while i < objects.len()
        invariant
            i <= objects@.len(),
            forall|j: int|
                0 <= j < i ==> !circles_intersect(
                    pos,
                    size,
                    critter_pos(objects@[j]),
                    objects@[j].size,
                ),
        decreases objects@.len() - i,
    {
        let c = objects[i];
        if crate::player::circles_intersect_at(pos, size, Pos { pos_x: c.pos_x, pos_y: c.pos_y },
            c.size) {
            return true;
        }
        i = i + 1;
    }
    false
}

/// The index of the first player with the given name, if any holds it.
fn find_player_index(players: &Vec<Player>, name: &String) -> (r: Option<usize>)
    ensures
        match r {
            Some(i) => {
                &&& i < players@.len()
                &&& players@[i as int].name@ == name@
                &&& forall|j: int| 0 <= j < i ==> players@[j].name@ != name@
            },
            None => forall|j: int| 0 <= j < players@.len() ==> players@[j].name@ != name@,
        },
{
    let mut i: usize = 0;
    while i < players.len()
        invariant
            i <= players@.len(),
            forall|j: int| 0 <= j < i ==> players@[j].name@ != name@,
        decreases players@.len() - i,
    {
        if players[i].name == *name {
            return Some(i);
        }
        i = i + 1;
    }
    None
}

impl GameWorld {
    /// The world's invariant: the main player is never duplicated into the
    /// remote-player set, and the remote players are keyed by name, one
    /// entry each.
    pub open spec fn wf(self) -> bool {
        &&& forall|j: int|
            0 <= j < self.players@.len() ==> self.players@[j].name@ != self.main_player.name@
        &&& unique_names(self.players@)
    }

    /// A fresh world around the given obstacles: no remote player is known
    /// yet, and the main player starts at the origin under a random name.
    pub fn new(objects: Vec<Critter>) -> (w: GameWorld)
        ensures
            w.wf(),
            w.players@.len() == 0,
            w.main_player.name@.len() == 30,
            w.main_player.pos == (Pos { pos_x: 0, pos_y: 0 }),
            w.main_player.size == 10,
            w.main_player.moving == (None::<LRDir>, None::<UDDir>),
            w.objects@ == objects@,
    {
        GameWorld { players: Vec::new(), main_player: Player::new(), objects }
    }

    /// Absorb a remote player update: ignored if it carries the main
    /// player's own name, otherwise upserted by name. This is the only
    /// mutation path for remote player state.
    pub fn update_player(&mut self, player: Player)
        ensures
            old(self).wf() ==> final(self).wf(),
            final(self).players@ == spec_update_player(
                old(self).players@,
                old(self).main_player.name@,
                player,
            ),
            player.name@ == old(self).main_player.name@ ==> final(self).players@ == old(
                self,
            ).players@,
            final(self).main_player == old(self).main_player,
            final(self).objects@ == old(self).objects@,
    {
        proof {
            if old(self).wf() {
                lemma_update_player_excludes_main(
                    old(self).players@,
                    old(self).main_player.name@,
                    player,
                );
                lemma_update_player_preserves_unique_names(
                    old(self).players@,
                    old(self).main_player.name@,
                    player,
                );
            }
        }
        if !self.main_player.same_player(&player) {
            match find_player_index(&self.players, &player.name) {
                Some(i) => {
                    proof {
                        lemma_index_of_name_first(self.players@, player.name@, i as int);
                    }
                    self.players.set(i, player);
                },
                None => {
                    proof {
                        lemma_index_of_name_props(self.players@, player.name@);
                    }
                    self.players.push(player);
                },
            }
        }
    }

    /// Replace the static obstacle set with a received world snapshot.
    pub fn update_world(&mut self, objects: Vec<Critter>)
        ensures
            final(self).objects@ == objects@,
            final(self).players@ == old(self).players@,
            final(self).main_player == old(self).main_player,
    {
        self.objects = objects;
    }

    /// One simulation tick of the prediction-and-collision engine.
    ///
    /// The held intents give a delta of `MOVE_STEP` per axis. The move is
    /// committed when the player already overlaps an obstacle (so it can
    /// never become permanently stuck) or when the predicted position
    /// overlaps none; a player currently clear of all obstacles is blocked
    /// from moving into an overlap. The result says whether the position
    /// should be transmitted: true exactly when the move was committed and
    /// was not a no-op.
    pub fn update(&mut self) -> (sent: bool)
        requires
            i32::MIN <= old(self).main_player.pos.pos_x + lr_sign(old(self).main_player.moving.0)
                * MOVE_STEP <= i32::MAX,
            i32::MIN <= old(self).main_player.pos.pos_y + ud_sign(old(self).main_player.moving.1)
                * MOVE_STEP <= i32::MAX,
        ensures
            ({
                let p = old(self).main_player;
                let dx = lr_sign(p.moving.0) * MOVE_STEP;
                let dy = ud_sign(p.moving.1) * MOVE_STEP;
                let target = Pos {
                    pos_x: (p.pos.pos_x + dx) as i32,
                    pos_y: (p.pos.pos_y + dy) as i32,
                };
                let overlapping = intersects_any(p.pos, p.size, old(self).objects@);
                let future_clear = !intersects_any(target, p.size, old(self).objects@);
                let permitted = overlapping || future_clear;
                &&& final(self).main_player.pos == (if permitted {
                    target
                } else {
                    p.pos
                })
                &&& (!overlapping && !future_clear) ==> final(self).main_player.pos == p.pos
                &&& overlapping ==> final(self).main_player.pos == target
                &&& final(self).main_player.name == p.name
                &&& final(self).main_player.size == p.size
                &&& final(self).main_player.moving == p.moving
                &&& final(self).players@ == old(self).players@
                &&& final(self).objects@ == old(self).objects@
                &&& sent == (permitted && (dx != 0 || dy != 0))
            }),
    {
        let x: i32 = lr_sign_of(self.main_player.moving.0);
        let y: i32 = ud_sign_of(self.main_player.moving.1);
        let dx: i32 = x * MOVE_STEP;
        let dy: i32 = y * MOVE_STEP;
        let overlapping = intersects_any_exec(
            self.main_player.pos,
            self.main_player.size,
            &self.objects,
        );
        let target = Pos {
            pos_x: self.main_player.pos.pos_x + dx,
            pos_y: self.main_player.pos.pos_y + dy,
        };
        let future_clear = !intersects_any_exec(target, self.main_player.size, &self.objects);
        let can_move = overlapping || future_clear;
        if can_move {
            self.main_player.pos.move_player(dx, dy);
        }
        can_move && (dx != 0 || dy != 0)
    }

    /// A pressed directional key sets the latch of its axis,
    /// unconditionally overwriting any previous intent on that axis.
    pub fn key_down_event(&mut self, key: Key)
        ensures
            final(self).main_player.moving == latch_down(old(self).main_player.moving, key),
            final(self).main_player.name == old(self).main_player.name,
            final(self).main_player.pos == old(self).main_player.pos,
            final(self).main_player.size == old(self).main_player.size,
            final(self).players@ == old(self).players@,
            final(self).objects@ == old(self).objects@,
    {
        match key {
            Key::Up => {
                self.main_player.moving = (self.main_player.moving.0, Some(UDDir::Up));
            },
            Key::Down => {
                self.main_player.moving = (self.main_player.moving.0, Some(UDDir::Down));
            },
            Key::Left => {
                self.main_player.moving = (Some(LRDir::Left), self.main_player.moving.1);
            },
            Key::Right => {
                self.main_player.moving = (Some(LRDir::Right), self.main_player.moving.1);
            },
        }
    }

    /// A released directional key clears the latch of its axis only if the
    /// latch still matches the key, so a stale release cannot clear a newer
    /// intent.
    pub fn key_up_event(&mut self, key: Key)
        ensures
            final(self).main_player.moving == latch_up(old(self).main_player.moving, key),
            final(self).main_player.name == old(self).main_player.name,
            final(self).main_player.pos == old(self).main_player.pos,
            final(self).main_player.size == old(self).main_player.size,
            final(self).players@ == old(self).players@,
            final(self).objects@ == old(self).objects@,
    {
        match (key, self.main_player.moving) {
            (Key::Up, (_, Some(UDDir::Up))) => {
                self.main_player.moving = (self.main_player.moving.0, None);
            },
            (Key::Down, (_, Some(UDDir::Down))) => {
                self.main_player.moving = (self.main_player.moving.0, None);
            },
            (Key::Left, (Some(LRDir::Left), _)) => {
                self.main_player.moving = (None, self.main_player.moving.1);
            },
            (Key::Right, (Some(LRDir::Right), _)) => {
                self.main_player.moving = (None, self.main_player.moving.1);
            },
            _ => {},
        }
    }

    /// Absorb one received message: a position update is upserted into the
    /// remote players, a world snapshot replaces the obstacles, and a
    /// message whose payload does not match its tag is discarded unchanged.
    pub fn apply_message(&mut self, m: Message)
        ensures
            old(self).wf() ==> final(self).wf(),
            m.mtype is PlayerPosition ==> (m.player matches Some(p) ==> {
                &&& final(self).players@ == spec_update_player(
                    old(self).players@,
                    old(self).main_player.name@,
                    p,
                )
                &&& final(self).main_player == old(self).main_player
                &&& final(self).objects@ == old(self).objects@
            }),
            m.mtype is WorldState ==> (m.world matches Some(w) ==> {
                &&& final(self).objects@ == w@
                &&& final(self).players@ == old(self).players@
                &&& final(self).main_player == old(self).main_player
            }),
            (m.mtype is PlayerPosition && m.player is None) || (m.mtype is WorldState && m.world
                is None) ==> {
                &&& final(self).players@ == old(self).players@
                &&& final(self).main_player == old(self).main_player
                &&& final(self).objects@ == old(self).objects@
            },
    {
        match m.mtype {
            MessageType::PlayerPosition => {
                match m.player {
                    Some(p) => self.update_player(p),
                    None => {},
                }
            },
            MessageType::WorldState => {
                match m.world {
                    Some(w) => self.update_world(w),
                    None => {},
                }
            },
        }
    }
}

} // verus!

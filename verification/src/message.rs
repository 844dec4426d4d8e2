//! The tagged envelope exchanged over every connection: either one
//! player's latest position or a snapshot of the static world.
use vstd::prelude::*;
use crate::player::{Critter, LRDir, Player, UDDir};

verus! {

/// Which payload a message carries.
#[derive(Clone, Copy, Debug, PartialEq, Eq, Structural)]
pub enum MessageType {
    PlayerPosition,
    WorldState,
}

/// A message envelope. A well-formed message populates exactly the payload
/// field selected by its tag; see [`Message::wf`].
#[derive(Clone, Debug, PartialEq)]
pub struct Message {
    pub mtype: MessageType,
    pub world: Option<Vec<Critter>>,
    pub player: Option<Player>,
}

impl Message {
    /// A message of one kind never carries the other kind's payload.
    pub open spec fn wf(self) -> bool {
        match self.mtype {
            MessageType::PlayerPosition => self.player is Some && self.world is None,
            MessageType::WorldState => self.world is Some && self.player is None,
        }
    }

    /// The position-update envelope for a player: tagged `PlayerPosition`,
    /// carrying a copy of the player with its movement intent cleared.
    pub fn player_update(p: &Player) -> (m: Message)
        ensures
            m.wf(),
            m.mtype is PlayerPosition,
            m.world is None,
            (m.player matches Some(q) && q.name == p.name && q.pos == p.pos && q.size == p.size
                && q.moving == (None::<LRDir>, None::<UDDir>)),
    {
        Message { mtype: MessageType::PlayerPosition, world: None, player: Some(Player::copy(p)) }
    }
}

} // verus!

use vstd::prelude::*;

use super::colony::{Colony, AI, PLAYER};
use super::ACTION_DELAY_MS;
use crate::chunk::manager::Manager as ChunkManager;

verus! {

/// One colony for each player: the player's first, then the computer's.
pub struct Manager {
    pub colonies: Vec<Colony>,
}

impl Manager {
    /// The player's colony and the computer's, created at time `now`.
    pub fn new(now: u64) -> (r: Self)
        ensures
            r.colonies@.len() == 2,
            r.colonies@[PLAYER as int].name@ == "Bel-o-Kan"@,
            r.colonies@[AI as int].name@ == "Com-p-uter"@,
    {
        let mut colonies = Vec::new();
        colonies.push(Colony::bel_o_kan(now));
        colonies.push(Colony::computer_colony(now));
        Self { colonies }
    }

    /// Ticks the player's colony, then the computer's.
    pub fn tick(&mut self, chunk_mngr: &ChunkManager, now: u64)
        requires
            chunk_mngr.wf(),
            old(self).colonies@.len() == 2,
            old(self).colonies@[PLAYER as int].safe(chunk_mngr, now),
            old(self).colonies@[AI as int].safe(chunk_mngr, now),
            old(self).colonies@[PLAYER as int].queen.last_action + ACTION_DELAY_MS <= u64::MAX,
            old(self).colonies@[AI as int].queen.last_action + ACTION_DELAY_MS <= u64::MAX,
        ensures
            final(self).colonies@.len() == 2,
            Colony::spec_ticked(chunk_mngr, &old(self).colonies@[PLAYER as int], &final(self).colonies@[PLAYER as int], now),
            Colony::spec_ticked(chunk_mngr, &old(self).colonies@[AI as int], &final(self).colonies@[AI as int], now),
    {
        self.colonies[PLAYER].tick(chunk_mngr, now);
        self.colonies[AI].tick(chunk_mngr, now);
    }
}

} // verus!

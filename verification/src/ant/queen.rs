use vstd::prelude::*;

use super::worker::Worker;
use super::Action;

verus! {

/// An egg laid by a queen; it hatches into a worker.
#[derive(Clone, Copy, PartialEq, Eq, Debug, Structural)]
pub struct Egg;

/// The queen of a colony and the eggs she will lay.
pub struct Queen {
    pub pos: (i32, i32, i32),
    pub last_action: u64,
    pub eggs: Vec<Egg>,
}

impl Queen {
    /// Hatches every egg at the queen's position, at time `now`.
    pub fn breed(&mut self, now: u64) -> (r: Vec<Worker>)
        ensures
            r@.len() == old(self).eggs@.len(),
            forall|i: int| 0 <= i < r@.len() ==> (#[trigger] r@[i]).pos == old(self).pos && r@[i].last_action == now,
            final(self).eggs@.len() == 0,
            final(self).pos == old(self).pos,
            final(self).last_action == old(self).last_action,
    {
        let mut newborns: Vec<Worker> = Vec::new();
        let n = self.eggs.len();
        let mut i: usize = 0;
        while i < n
            invariant
                n == old(self).eggs@.len(),
                i <= n,
                self.eggs@.len() == n - i,
                self.pos == old(self).pos,
                self.last_action == old(self).last_action,
                newborns@.len() == i,
                forall|j: int| 0 <= j < i ==> (#[trigger] newborns@[j]).pos == old(self).pos && newborns@[j].last_action == now,
            decreases n - i,
        {
            newborns.push(Worker::new(self.pos, now));
            self.eggs.pop();
            i = i + 1;
        }
        newborns
    }

    /// Lays one more worker egg, first in line.
    pub fn new_worker(&mut self)
        ensures
            final(self).eggs@ == seq![Egg].add(old(self).eggs@),
            final(self).pos == old(self).pos,
            final(self).last_action == old(self).last_action,
    {
        self.eggs.insert(0, Egg);
        assert(self.eggs@ =~= seq![Egg].add(old(self).eggs@));
    }

    /// Breeds when eggs are waiting; the queen never walks.
    pub fn think(&mut self, now: u64) -> (r: Option<Action>)
        ensures
            old(self).eggs@.len() == 0 ==> r is None && *final(self) == *old(self),
            old(self).eggs@.len() > 0 ==> (r matches Some(a) && a matches Action::Breed(newborns)
                && newborns@.len() == old(self).eggs@.len()
                && (forall|i: int| 0 <= i < newborns@.len() ==> (#[trigger] newborns@[i]).pos == old(self).pos
                    && newborns@[i].last_action == now)),
            old(self).eggs@.len() > 0 ==> final(self).eggs@.len() == 0,
            final(self).pos == old(self).pos,
            final(self).last_action == old(self).last_action,
    {
        if self.eggs.len() > 0 {
            let newborns = self.breed(now);
            Some(Action::Breed(newborns))
        } else {
            None
        }
    }
}

} // verus!

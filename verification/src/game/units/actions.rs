use vstd::prelude::*;

use crate::coords::Coords;

verus! {

/// An action and where to perform it.
pub struct Action(pub ActionType, pub Coords);

impl Action {
    /// The action as a pair of its type and target.
    pub fn to_tuple(self) -> (r: (ActionType, Coords))
        ensures
            r == (self.0, self.1),
    {
        (self.0, self.1)
    }
}

#[derive(Copy, Clone, Debug, PartialEq, Eq, Structural)]
pub enum ActionType {
    WANDER,
    WAIT,
    MOVE,
    HAUL,
    DIG,
    EAT,
    SLEEP,
    FIGHT,
    BUILD,
}

/// Name of an action type.
pub open spec fn action_name(a: ActionType) -> Seq<char> {
    match a {
        ActionType::WANDER => "WANDER"@,
        ActionType::WAIT => "WAIT"@,
        ActionType::MOVE => "MOVE"@,
        ActionType::HAUL => "HAUL"@,
        ActionType::DIG => "DIG"@,
        ActionType::EAT => "EAT"@,
        ActionType::SLEEP => "SLEEP"@,
        ActionType::FIGHT => "FIGHT"@,
        ActionType::BUILD => "BUILD"@,
    }
}

impl ActionType {
    /// The action type's name.
    pub fn to_str(self) -> (r: String)
        ensures
            r@ == action_name(self),
    {
        match self {
            ActionType::WANDER => "WANDER".to_owned(),
            ActionType::WAIT => "WAIT".to_owned(),
            ActionType::MOVE => "MOVE".to_owned(),
            ActionType::HAUL => "HAUL".to_owned(),
            ActionType::DIG => "DIG".to_owned(),
            ActionType::EAT => "EAT".to_owned(),
            ActionType::SLEEP => "SLEEP".to_owned(),
            ActionType::FIGHT => "FIGHT".to_owned(),
            ActionType::BUILD => "BUILD".to_owned(),
        }
    }
}

/// `q` without its first action, if it has one.
pub open spec fn without_first(q: Seq<(ActionType, Coords)>) -> Seq<(ActionType, Coords)> {
    if q.len() == 0 {
        q
    } else {
        q.drop_first()
    }
}

/// The actions of `q` whose type is listed (`keep`) or not listed (`!keep`) in `types`.
pub open spec fn select(q: Seq<(ActionType, Coords)>, types: Seq<ActionType>, keep: bool) -> Seq<(ActionType, Coords)> {
    q.filter(|a: (ActionType, Coords)| types.contains(a.0) == keep)
}

/// Putting an action first then cancelling the first action gives the queue back.
pub proof fn law_do_next_then_cancel(q: Seq<(ActionType, Coords)>, a: (ActionType, Coords))
    ensures
        without_first(seq![a] + q) == q,
{
    assert((seq![a] + q).drop_first() =~= q);
}

/// Keeping the actions of some types and removing them split the queue: the
/// two results together are as long as the queue.
pub proof fn law_select_splits(q: Seq<(ActionType, Coords)>, types: Seq<ActionType>)
    ensures
        select(q, types, true).len() + select(q, types, false).len() == q.len(),
    decreases q.len(),
{
    reveal_with_fuel(Seq::<_>::filter, 1);
    if q.len() > 0 {
        law_select_splits(q.drop_last(), types);
    }
}

/// A queue of actions, first to do first.
pub trait ActionQueue: View<V = Seq<(ActionType, Coords)>> + Sized {
    /// Drops the first action; an error when there is none.
    fn cancel_first(&mut self) -> (r: Result<(), ()>)
        ensures
            old(self)@.len() == 0 ==> r is Err,
            old(self)@.len() > 0 ==> r is Ok,
            final(self)@ == without_first(old(self)@),
    ;

    /// Puts `action` first.
    fn do_next(&mut self, action: Action)
        ensures
            final(self)@ == seq![(action.0, action.1)] + old(self)@,
    ;

    /// Adds `action` at the beginning of the queue, before all the others.
    fn do_now(&mut self, action: Action)
        ensures
            final(self)@ == seq![(action.0, action.1)] + old(self)@,
    ;

    /// Puts `action` last.
    fn do_later(&mut self, action: Action)
        ensures
            final(self)@ == old(self)@.push((action.0, action.1)),
    ;

    /// Puts `action` second, after the current one.
    fn do_then(&mut self, action: Action)
        requires
            old(self)@.len() >= 1,
        ensures
            final(self)@ == old(self)@.insert(1, (action.0, action.1)),
    ;

    /// Removes the actions whose type is any of `actions`.
    fn remove_only(&mut self, actions: Vec<ActionType>)
        ensures
            final(self)@ == select(old(self)@, actions@, false),
    ;

    /// Removes the actions whose type is none of `actions`.
    fn keep_only(&mut self, actions: Vec<ActionType>)
        ensures
            final(self)@ == select(old(self)@, actions@, true),
    ;
}

/// True when `types` lists `t`.
fn lists(types: &Vec<ActionType>, t: ActionType) -> (r: bool)
    ensures
        r == types@.contains(t),
{
    let n = types.len();
    let mut i: usize = 0;
    while i < n
        invariant
            n == types@.len(),
            i <= n,
            forall|j: int| 0 <= j < i ==> types@[j] != t,
        decreases n - i,
    {
        if types[i] == t {
            return true;
        }
        i = i + 1;
    }
    false
}

/// The actions of `q` whose type is listed (`keep`) or not (`!keep`) in `types`, in order.
fn selected(q: &Vec<(ActionType, Coords)>, types: &Vec<ActionType>, keep: bool) -> (r: Vec<(ActionType, Coords)>)
    ensures
        r@ == select(q@, types@, keep),
{
    let ghost pred = |a: (ActionType, Coords)| types@.contains(a.0) == keep;
    let mut r: Vec<(ActionType, Coords)> = Vec::new();
    let n = q.len();
    let mut i: usize = 0;
    while i < n
        invariant
            n == q@.len(),
            i <= n,
            pred == (|a: (ActionType, Coords)| types@.contains(a.0) == keep),
            r@ == q@.take(i as int).filter(pred),
        decreases n - i,
    {
        proof {
            reveal_with_fuel(Seq::<_>::filter, 1);
            assert(q@.take(i + 1).drop_last() =~= q@.take(i as int));
        }
        let a = q[i];
        if lists(types, a.0) == keep {
            r.push(a);
        }
        i = i + 1;
    }
    assert(q@.take(n as int) =~= q@);
    r
}

impl ActionQueue for Vec<(ActionType, Coords)> {
    fn cancel_first(&mut self) -> (r: Result<(), ()>) {
        if self.len() == 0 {
            Err(())
        } else {
            self.remove(0);
            assert(self@ =~= without_first(old(self)@));
            Ok(())
        }
    }

    fn do_next(&mut self, action: Action) {
        self.insert(0, action.to_tuple());
        assert(self@ =~= seq![(action.0, action.1)] + old(self)@);
    }

    fn do_now(&mut self, action: Action) {
        self.insert(0, action.to_tuple());
        assert(self@ =~= seq![(action.0, action.1)] + old(self)@);
    }

    fn do_later(&mut self, action: Action) {
        self.push(action.to_tuple());
    }

    fn do_then(&mut self, action: Action) {
        self.insert(1, action.to_tuple());
    }

    fn remove_only(&mut self, actions: Vec<ActionType>) {
        let kept = selected(self, &actions, false);
        *self = kept;
    }

    fn keep_only(&mut self, actions: Vec<ActionType>) {
        let kept = selected(self, &actions, true);
        *self = kept;
    }
}

} // verus!

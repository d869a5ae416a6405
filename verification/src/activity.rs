//! What goes on in the window as a whole: the activities that its spinner tells of, and how often
//! it refreshes by itself.

use crate::input::{following_number, next_number};
use vstd::prelude::*;

verus! {

/// The activities under way, each with its number and what it is called.
#[derive(Debug)]
pub struct GlobalActivityState {
    pub next_id: u64,
    pub active: Vec<(u64, String)>,
}

/// An activity under way, to be handed back when it ends.
#[derive(Debug)]
pub struct GlobalActivity {
    pub id: u64,
}

/// Whether an activity is another than the one with a number.
pub open spec fn is_other(id: u64) -> spec_fn((u64, String)) -> bool {
    |activity: (u64, String)| activity.0 != id
}

/// The activities but for those with a number.
pub open spec fn without_activity(active: Seq<(u64, String)>, id: u64) -> Seq<(u64, String)> {
    active.filter(is_other(id))
}

impl GlobalActivityState {
    /// What the spinner tells: the latest activity, if there is any.
    pub open spec fn told(&self) -> Option<String> {
        if self.active@.len() == 0 {
            None
        } else {
            Some(self.active@.last().1)
        }
    }

    /// No activity.
    pub fn new() -> (result: Self)
        ensures
            result.active@.len() == 0,
            result.next_id == 0,
    {
        GlobalActivityState { next_id: 0, active: Vec::new() }
    }

    /// Takes that an activity begins. The spinner then tells of it.
    pub fn begin_global_activity(&mut self, label: String) -> (result: GlobalActivity)
        ensures
            result.id == next_number(old(self).next_id),
            final(self).next_id == result.id,
            final(self).active@ == old(self).active@.push((result.id, label)),
            final(self).told() == Some(label),
    {
        self.next_id = following_number(self.next_id);
        self.active.push((self.next_id, label));
        GlobalActivity { id: self.next_id }
    }

    /// Takes that an activity ends.
    pub fn finish_global_activity(&mut self, activity: GlobalActivity)
        ensures
            final(self).next_id == old(self).next_id,
            final(self).active@ == without_activity(old(self).active@, activity.id),
    {
        let id: u64 = activity.id;
        let ghost stays = is_other(id);
        let mut kept: Vec<(u64, String)> = Vec::new();
        let mut i: usize = 0;
        proof {
            reveal(Seq::filter);
            assert(self.active@.take(0).filter(stays) == Seq::<(u64, String)>::empty());
        }
        while i < self.active.len()
            invariant
                i <= self.active@.len(),
                *self == *old(self),
                stays == is_other(id),
                kept@ == self.active@.take(i as int).filter(stays),
            decreases self.active@.len() - i,
        {
            proof {
                reveal(Seq::filter);
                assert(self.active@.take(i + 1).drop_last() == self.active@.take(i as int));
                assert(self.active@.take(i + 1).last() == self.active@[i as int]);
            }
            if self.active[i].0 != id {
                kept.push((self.active[i].0, self.active[i].1.clone()));
            }
            i = i + 1;
        }
        assert(self.active@.take(i as int) == self.active@);
        self.active = kept;
    }

    /// What the spinner tells, if it is shown.
    pub fn current_label(&self) -> (result: Option<String>)
        ensures
            result == self.told(),
    {
        if self.active.len() == 0 {
            None
        } else {
            Some(self.active[self.active.len() - 1].1.clone())
        }
    }

    /// What the spinner says, which is something general while nothing goes on.
    pub fn spinner_tooltip(&self) -> (result: String)
        ensures
            result@ == match self.told() {
                Some(label) => label@,
                None => "Working…"@,
            },
    {
        match self.current_label() {
            Some(label) => label,
            None => "Working…".to_owned(),
        }
    }
}

/// How long the window waits before it refreshes by itself, in seconds; never where that is nothing.
pub fn auto_refresh_interval(seconds: u32) -> (result: Option<u64>)
    ensures
        result == if seconds == 0 {
            None
        } else {
            Some(seconds as u64)
        },
{
    if seconds == 0 {
        None
    } else {
        Some(seconds as u64)
    }
}

/// An activity that just began ends without a trace on the others, as long as the numbers last.
pub proof fn law_activities_end_alone(state: GlobalActivityState, label: String)
    requires
        state.next_id < u64::MAX,
        forall|k: int| 0 <= k < state.active@.len() ==> (#[trigger] state.active@[k]).0
            <= state.next_id,
    ensures
        without_activity(
            state.active@.push((next_number(state.next_id), label)),
            next_number(state.next_id),
        ) == state.active@,
{
    let id = next_number(state.next_id);
    lemma_all_stay(state.active@, id);
    reveal(Seq::filter);
    assert(state.active@.push((id, label)).drop_last() == state.active@);
}

proof fn lemma_all_stay(active: Seq<(u64, String)>, id: u64)
    requires
        forall|k: int| 0 <= k < active.len() ==> (#[trigger] active[k]).0 < id,
    ensures
        without_activity(active, id) == active,
    decreases active.len(),
{
    reveal(Seq::filter);
    if active.len() > 0 {
        let front = active.drop_last();
        assert forall|k: int| 0 <= k < front.len() implies (#[trigger] front[k]).0 < id by {
            assert(front[k] == active[k]);
        }
        lemma_all_stay(front, id);
        assert(active[active.len() - 1].0 < id);
        assert(front.push(active.last()) == active);
    }
}

/// The latest activity that goes on is told. Ending one takes it away among all the others, which stay
/// in their order.
pub proof fn law_latest_activity_is_told(
    state: GlobalActivityState,
    left: Seq<(u64, String)>,
    right: Seq<(u64, String)>,
    activity: (u64, String),
    id: u64,
)
    ensures
        state.active@.len() == 0 <==> state.told() is None,
        state.active@.len() > 0 ==> state.told() == Some(
            state.active@[state.active@.len() - 1].1,
        ),
        without_activity(left + right, id) == without_activity(left, id) + without_activity(
            right,
            id,
        ),
        without_activity(seq![activity], id) == if activity.0 == id {
            Seq::empty()
        } else {
            seq![activity]
        },
{
    Seq::filter_distributes_over_add(left, right, is_other(id));
    reveal_with_fuel(Seq::filter, 2);
    assert(seq![activity].drop_last() =~= Seq::<(u64, String)>::empty());
    assert(without_activity(seq![activity], id) =~= if activity.0 == id {
        Seq::empty()
    } else {
        seq![activity]
    });
}

} // verus!

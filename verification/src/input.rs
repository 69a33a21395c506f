//! The action binding and edge-triggered press detection.
//!
//! One logical action — quit — is bound at startup to one physical key,
//! identified by its key code. The binding never changes afterwards. A press
//! is detected on its edge: the action counts as just pressed only on the
//! tick where the bound key goes from released to pressed, never while it is
//! merely held and never on release.

use vstd::prelude::*;

verus! {

/// The key code the quit action is bound to by default: the letter Q.
pub const KEY_Q: u32 = 81;

/// A logical action the lifecycle consumes.
#[derive(Clone, Copy, Debug, PartialEq, Eq, Structural)]
pub enum ActionId {
    /// Request termination of the application.
    Quit,
}

/// A static mapping from one logical action to one physical key, fixed at
/// startup.
#[derive(Clone, Copy, Debug, PartialEq, Eq, Structural)]
pub struct ActionBinding {
    /// The logical action.
    pub action: ActionId,
    /// The key code of the physical trigger.
    pub key: u32,
}

/// An action is just pressed exactly on the edge: its key is down now and
/// was not down on the previous tick.
pub open spec fn spec_just_pressed(prev_down: bool, down_now: bool) -> bool {
    down_now && !prev_down
}

impl ActionBinding {
    /// Bind an action to a key.
    pub fn new(action: ActionId, key: u32) -> (r: ActionBinding)
        ensures
            r.action == action,
            r.key == key,
    {
        ActionBinding { action, key }
    }

    /// Whether the bound key is among the keys currently held down.
    pub open spec fn spec_down(self, keys_down: Seq<u32>) -> bool {
        keys_down.contains(self.key)
    }

    /// Whether the bound key is among the keys currently held down.
    pub fn is_down(&self, keys_down: &Vec<u32>) -> (r: bool)
        ensures
            r == self.spec_down(keys_down@),
    {
        let mut i: usize = 0;
        while i < keys_down.len()
            invariant
                i <= keys_down.len(),
                forall|j: int| 0 <= j < i ==> keys_down@[j] != self.key,
            decreases keys_down.len() - i,
        {
            if keys_down[i] == self.key {
                return true;
            }
            i = i + 1;
        }
        false
    }
}

/// The key state the edge detector saw just before tick `i` of `downs`,
/// where `downs[i]` says whether the key is down on tick `i` and `prev0`
/// whether it was down before the first tick.
pub open spec fn down_before(prev0: bool, downs: Seq<bool>, i: int) -> bool
    recommends
        0 <= i < downs.len(),
{
    if i == 0 {
        prev0
    } else {
        downs[i - 1]
    }
}

/// On how many of the ticks of `downs` the action fires as just pressed.
pub open spec fn fire_count(prev0: bool, downs: Seq<bool>) -> nat
    decreases downs.len(),
{
    if downs.len() == 0 {
        0
    } else {
        fire_count(prev0, downs.drop_last()) + (if spec_just_pressed(
            down_before(prev0, downs, downs.len() - 1),
            downs.last(),
        ) {
            1nat
        } else {
            0nat
        })
    }
}

/// A key that is never down never fires.
pub proof fn lemma_no_fire_when_up(prev0: bool, downs: Seq<bool>)
    requires
        forall|i: int| 0 <= i < downs.len() ==> !downs[i],
    ensures
        fire_count(prev0, downs) == 0,
    decreases downs.len(),
{
    if downs.len() > 0 {
        lemma_no_fire_when_up(prev0, downs.drop_last());
    }
}

/// One press-release cycle fires exactly once. Over a run of ticks where the
/// key starts released, is held down precisely on the ticks `p..q`, and is
/// released again afterwards, the action is just pressed on exactly one
/// tick — the first tick of the hold — however long the key is held.
pub proof fn lemma_one_fire_per_cycle(prev0: bool, downs: Seq<bool>, p: int, q: int)
    requires
        !prev0,
        0 <= p < q <= downs.len(),
        forall|i: int| 0 <= i < downs.len() ==> downs[i] == (p <= i < q),
    ensures
        fire_count(prev0, downs) == 1,
    decreases downs.len(),
{
    let n = downs.len() as int;
    let head = downs.drop_last();
    if q < n {
        // The last tick is after the release: the key is up, so it adds no
        // fire, and the whole cycle lies in the prefix.
        lemma_one_fire_per_cycle(prev0, head, p, q);
    } else if p < n - 1 {
        // The last tick is a held tick with the key already down on the tick
        // before it: no edge, and the prefix still holds a full cycle.
        lemma_one_fire_per_cycle(prev0, head, p, q - 1);
    } else {
        // The last tick is the press itself: it fires, and before it the key
        // was never down.
        assert(forall|i: int| 0 <= i < head.len() ==> !head[i]);
        lemma_no_fire_when_up(prev0, head);
    }
}

} // verus!

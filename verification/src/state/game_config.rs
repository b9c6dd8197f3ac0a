use vstd::prelude::*;
use crate::address::Address;

verus! {

/// The one global configuration, and the counter of pulls created so far.
#[derive(Debug, Clone, Copy, PartialEq, Eq)]
pub struct GameConfig {
    /// Who may create, verify and reveal pulls.
    pub authority: Address,
    pub purchase_mint: Address,
    pub reward_mint: Address,
    /// Holder of the purchase proceeds.
    pub game_vault: Address,
    /// The fixed, public price of a pull.
    pub pull_price: u64,
    /// The id of the pull created last; 0 before the first.
    pub last_pull_id: u64,
}

impl GameConfig {
    /// A configuration is well formed when its price is positive.
    pub open spec fn wf(&self) -> bool {
        self.pull_price > 0
    }

    /// Whether `pull_id` is the next id in sequence.
    pub open spec fn accepts(&self, pull_id: u64) -> bool {
        pull_id == self.last_pull_id + 1
    }

    /// The configuration after the creation of the pull `pull_id`.
    pub open spec fn advanced(self, pull_id: u64) -> GameConfig {
        GameConfig { last_pull_id: pull_id, ..self }
    }

    /// The configuration after a request to create `pull_id`: advanced where
    /// the id is the next in sequence, untouched where it is not.
    pub open spec fn after_request(self, pull_id: u64) -> GameConfig {
        if self.accepts(pull_id) {
            self.advanced(pull_id)
        } else {
            self
        }
    }

    /// Whether `pull_id` is the next id in sequence.
    pub fn is_next_pull_id(&self, pull_id: u64) -> (next: bool)
        ensures
            next == self.accepts(pull_id),
    {
        match self.last_pull_id.checked_add(1) {
            Some(expected) => expected == pull_id,
            None => false,
        }
    }
}

/// The configuration after a sequence of creation requests, each taken in
/// its turn.
pub open spec fn after_requests(config: GameConfig, pull_ids: Seq<u64>) -> GameConfig
    decreases pull_ids.len(),
{
    if pull_ids.len() == 0 {
        config
    } else {
        after_requests(config, pull_ids.drop_last()).after_request(pull_ids.last())
    }
}

/// How many requests of a sequence create a pull.
pub open spec fn creations(config: GameConfig, pull_ids: Seq<u64>) -> nat
    decreases pull_ids.len(),
{
    if pull_ids.len() == 0 {
        0
    } else if after_requests(config, pull_ids.drop_last()).accepts(pull_ids.last()) {
        creations(config, pull_ids.drop_last()) + 1
    } else {
        creations(config, pull_ids.drop_last())
    }
}

/// The counter counts the creations: after any sequence of requests it has
/// grown by the number of pulls that were created, and nothing else of the
/// configuration has changed. From a fresh configuration, whose counter is 0,
/// it is N after N creations.
pub proof fn lemma_counter_counts_creations(config: GameConfig, pull_ids: Seq<u64>)
    ensures
        after_requests(config, pull_ids).last_pull_id == config.last_pull_id + creations(
            config,
            pull_ids,
        ),
        after_requests(config, pull_ids) == config.advanced(
            after_requests(config, pull_ids).last_pull_id,
        ),
    decreases pull_ids.len(),
{
    if pull_ids.len() > 0 {
        lemma_counter_counts_creations(config, pull_ids.drop_last());
    }
}

/// A sequence of requests creates a pull at every turn exactly when it asks
/// for the ids that follow the counter, one after the other.
pub proof fn lemma_all_created_iff_in_sequence(config: GameConfig, pull_ids: Seq<u64>)
    ensures
        creations(config, pull_ids) == pull_ids.len() <==> (forall|i: int|
            0 <= i < pull_ids.len() ==> #[trigger] pull_ids[i] == config.last_pull_id + i + 1),
        creations(config, pull_ids) <= pull_ids.len(),
    decreases pull_ids.len(),
{
    if pull_ids.len() > 0 {
        let front = pull_ids.drop_last();
        lemma_all_created_iff_in_sequence(config, front);
        lemma_counter_counts_creations(config, front);
        if creations(config, pull_ids) == pull_ids.len() {
            assert(creations(config, front) == front.len());
            assert forall|i: int| 0 <= i < pull_ids.len() implies #[trigger] pull_ids[i]
                == config.last_pull_id + i + 1 by {
                if i < front.len() {
                    assert(front[i] == pull_ids[i]);
                }
            }
        }
        if forall|i: int|
            0 <= i < pull_ids.len() ==> #[trigger] pull_ids[i] == config.last_pull_id + i + 1 {
            assert forall|i: int| 0 <= i < front.len() implies #[trigger] front[i]
                == config.last_pull_id + i + 1 by {
                assert(front[i] == pull_ids[i]);
            }
            assert(pull_ids.last() == pull_ids[pull_ids.len() - 1]);
        }
    }
}

} // verus!

//! Order decision: ranks the requested character ids by current agility,
//! highest first.  Ids that no roster member carries are dropped.

use vstd::prelude::*;
use vstd::seq_lib::group_to_multiset_ensures;
use crate::battle::{
    battle_has_character, find_enemy_position, find_player_position, spec_agility_of,
};
use crate::types::battle::{Battle, BattleCharacterId};

verus! {

/// The ids to rank.
pub struct BattleDecideOrderRequest {
    pub character_ids: Vec<BattleCharacterId>,
}

/// The requested ids that some roster member carries, in request order.
pub open spec fn spec_found_ids(b: Battle, ids: Seq<u32>) -> Seq<u32>
    decreases ids.len(),
{
    if ids.len() == 0 {
        Seq::empty()
    } else {
        let front = spec_found_ids(b, ids.drop_last());
        if battle_has_character(b, ids.last()) {
            front.push(ids.last())
        } else {
            front
        }
    }
}

/// Looks a character id up and hands its agility back; `None` when no
/// roster member carries the id.
fn lookup_agility(battle: &Battle, id: u32) -> (r: Option<u32>)
    ensures
        r matches Some(a) ==> battle_has_character(*battle, id) && a == spec_agility_of(
            *battle,
            id,
        ),
        r is None ==> !battle_has_character(*battle, id),
{
    if let Some(i) = find_player_position(&battle.players, id) {
        proof {
            crate::battle::lemma_first_player_index(battle.players@, id);
        }
        Some(battle.players[i].base.current_ability.agility)
    } else if let Some(i) = find_enemy_position(&battle.enemies, id) {
        proof {
            crate::battle::lemma_first_enemy_index(battle.enemies@, id);
        }
        Some(battle.enemies[i].base.current_ability.agility)
    } else {
        None
    }
}

/// Ranks the requested ids by the carrying combatant's current agility,
/// highest first.  Ids not found in either roster are silently dropped;
/// the order of ids with equal agility is left open.
pub fn decide_order(battle: &Battle, request: BattleDecideOrderRequest) -> (r: Vec<u32>)
    ensures
        r@.to_multiset() == spec_found_ids(*battle, request.character_ids@).to_multiset(),
        forall|i: int, j: int|
            0 <= i < j < r@.len() ==> spec_agility_of(*battle, #[trigger] r@[i])
                >= spec_agility_of(*battle, #[trigger] r@[j]),
{
    let ids = request.character_ids;
    let n = ids.len();
    let mut pool: Vec<u32> = Vec::new();
    let mut i: usize = 0;
    while i < n
        invariant
            i <= n,
            n == ids@.len(),
            pool@ == spec_found_ids(*battle, ids@.subrange(0, i as int)),
        decreases n - i,
    {
        proof {
            assert(ids@.subrange(0, i + 1).drop_last() =~= ids@.subrange(0, i as int));
            assert(ids@.subrange(0, i + 1).last() == ids@[i as int]);
        }
        if lookup_agility(battle, ids[i]).is_some() {
            pool.push(ids[i]);
        }
        i += 1;
    }
    proof {
        assert(ids@.subrange(0, n as int) =~= ids@);
        broadcast use group_to_multiset_ensures;

    }
    let ghost gathered = spec_found_ids(*battle, ids@);

    // Extract the id of highest agility repeatedly.
    let mut out: Vec<u32> = Vec::new();
    while pool.len() > 0
        invariant
            out@.to_multiset().add(pool@.to_multiset()) == gathered.to_multiset(),
            forall|i: int, j: int|
                0 <= i < j < out@.len() ==> spec_agility_of(*battle, #[trigger] out@[i])
                    >= spec_agility_of(*battle, #[trigger] out@[j]),
            forall|i: int, j: int|
                0 <= i < out@.len() && 0 <= j < pool@.len() ==> spec_agility_of(
                    *battle,
                    #[trigger] out@[i],
                ) >= spec_agility_of(*battle, #[trigger] pool@[j]),
        decreases pool.len(),
    {
        let m = pool.len();
        let mut best: usize = 0;
        let mut best_agility: u32 = match lookup_agility(battle, pool[0]) {
            Some(a) => a,
            None => 0,
        };
        let mut k: usize = 1;
        while k < m
            invariant
                1 <= k <= m,
                m == pool@.len(),
                best < k,
                best_agility == spec_agility_of(*battle, pool@[best as int]),
                forall|j: int|
                    0 <= j < k ==> best_agility >= spec_agility_of(*battle, #[trigger] pool@[j]),
            decreases m - k,
        {
            let a = match lookup_agility(battle, pool[k]) {
                Some(a) => a,
                None => 0,
            };
            if a > best_agility {
                best = k;
                best_agility = a;
            }
            k += 1;
        }
        let ghost pool_before = pool@;
        let chosen = pool.remove(best);
        out.push(chosen);
        proof {
            broadcast use group_to_multiset_ensures;

            assert(pool_before.remove(best as int).to_multiset() =~= pool_before.to_multiset()
                .remove(chosen));
            assert(out@.to_multiset().add(pool@.to_multiset()) =~= gathered.to_multiset());
            assert(forall|j: int|
                0 <= j < pool@.len() ==> spec_agility_of(*battle, chosen) >= spec_agility_of(
                    *battle,
                    #[trigger] pool@[j],
                ));
        }
    }
    out
}

} // verus!

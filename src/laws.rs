use vstd::prelude::*;

use crate::errors::SurfError;
use crate::fixed_point::{interest_per_unit_of, rebalanced, user_interest_of};
use crate::key::AccountKey;
use crate::hedge_position::{HedgePosition, BORROW_POSITIONS_CAPACITY};
use crate::hedge_sync::{
    borrow_interest_synced, collateral_interest_synced, hedge_epochs_synced, hedge_step,
    hedge_synced, slot_step, slots_synced,
};
use crate::sync::{liquidity_synced, market_step, market_synced};
use crate::user_position::UserPosition;
use crate::vault_state::VaultState;
use crate::whirlpool_position::WhirlpoolPosition;
use crate::wide::{q128, q64};

verus! {

/// Sum of a sequence of amounts.
pub open spec fn sum_of(s: Seq<int>) -> int
    decreases s.len(),
{
    if s.len() == 0 {
        0
    } else {
        sum_of(s.drop_last()) + s.last()
    }
}

/// Sum of what each holder in `s` holds after a pool of `before` moved by `diff`.
pub open spec fn sum_rebalanced(s: Seq<int>, before: int, diff: int) -> int
    decreases s.len(),
{
    if s.len() == 0 {
        0
    } else {
        sum_rebalanced(s.drop_last(), before, diff) + rebalanced(s.last(), before, diff)
    }
}

proof fn lemma_rebalanced_bounds(u: int, before: int, diff: int)
    requires
        u >= 0,
        before > 0,
        before + diff >= 0,
    ensures
        rebalanced(u, before, diff) * before <= u * (before + diff),
        rebalanced(u, before, diff) * before + (before - 1) >= u * (before + diff),
{
    if diff != 0 {
        let x = u * (before + diff);
        let q = x / before;
        vstd::arithmetic::div_mod::lemma_fundamental_div_mod(x, before);
        assert(q * before <= x && x < q * before + before) by (nonlinear_arith)
            requires
                x == before * q + x % before,
                0 <= x % before < before,
        ;
    } else {
        assert(u * (before + diff) == u * before);
    }
}

proof fn lemma_sum_rebalanced_bounds(s: Seq<int>, before: int, diff: int)
    requires
        forall|i: int| 0 <= i < s.len() ==> s[i] >= 0,
        before > 0,
        before + diff >= 0,
    ensures
        sum_rebalanced(s, before, diff) * before <= sum_of(s) * (before + diff),
        sum_rebalanced(s, before, diff) * before + s.len() * (before - 1) >= sum_of(s) * (before
            + diff),
    decreases s.len(),
{
    if s.len() > 0 {
        let init = s.drop_last();
        lemma_sum_rebalanced_bounds(init, before, diff);
        lemma_rebalanced_bounds(s.last(), before, diff);
        let a = sum_rebalanced(init, before, diff);
        let b = sum_of(init);
        let r = rebalanced(s.last(), before, diff);
        let u = s.last();
        let n = init.len();
        assert((a + r) * before <= (b + u) * (before + diff)) by (nonlinear_arith)
            requires
                a * before <= b * (before + diff),
                r * before <= u * (before + diff),
        ;
        assert((a + r) * before + (n + 1) * (before - 1) >= (b + u) * (before + diff))
            by (nonlinear_arith)
            requires
                a * before + n * (before - 1) >= b * (before + diff),
                r * before + (before - 1) >= u * (before + diff),
        ;
    }
}

/// Conservation: when an epoch closes with a liquidity diff, the participants who together
/// held the epoch's liquidity are left, after each is synced, with at most the vault's
/// new liquidity and by less than one unit each below it. So the diffs applied to them add
/// up to the vault's diff, rounded down by at most one unit per participant.
pub proof fn lemma_rebalance_conserves_liquidity(liquidities: Seq<int>, before: int, diff: int)
    requires
        forall|i: int| 0 <= i < liquidities.len() ==> liquidities[i] >= 0,
        sum_of(liquidities) == before,
        before > 0,
        before + diff >= 0,
    ensures
        sum_rebalanced(liquidities, before, diff) <= before + diff,
        sum_rebalanced(liquidities, before, diff) > before + diff - liquidities.len(),
{
    lemma_sum_rebalanced_bounds(liquidities, before, diff);
    let s = sum_rebalanced(liquidities, before, diff);
    let n = liquidities.len() as int;
    let after = before + diff;
    assert(s <= after) by (nonlinear_arith)
        requires
            s * before <= before * after,
            before > 0,
    ;
    if n == 0 {
        assert(sum_of(liquidities) == 0);
    }
    assert(s > after - n) by (nonlinear_arith)
        requires
            s * before + n * (before - 1) >= before * after,
            before > 0,
            n >= 1,
    ;
}

/// Fixed-point round trip: the interest owed to a `principal` out of `global_principal`
/// that earned `interest`, computed through the Q64.64 growth per unit, is the exact
/// pro-rata share `principal * interest / global_principal` rounded down, or one unit less;
/// it is exact when the growth per unit is exact.
pub proof fn lemma_interest_round_trip(principal: u64, global_principal: u64, interest: u64)
    requires
        0 < global_principal,
        interest <= global_principal,
    ensures
        principal * interest_per_unit_of(global_principal as int, interest as int) < q128(),
        user_interest_of(principal as int, interest_per_unit_of(global_principal as int, interest as int))
            <= principal * interest / (global_principal as int),
        user_interest_of(principal as int, interest_per_unit_of(global_principal as int, interest as int))
            + 1 >= principal * interest / (global_principal as int),
        (interest * q64()) % (global_principal as int) == 0 ==> user_interest_of(
            principal as int,
            interest_per_unit_of(global_principal as int, interest as int),
        ) == principal * interest / (global_principal as int),
{
    let p = principal as int;
    let g = global_principal as int;
    let i = interest as int;
    let x = i * q64();
    let per = x / g;
    let pr = x % g;
    vstd::arithmetic::div_mod::lemma_fundamental_div_mod(x, g);
    assert(per <= q64()) by (nonlinear_arith)
        requires
            x == g * per + pr,
            0 <= pr < g,
            x == i * q64(),
            0 <= i <= g,
    ;
    assert(p * per < q128()) by (nonlinear_arith)
        requires
            0 <= p < q64(),
            0 <= per <= q64(),
    ;
    let y = p * per;
    let user = y / q64();
    let ur = y % q64();
    vstd::arithmetic::div_mod::lemma_fundamental_div_mod(y, q64());
    let t = p * i / g;
    let tr = (p * i) % g;
    vstd::arithmetic::div_mod::lemma_fundamental_div_mod(p * i, g);
    assert(user * g <= p * i) by (nonlinear_arith)
        requires
            y == q64() * user + ur,
            0 <= ur,
            y == p * per,
            x == g * per + pr,
            0 <= pr,
            x == i * q64(),
            p >= 0,
            g > 0,
    ;
    assert(user <= t) by (nonlinear_arith)
        requires
            user * g <= p * i,
            p * i == g * t + tr,
            0 <= tr < g,
            g > 0,
    ;
    assert(user * g * q64() > p * i * q64() - p * g - q64() * g) by (nonlinear_arith)
        requires
            y == q64() * user + ur,
            ur < q64(),
            y == p * per,
            x == g * per + pr,
            pr < g,
            x == i * q64(),
            p >= 0,
            g > 0,
    ;
    assert(user + 1 >= t) by (nonlinear_arith)
        requires
            user * g * q64() > p * i * q64() - p * g - q64() * g,
            p * i == g * t + tr,
            0 <= tr < g,
            0 <= p < q64(),
            g > 0,
    ;
    if pr == 0 {
        assert(user == t) by (nonlinear_arith)
            requires
                y == q64() * user + ur,
                0 <= ur < q64(),
                y == p * per,
                x == g * per,
                x == i * q64(),
                p * i == g * t + tr,
                0 <= tr < g,
                g > 0,
                p >= 0,
        ;
    }
}

/// Monotonic cursors: a market walk never moves the participant's cursor back, and a
/// cursor that starts at or before the vault's current epoch stays there or before.
pub proof fn lemma_market_cursor_monotonic(
    u: UserPosition,
    vault: VaultState,
    vault_key: AccountKey,
    epochs: Seq<WhirlpoolPosition>,
)
    requires
        vault.wf(),
    ensures
        market_synced(u, vault, vault_key, epochs) is Ok ==> {
            let v = market_synced(u, vault, vault_key, epochs)->Ok_0;
            &&& u.whirlpool_position_id <= v.whirlpool_position_id
            &&& (vault.current_whirlpool_position_id is Some && u.whirlpool_position_id
                <= vault.current_whirlpool_position_id->Some_0) ==> v.whirlpool_position_id
                <= vault.current_whirlpool_position_id->Some_0
        },
    decreases epochs.len(),
{
    if epochs.len() > 0 {
        lemma_market_cursor_monotonic(u, vault, vault_key, epochs.drop_last());
    }
}

/// Idempotent current-epoch sync: syncing again against the vault's still-open current
/// epoch, with no rebalance in between, changes nothing.
pub proof fn lemma_current_epoch_sync_idempotent(
    u: UserPosition,
    vault: VaultState,
    vault_key: AccountKey,
    epoch: WhirlpoolPosition,
)
    requires
        vault.current_whirlpool_position_id == Some(epoch.id),
        market_synced(u, vault, vault_key, seq![epoch]) is Ok,
    ensures
        market_synced(
            market_synced(u, vault, vault_key, seq![epoch])->Ok_0,
            vault,
            vault_key,
            seq![epoch],
        ) == market_synced(u, vault, vault_key, seq![epoch]),
{
    let s = seq![epoch];
    assert(s.len() == 1);
    assert(s.drop_last() =~= Seq::<WhirlpoolPosition>::empty());
    assert(s.last() == epoch);
    assert(market_synced(u, vault, vault_key, s.drop_last()) == Ok::<UserPosition, SurfError>(u));
    let v = market_synced(u, vault, vault_key, s)->Ok_0;
    assert(market_step(u, vault, vault_key, epoch, u.whirlpool_position_id as int) == Ok::<UserPosition, SurfError>(v));
    assert(market_synced(v, vault, vault_key, s.drop_last()) == Ok::<UserPosition, SurfError>(v));
    assert(market_synced(v, vault, vault_key, s) == market_step(v, vault, vault_key, epoch, v.whirlpool_position_id as int));
    assert(v.whirlpool_position_id == u.whirlpool_position_id);
    assert(0 * v.liquidity == 0);
    assert(market_step(v, vault, vault_key, epoch, v.whirlpool_position_id as int) == Ok::<UserPosition, SurfError>(v));
}

proof fn lemma_slots_cursor_monotonic(u: UserPosition, h: HedgePosition, epoch_is_current: bool, fuel: nat)
    requires
        h.wf(),
    ensures
        slots_synced(u, h, epoch_is_current, fuel) is Ok ==> {
            let v = slots_synced(u, h, epoch_is_current, fuel)->Ok_0;
            &&& v.hedge_position_id == u.hedge_position_id
            &&& v.borrow_position_index >= u.borrow_position_index
        },
    decreases fuel,
{
    if fuel > 0 && u.borrow_position_index <= h.current_borrow_position_index {
        let at_current = epoch_is_current && u.borrow_position_index
            == h.current_borrow_position_index;
        let step = slot_step(u, h.borrow_positions@[u.borrow_position_index as int], at_current);
        if step is Ok && !at_current {
            lemma_slots_cursor_monotonic(step->Ok_0, h, epoch_is_current, (fuel - 1) as nat);
        }
    }
}

/// Monotonic cursors: a hedge walk never moves the participant's (epoch, slot) cursor
/// back, and an epoch cursor that starts at or before the vault's current hedge epoch
/// stays there or before.
pub proof fn lemma_hedge_cursor_monotonic(
    u: UserPosition,
    vault: VaultState,
    vault_key: AccountKey,
    epochs: Seq<HedgePosition>,
)
    ensures
        hedge_epochs_synced(u, vault, vault_key, epochs) is Ok ==> {
            let v = hedge_epochs_synced(u, vault, vault_key, epochs)->Ok_0;
            &&& (u.hedge_position_id < v.hedge_position_id || (u.hedge_position_id
                == v.hedge_position_id && u.borrow_position_index <= v.borrow_position_index))
            &&& (vault.current_hedge_position_id is Some && u.hedge_position_id
                <= vault.current_hedge_position_id->Some_0) ==> v.hedge_position_id
                <= vault.current_hedge_position_id->Some_0
        },
    decreases epochs.len(),
{
    if epochs.len() > 0 {
        lemma_hedge_cursor_monotonic(u, vault, vault_key, epochs.drop_last());
        let prev = hedge_epochs_synced(u, vault, vault_key, epochs.drop_last());
        if prev is Ok {
            let w = prev->Ok_0;
            let h = epochs.last();
            let is_current = vault.current_hedge_position_id == Some(h.id);
            if h.wf() {
                lemma_slots_cursor_monotonic(w, h, is_current, BORROW_POSITIONS_CAPACITY as nat);
            }
        }
    }
}

proof fn lemma_slots_reach_current(u: UserPosition, h: HedgePosition, fuel: nat)
    requires
        h.wf(),
        u.borrow_position_index <= h.current_borrow_position_index,
        fuel + u.borrow_position_index >= h.current_borrow_position_index + 1,
    ensures
        slots_synced(u, h, true, fuel) is Ok ==> {
            let v = slots_synced(u, h, true, fuel)->Ok_0;
            &&& v.borrow_position_index == h.current_borrow_position_index
            &&& v.borrow_interest_growth_checkpoint == h.current().borrow_interest_growth
        },
    decreases fuel,
{
    let at_current = u.borrow_position_index == h.current_borrow_position_index;
    let step = slot_step(u, h.borrow_positions@[u.borrow_position_index as int], at_current);
    if step is Ok && !at_current {
        lemma_slots_reach_current(step->Ok_0, h, (fuel - 1) as nat);
    }
}

/// Idempotent current-epoch sync, for the hedge walk: syncing again against the vault's
/// current hedge epoch, with no adjustment or interest refresh in between, changes nothing.
pub proof fn lemma_current_hedge_epoch_sync_idempotent(
    u: UserPosition,
    vault: VaultState,
    vault_key: AccountKey,
    epoch: HedgePosition,
)
    requires
        vault.current_hedge_position_id == Some(epoch.id),
        hedge_synced(u, vault, vault_key, seq![epoch]) is Ok,
    ensures
        hedge_synced(
            hedge_synced(u, vault, vault_key, seq![epoch])->Ok_0,
            vault,
            vault_key,
            seq![epoch],
        ) == hedge_synced(u, vault, vault_key, seq![epoch]),
{
    let s = seq![epoch];
    assert(s.len() == 1);
    assert(s.drop_last() =~= Seq::<HedgePosition>::empty());
    assert(s.last() == epoch);
    assert(hedge_epochs_synced(u, vault, vault_key, s.drop_last()) == Ok::<UserPosition, SurfError>(u));
    let w = hedge_epochs_synced(u, vault, vault_key, s)->Ok_0;
    assert(hedge_step(u, vault, vault_key, epoch, u.hedge_position_id as int) == Ok::<UserPosition, SurfError>(w));
    let slots = slots_synced(u, epoch, true, BORROW_POSITIONS_CAPACITY as nat);
    assert(slots == Ok::<UserPosition, SurfError>(w));
    lemma_slots_reach_current(u, epoch, BORROW_POSITIONS_CAPACITY as nat);
    lemma_slots_cursor_monotonic(u, epoch, true, BORROW_POSITIONS_CAPACITY as nat);
    let v = collateral_interest_synced(w, vault)->Ok_0;
    assert(hedge_epochs_synced(v, vault, vault_key, s.drop_last()) == Ok::<UserPosition, SurfError>(v));
    let slot = epoch.current();
    assert(v.borrow_amount * 0 == 0);
    assert(user_interest_of(v.borrow_amount as int, 0) == 0);
    assert(borrow_interest_synced(v, slot) == Ok::<UserPosition, SurfError>(v));
    assert(slot_step(v, slot, true) == Ok::<UserPosition, SurfError>(v));
    assert(slots_synced(v, epoch, true, BORROW_POSITIONS_CAPACITY as nat) == Ok::<UserPosition, SurfError>(v));
    assert(v.hedge_position_id == u.hedge_position_id);
    assert(hedge_step(v, vault, vault_key, epoch, v.hedge_position_id as int) == Ok::<UserPosition, SurfError>(v));
    assert(hedge_epochs_synced(v, vault, vault_key, s) == Ok::<UserPosition, SurfError>(v));
    assert(v.collateral_amount * 0 == 0);
    assert(user_interest_of(v.collateral_amount as int, 0) == 0);
    assert(collateral_interest_synced(v, vault) == Ok::<UserPosition, SurfError>(v));
}

/// Sum of the participants' liquidity.
pub open spec fn sum_liquidity(users: Seq<UserPosition>) -> int
    decreases users.len(),
{
    if users.len() == 0 {
        0
    } else {
        sum_liquidity(users.drop_last()) + users.last().liquidity
    }
}

/// Sum of the liquidity changes that syncing each participant past epoch `e` applies.
pub open spec fn sum_applied_diffs(users: Seq<UserPosition>, e: WhirlpoolPosition) -> int
    decreases users.len(),
{
    if users.len() == 0 {
        0
    } else {
        sum_applied_diffs(users.drop_last(), e) + (liquidity_synced(users.last(), e)->Ok_0.liquidity
            - users.last().liquidity)
    }
}

proof fn lemma_applied_diffs_bounds(users: Seq<UserPosition>, e: WhirlpoolPosition)
    requires
        e.liquidity > 0,
        e.liquidity + e.liquidity_diff >= 0,
        forall|i: int| 0 <= i < users.len() ==> (#[trigger] liquidity_synced(users[i], e)) is Ok,
    ensures
        (sum_applied_diffs(users, e) + sum_liquidity(users)) * e.liquidity <= sum_liquidity(users)
            * (e.liquidity + e.liquidity_diff),
        (sum_applied_diffs(users, e) + sum_liquidity(users)) * e.liquidity + users.len() * (
        e.liquidity - 1) >= sum_liquidity(users) * (e.liquidity + e.liquidity_diff),
    decreases users.len(),
{
    if users.len() > 0 {
        let init = users.drop_last();
        assert forall|i: int| 0 <= i < init.len() implies (#[trigger] liquidity_synced(init[i], e)) is Ok by {
            assert(init[i] == users[i]);
        }
        lemma_applied_diffs_bounds(init, e);
        let u = users.last();
        assert(liquidity_synced(users[users.len() - 1], e) is Ok);
        lemma_rebalanced_bounds(u.liquidity as int, e.liquidity as int, e.liquidity_diff as int);
        let before = e.liquidity as int;
        let after = before + e.liquidity_diff;
        let a = sum_applied_diffs(init, e) + sum_liquidity(init);
        let b = sum_liquidity(init);
        let r = rebalanced(u.liquidity as int, before, e.liquidity_diff as int);
        assert(liquidity_synced(u, e)->Ok_0.liquidity == r);
        let n = init.len();
        assert((a + r) * before <= (b + u.liquidity) * after) by (nonlinear_arith)
            requires
                a * before <= b * after,
                r * before <= u.liquidity * after,
        ;
        assert((a + r) * before + (n + 1) * (before - 1) >= (b + u.liquidity) * after)
            by (nonlinear_arith)
            requires
                a * before + n * (before - 1) >= b * after,
                r * before + (before - 1) >= u.liquidity * after,
        ;
    } else {
        let after = e.liquidity + e.liquidity_diff;
        assert(0 * (e.liquidity as int) == 0 && 0 * after == 0) by (nonlinear_arith);
    }
}

/// Conservation, over the sync engine's own step: when participants who together hold
/// epoch `e`'s liquidity are each synced past it, the liquidity changes applied to them add
/// up to the epoch's recorded diff, rounded down by less than one unit per participant.
pub proof fn lemma_synced_diffs_conserve_liquidity(users: Seq<UserPosition>, e: WhirlpoolPosition)
    requires
        sum_liquidity(users) == e.liquidity,
        e.liquidity > 0,
        0 <= e.liquidity + e.liquidity_diff <= u128::MAX,
        forall|i: int| 0 <= i < users.len() ==> (#[trigger] liquidity_synced(users[i], e)) is Ok,
    ensures
        e.liquidity_diff - users.len() < sum_applied_diffs(users, e) <= e.liquidity_diff,
{
    lemma_applied_diffs_bounds(users, e);
    let before = e.liquidity as int;
    let after = before + e.liquidity_diff;
    let s = sum_applied_diffs(users, e) + before;
    let n = users.len() as int;
    assert(s <= after) by (nonlinear_arith)
        requires
            s * before <= before * after,
            before > 0,
    ;
    if n == 0 {
        assert(sum_liquidity(users) == 0);
    }
    assert(s > after - n) by (nonlinear_arith)
        requires
            s * before + n * (before - 1) >= before * after,
            before > 0,
            n >= 1,
    ;
}

/// Monotonic cursors, at the slot level: a hedge walk that ends at the vault's current
/// hedge epoch leaves the participant exactly on that epoch's current slot, never past it.
pub proof fn lemma_hedge_walk_stops_at_current_slot(
    u: UserPosition,
    vault: VaultState,
    vault_key: AccountKey,
    epochs: Seq<HedgePosition>,
)
    requires
        epochs.len() > 0,
        vault.current_hedge_position_id == Some(epochs.last().id),
        hedge_epochs_synced(u, vault, vault_key, epochs) is Ok,
    ensures
        hedge_epochs_synced(u, vault, vault_key, epochs)->Ok_0.hedge_position_id == epochs.last().id,
        hedge_epochs_synced(u, vault, vault_key, epochs)->Ok_0.borrow_position_index
            == epochs.last().current_borrow_position_index,
{
    let h = epochs.last();
    let w = hedge_epochs_synced(u, vault, vault_key, epochs.drop_last())->Ok_0;
    lemma_slots_reach_current(w, h, BORROW_POSITIONS_CAPACITY as nat);
    lemma_slots_cursor_monotonic(w, h, true, BORROW_POSITIONS_CAPACITY as nat);
}

} // verus!

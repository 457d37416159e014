//! How the win probability moves with the powers, where one side's rolls
//! clear the other's entirely.
use vstd::prelude::*;

use crate::odds::{
    block_losses, block_wins, loss_count, rolls_losses, rolls_wins, row_losses, row_wins, win_count,
};

verus! {

proof fn lemma_rolls_wins_grow(defense_upper: int, n: int, m: int)
    requires
        0 <= defense_upper,
        0 <= n <= m,
    ensures
        rolls_wins(defense_upper, n) <= rolls_wins(defense_upper, m),
    decreases m,
{
    if m > n {
        lemma_rolls_wins_grow(defense_upper, n, m - 1);
    }
}

proof fn lemma_rolls_losses_settle(defense_upper: int, n: int)
    requires
        0 <= defense_upper <= n,
    ensures
        rolls_losses(defense_upper, n) == rolls_losses(defense_upper, defense_upper),
    decreases n,
{
    if n > defense_upper {
        lemma_rolls_losses_settle(defense_upper, n - 1);
    }
}

proof fn lemma_rolls_defense(low: int, high: int, n: int)
    requires
        0 <= n <= low <= high,
    ensures
        rolls_wins(low, n) == rolls_wins(high, n),
        rolls_losses(low, n) <= rolls_losses(high, n),
    decreases n,
{
    if n > 0 {
        lemma_rolls_defense(low, high, n - 1);
    }
}

proof fn lemma_row_attack(low: int, high: int, defense_low: int, n: int)
    requires
        0 <= defense_low,
        defense_low + n - 1 <= low <= high,
        0 <= n,
    ensures
        row_wins(low, defense_low, n) <= row_wins(high, defense_low, n),
        row_losses(low, defense_low, n) == row_losses(high, defense_low, n),
    decreases n,
{
    if n > 0 {
        lemma_row_attack(low, high, defense_low, n - 1);
        let du = defense_low + n - 1;
        lemma_rolls_wins_grow(du, low + 1, high + 1);
        lemma_rolls_losses_settle(du, low + 1);
        lemma_rolls_losses_settle(du, high + 1);
    }
}

proof fn lemma_row_defense(attack_upper: int, low: int, high: int, n: int)
    requires
        0 <= attack_upper < low <= high,
        0 <= n,
    ensures
        row_wins(attack_upper, low, n) == row_wins(attack_upper, high, n),
        row_losses(attack_upper, low, n) <= row_losses(attack_upper, high, n),
    decreases n,
{
    if n > 0 {
        lemma_row_defense(attack_upper, low, high, n - 1);
        lemma_rolls_defense(low + n - 1, high + n - 1, attack_upper + 1);
    }
}

proof fn lemma_block_attack(low: int, high: int, defense_low: int, n: int)
    requires
        0 <= defense_low,
        defense_low + 15 <= low <= high,
        0 <= n,
    ensures
        block_wins(low, defense_low, n) <= block_wins(high, defense_low, n),
        block_losses(low, defense_low, n) == block_losses(high, defense_low, n),
    decreases n,
{
    if n > 0 {
        lemma_block_attack(low, high, defense_low, n - 1);
        lemma_row_attack(low + n - 1, high + n - 1, defense_low, 16);
    }
}

proof fn lemma_block_defense(attack_low: int, low: int, high: int, n: int)
    requires
        0 <= attack_low,
        attack_low + n - 1 < low <= high,
        0 <= n,
    ensures
        block_wins(attack_low, low, n) == block_wins(attack_low, high, n),
        block_losses(attack_low, low, n) <= block_losses(attack_low, high, n),
    decreases n,
{
    if n > 0 {
        lemma_block_defense(attack_low, low, high, n - 1);
        lemma_row_defense(attack_low + n - 1, low, high, 16);
    }
}

/// Against a defense power `d` below both attack powers, the stronger
/// attack `a2` wins with at least the probability of the weaker `a1`:
/// `wins(a1) / total(a1) <= wins(a2) / total(a2)`, written without division.
pub proof fn lemma_attack_monotone_above(a1: int, a2: int, d: int)
    requires
        0 <= d < a1 <= a2 <= 15,
    ensures
        win_count(a1, d) * (win_count(a2, d) + loss_count(a2, d)) <= win_count(a2, d) * (win_count(
            a1,
            d,
        ) + loss_count(a1, d)),
{
    lemma_block_attack(16 * a1, 16 * a2, 16 * d, 16);
    crate::odds::lemma_odds_defined(a1, d);
    let w1 = win_count(a1, d);
    let w2 = win_count(a2, d);
    let l = loss_count(a1, d);
    assert(w1 * (w2 + l) <= w2 * (w1 + l)) by (nonlinear_arith)
        requires
            0 <= w1 <= w2,
            0 <= l,
    ;
}

/// Against an attack power `a` below both defense powers, the stronger
/// defense `d2` leaves the attacker at most the win probability that the
/// weaker `d1` leaves: `wins(d2) / total(d2) <= wins(d1) / total(d1)`,
/// written without division.
pub proof fn lemma_defense_monotone_below(a: int, d1: int, d2: int)
    requires
        0 <= a < d1 <= d2 <= 15,
    ensures
        win_count(a, d2) * (win_count(a, d1) + loss_count(a, d1)) <= win_count(a, d1) * (win_count(
            a,
            d2,
        ) + loss_count(a, d2)),
{
    lemma_block_defense(16 * a, 16 * d1, 16 * d2, 16);
    crate::odds::lemma_odds_defined(a, d1);
    let w = win_count(a, d1);
    let l1 = loss_count(a, d1);
    let l2 = loss_count(a, d2);
    assert(w * (w + l1) <= w * (w + l2)) by (nonlinear_arith)
        requires
            0 <= w,
            0 <= l1 <= l2,
    ;
}

} // verus!

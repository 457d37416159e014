//! Exact win odds of one attack power against one defense power.
//!
//! Each side rolls an upper bound out of sixteen consecutive values fixed by
//! its power; the attacker then rolls every value from zero through its upper
//! bound. Every such outcome adds an integer weight to the wins and to the
//! losses, and the odds are the two totals.
use vstd::prelude::*;

verus! {

/// Win weight of one attack roll against a defense upper bound.
pub open spec fn roll_wins(roll: int, defense_upper: int) -> int {
    if roll < defense_upper {
        roll
    } else {
        defense_upper
    }
}

/// Loss weight of one attack roll against a defense upper bound.
pub open spec fn roll_losses(roll: int, defense_upper: int) -> int {
    if roll < defense_upper {
        defense_upper - roll + 1
    } else {
        0
    }
}

/// Win weight of the attack rolls `0 .. n` against `defense_upper`.
pub open spec fn rolls_wins(defense_upper: int, n: int) -> int
    decreases n,
{
    if n <= 0 {
        0
    } else {
        rolls_wins(defense_upper, n - 1) + roll_wins(n - 1, defense_upper)
    }
}

/// Loss weight of the attack rolls `0 .. n` against `defense_upper`.
pub open spec fn rolls_losses(defense_upper: int, n: int) -> int
    decreases n,
{
    if n <= 0 {
        0
    } else {
        rolls_losses(defense_upper, n - 1) + roll_losses(n - 1, defense_upper)
    }
}

/// Win weight of one attack upper bound against the defense upper bounds
/// `defense_low .. defense_low + n`, each met by the rolls `0 ..= attack_upper`.
pub open spec fn row_wins(attack_upper: int, defense_low: int, n: int) -> int
    decreases n,
{
    if n <= 0 {
        0
    } else {
        row_wins(attack_upper, defense_low, n - 1) + rolls_wins(defense_low + n - 1, attack_upper + 1)
    }
}

/// Loss weight of one attack upper bound against the defense upper bounds
/// `defense_low .. defense_low + n`.
pub open spec fn row_losses(attack_upper: int, defense_low: int, n: int) -> int
    decreases n,
{
    if n <= 0 {
        0
    } else {
        row_losses(attack_upper, defense_low, n - 1) + rolls_losses(defense_low + n - 1, attack_upper + 1)
    }
}

/// Win weight of the attack upper bounds `attack_low .. attack_low + n`
/// against the sixteen defense upper bounds from `defense_low`.
pub open spec fn block_wins(attack_low: int, defense_low: int, n: int) -> int
    decreases n,
{
    if n <= 0 {
        0
    } else {
        block_wins(attack_low, defense_low, n - 1) + row_wins(attack_low + n - 1, defense_low, 16)
    }
}

/// Loss weight of the attack upper bounds `attack_low .. attack_low + n`
/// against the sixteen defense upper bounds from `defense_low`.
pub open spec fn block_losses(attack_low: int, defense_low: int, n: int) -> int
    decreases n,
{
    if n <= 0 {
        0
    } else {
        block_losses(attack_low, defense_low, n - 1) + row_losses(attack_low + n - 1, defense_low, 16)
    }
}

/// Total win weight of attack power `a` against defense power `d`.
pub open spec fn win_count(a: int, d: int) -> int {
    block_wins(16 * a, 16 * d, 16)
}

/// Total loss weight of attack power `a` against defense power `d`.
pub open spec fn loss_count(a: int, d: int) -> int {
    block_losses(16 * a, 16 * d, 16)
}

/// The outcome of an exact enumeration: the probability of a win is
/// `wins / (wins + losses)`.
#[derive(Clone, Copy, Debug, PartialEq, Eq, Structural)]
pub struct WinOdds {
    pub wins: u64,
    pub losses: u64,
}

proof fn lemma_rolls_bounds(defense_upper: int, n: int)
    requires
        0 <= defense_upper <= 255,
        0 <= n,
    ensures
        0 <= rolls_wins(defense_upper, n) <= 256 * n,
        0 <= rolls_losses(defense_upper, n) <= 256 * n,
    decreases n,
{
    if n > 0 {
        lemma_rolls_bounds(defense_upper, n - 1);
    }
}

proof fn lemma_row_bounds(attack_upper: int, defense_low: int, n: int)
    requires
        0 <= attack_upper <= 255,
        0 <= defense_low,
        0 <= n,
        defense_low + n <= 256,
    ensures
        0 <= row_wins(attack_upper, defense_low, n) <= 65536 * n,
        0 <= row_losses(attack_upper, defense_low, n) <= 65536 * n,
    decreases n,
{
    if n > 0 {
        lemma_row_bounds(attack_upper, defense_low, n - 1);
        lemma_rolls_bounds(defense_low + n - 1, attack_upper + 1);
    }
}

proof fn lemma_block_bounds(attack_low: int, defense_low: int, n: int)
    requires
        0 <= attack_low,
        attack_low + n <= 256,
        0 <= defense_low <= 240,
        0 <= n,
    ensures
        0 <= block_wins(attack_low, defense_low, n) <= 1048576 * n,
        0 <= block_losses(attack_low, defense_low, n) <= 1048576 * n,
    decreases n,
{
    if n > 0 {
        lemma_block_bounds(attack_low, defense_low, n - 1);
        lemma_row_bounds(attack_low + n - 1, defense_low, 16);
    }
}

proof fn lemma_rolls_positive(defense_upper: int, n: int)
    requires
        1 <= defense_upper <= 255,
        1 <= n,
    ensures
        rolls_wins(defense_upper, n) + rolls_losses(defense_upper, n) >= 1,
    decreases n,
{
    lemma_rolls_bounds(defense_upper, n);
    if n > 1 {
        lemma_rolls_positive(defense_upper, n - 1);
    } else {
        assert(rolls_losses(defense_upper, 0) == 0);
    }
}

proof fn lemma_row_positive(attack_upper: int, defense_low: int, n: int)
    requires
        0 <= attack_upper <= 255,
        0 <= defense_low,
        2 <= n,
        defense_low + n <= 256,
    ensures
        row_wins(attack_upper, defense_low, n) + row_losses(attack_upper, defense_low, n) >= 1,
    decreases n,
{
    lemma_row_bounds(attack_upper, defense_low, n - 1);
    lemma_rolls_bounds(defense_low + n - 1, attack_upper + 1);
    if n > 2 {
        lemma_row_positive(attack_upper, defense_low, n - 1);
    } else {
        lemma_rolls_positive(defense_low + 1, attack_upper + 1);
    }
}

/// The odds of attack power `a` against defense power `d` are never empty:
/// both weights are non-negative and together positive, so the win
/// probability `wins / (wins + losses)` is defined and lies in `[0, 1]`.
pub proof fn lemma_odds_defined(a: int, d: int)
    requires
        0 <= a <= 15,
        0 <= d <= 15,
    ensures
        0 <= win_count(a, d),
        0 <= loss_count(a, d),
        win_count(a, d) + loss_count(a, d) > 0,
{
    lemma_block_bounds(16 * a, 16 * d, 15);
    lemma_row_bounds(16 * a + 15, 16 * d, 16);
    lemma_row_positive(16 * a + 15, 16 * d, 16);
}

/// Counts the win and loss weight of attack power `a` against defense
/// power `d` over every pair of upper bounds and every attack roll.
pub fn probability_of_win(a: u8, d: u8) -> (r: WinOdds)
    requires
        a <= 15,
        d <= 15,
    ensures
        r.wins == win_count(a as int, d as int),
        r.losses == loss_count(a as int, d as int),
        r.wins + r.losses > 0,
{
    let mut wins: u64 = 0;
    let mut losses: u64 = 0;
    let attack_low: u16 = 16 * a as u16;
    let defense_low: u16 = 16 * d as u16;
    let mut attack_upper: u16 = attack_low;
    while attack_upper < attack_low + 16
        invariant
            attack_low == 16 * a,
            defense_low == 16 * d,
            a <= 15,
            d <= 15,
            attack_low <= attack_upper <= attack_low + 16,
            wins == block_wins(attack_low as int, defense_low as int, attack_upper - attack_low),
            losses == block_losses(attack_low as int, defense_low as int, attack_upper - attack_low),
        decreases attack_low + 16 - attack_upper,
    {
        proof {
            lemma_block_bounds(attack_low as int, defense_low as int, attack_upper - attack_low);
        }
        let mut defense_upper: u16 = defense_low;
        while defense_upper < defense_low + 16
            invariant
                attack_low == 16 * a,
                defense_low == 16 * d,
                a <= 15,
                d <= 15,
                attack_low <= attack_upper < attack_low + 16,
                defense_low <= defense_upper <= defense_low + 16,
                wins == block_wins(attack_low as int, defense_low as int, attack_upper - attack_low)
                    + row_wins(attack_upper as int, defense_low as int, defense_upper - defense_low),
                losses == block_losses(attack_low as int, defense_low as int, attack_upper - attack_low)
                    + row_losses(attack_upper as int, defense_low as int, defense_upper - defense_low),
                block_wins(attack_low as int, defense_low as int, attack_upper - attack_low) <= 1048576 * 16,
                block_losses(attack_low as int, defense_low as int, attack_upper - attack_low) <= 1048576 * 16,
            decreases defense_low + 16 - defense_upper,
        {
            proof {
                lemma_row_bounds(attack_upper as int, defense_low as int, defense_upper - defense_low);
            }
            let ghost wins_before = wins;
            let ghost losses_before = losses;
            let mut attack_roll: u16 = 0;
            while attack_roll <= attack_upper
                invariant
                    attack_upper < 256,
                    defense_upper < 256,
                    attack_roll <= attack_upper + 1,
                    wins == wins_before + rolls_wins(defense_upper as int, attack_roll as int),
                    losses == losses_before + rolls_losses(defense_upper as int, attack_roll as int),
                    wins_before + 65536 <= 1048576 * 17,
                    losses_before + 65536 <= 1048576 * 17,
                decreases attack_upper + 1 - attack_roll,
            {
                proof {
                    lemma_rolls_bounds(defense_upper as int, attack_roll + 1);
                }
                if attack_roll < defense_upper {
                    wins = wins + attack_roll as u64;
                    losses = losses + (defense_upper - attack_roll + 1) as u64;
                } else {
                    wins = wins + defense_upper as u64;
                }
                attack_roll = attack_roll + 1;
            }
            defense_upper = defense_upper + 1;
        }
        attack_upper = attack_upper + 1;
    }
    proof {
        lemma_odds_defined(a as int, d as int);
    }
    WinOdds { wins, losses }
}

} // verus!

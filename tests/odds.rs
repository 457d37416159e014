use card_battle::card::{AttackType, Card};
use card_battle::odds::{probability_of_win, WinOdds};

fn ratio(odds: WinOdds) -> f64 {
    odds.wins as f64 / (odds.wins as f64 + odds.losses as f64)
}

fn card(text: &str) -> Card {
    Card::new(text).expect("a valid card")
}

#[test]
fn enumerator_is_deterministic() {
    for a in 0..16u8 {
        for d in 0..16u8 {
            let first = probability_of_win(a, d);
            let second = probability_of_win(a, d);
            assert_eq!(first, second);
            assert_eq!(ratio(first).to_bits(), ratio(second).to_bits());
        }
    }
}

#[test]
fn odds_are_never_empty_and_in_range() {
    for a in 0..16u8 {
        for d in 0..16u8 {
            let odds = probability_of_win(a, d);
            assert!(odds.wins + odds.losses > 0);
            let p = ratio(odds);
            assert!((0.0..=1.0).contains(&p));
        }
    }
}

#[test]
fn zero_against_zero() {
    assert_eq!(probability_of_win(0, 0), WinOdds { wins: 7820, losses: 9860 });
}

#[test]
fn exact_counts_for_a_few_pairs() {
    assert_eq!(probability_of_win(1, 0), WinOdds { wins: 36160, losses: 12800 });
    assert_eq!(probability_of_win(1, 3), WinOdds { wins: 76416, losses: 277952 });
    assert_eq!(probability_of_win(2, 3), WinOdds { wins: 207488, losses: 378304 });
    assert_eq!(probability_of_win(0, 15), WinOdds { wins: 10880, losses: 529856 });
}

#[test]
fn win_probability_is_monotone() {
    for a in 0..16u8 {
        for d in 0..16u8 {
            let p = ratio(probability_of_win(a, d));
            if a < 15 {
                assert!(ratio(probability_of_win(a + 1, d)) >= p);
            }
            if d < 15 {
                assert!(ratio(probability_of_win(a, d + 1)) <= p);
            }
        }
    }
}

#[test]
fn strongest_attack_against_weakest_defense() {
    let odds = probability_of_win(15, 0);
    assert_eq!(odds, WinOdds { wins: 466240, losses: 12800 });
    assert!(ratio(odds) > 0.97);
}

#[test]
fn weakest_attack_against_strongest_defense() {
    let odds = probability_of_win(0, 15);
    assert!(ratio(odds) < 0.03);
}

#[test]
fn end_to_end_physical_fp00_against_0p00() {
    let attacker = card("fp00");
    let defender = card("0p00");
    let odds = attacker.battle_calc(&defender);
    assert_eq!(odds, WinOdds { wins: 466240, losses: 12800 });
    assert_eq!(ratio(odds), 466240.0 / 479040.0);
}

#[test]
fn assault_uses_its_best_stat() {
    let attacker = card("1a22");
    for text in ["0p00", "fpff", "3m95", "7x12", "cafe"] {
        let defender = card(text);
        let (attack, _) = attacker.contest_powers(&defender);
        assert_eq!(attack, 2);
    }
    let defender = card("9p46");
    assert_eq!(attacker.contest_powers(&defender), (2, 4));
    assert_eq!(attacker.battle_calc(&defender), probability_of_win(2, 4));
}

#[test]
fn flexible_targets_the_weaker_defense() {
    let attacker = card("5x00");
    let defender = card("0p37");
    assert_eq!(attacker.contest_powers(&defender), (5, 3));
    assert_eq!(attacker.battle_calc(&defender), probability_of_win(5, 3));
    let defender = card("0p73");
    assert_eq!(attacker.battle_calc(&defender), probability_of_win(5, 3));
}

#[test]
fn physical_and_magic_pick_their_defense() {
    let defender = card("0p37");
    assert_eq!(card("8p00").contest_powers(&defender), (8, 3));
    assert_eq!(card("8m00").contest_powers(&defender), (8, 7));
    assert_eq!(card("8M00").battle_calc(&defender), probability_of_win(8, 7));
}

#[test]
fn assault_defense_is_the_defenders_worst_stat() {
    let attacker = card("0a00");
    assert_eq!(attacker.contest_powers(&card("5p97")), (0, 5));
    assert_eq!(attacker.contest_powers(&card("9p17")), (0, 1));
    assert_eq!(attacker.contest_powers(&card("9p71")), (0, 1));
}

#[test]
fn attack_type_codes() {
    assert_eq!(AttackType::from_str("p"), Ok(AttackType::Physical));
    assert_eq!(AttackType::from_str("P"), Ok(AttackType::Physical));
    assert_eq!(AttackType::from_str("m"), Ok(AttackType::Magic));
    assert_eq!(AttackType::from_str("M"), Ok(AttackType::Magic));
    assert_eq!(AttackType::from_str("x"), Ok(AttackType::Flexible));
    assert_eq!(AttackType::from_str("X"), Ok(AttackType::Flexible));
    assert_eq!(AttackType::from_str("a"), Ok(AttackType::Assault));
    assert_eq!(AttackType::from_str("A"), Ok(AttackType::Assault));
    assert_eq!(AttackType::from_str("q"), Err(()));
    assert_eq!(AttackType::from_str(""), Err(()));
    assert_eq!(AttackType::from_str("pp"), Err(()));
    assert_eq!(AttackType::from_char('z'), None);
}

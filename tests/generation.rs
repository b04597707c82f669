use chargen::abilities::{
    generate_scores, race_from_draw, random_race, AbilityScores, Race, FIXED_SCORE, RACE_DRAW_MAX,
};
use chargen::character::generate_character;
use chargen::class::{
    class_for_pick, class_pool, class_score, choose_from_pool, compare_points, get_class, Class,
    MAX_AFFINITY,
};
use chargen::dice::{roll, roll_total, Die};
use rand::rngs::StdRng;
use rand::SeedableRng;

fn all(v: i8) -> AbilityScores {
    AbilityScores {
        strength: v,
        dexterity: v,
        constitution: v,
        intelligence: v,
        wisdom: v,
        charisma: v,
    }
}

#[test]
fn die_faces() {
    assert_eq!(Die::D6.faces(), 6);
}

#[test]
fn roll_stays_in_range() {
    let mut rng = StdRng::seed_from_u64(1);
    let mut seen = [false; 19];
    for _ in 0..2000 {
        let r = roll(&mut rng, 3, Die::D6, 0);
        assert!((3..=18).contains(&r));
        seen[r as usize] = true;
        let s = roll(&mut rng, 2, Die::D6, 3);
        assert!((5..=15).contains(&s));
        let n = roll(&mut rng, 1, Die::D6, -4);
        assert!((-3..=2).contains(&n));
    }
    // the draws are not all one value
    assert!(seen[3..=18].iter().filter(|b| **b).count() > 10);
}

#[test]
fn roll_of_no_dice_is_modifier() {
    let mut rng = StdRng::seed_from_u64(2);
    assert_eq!(roll(&mut rng, 0, Die::D6, 0), 0);
    assert_eq!(roll(&mut rng, 0, Die::D6, 5), 5);
    assert_eq!(roll(&mut rng, 0, Die::D6, -7), -7);
}

#[test]
fn roll_total_sums_and_adds() {
    assert_eq!(roll_total(&vec![6, 6, 6], 0), 18);
    assert_eq!(roll_total(&vec![1, 2, 3], -2), 4);
    assert_eq!(roll_total(&vec![4, 5], 3), 12);
    assert_eq!(roll_total(&vec![], 7), 7);
}

#[test]
fn race_mapping_of_draws() {
    assert_eq!(race_from_draw(0), Race::Halfling);
    assert_eq!(race_from_draw(1), Race::Elf);
    assert_eq!(race_from_draw(2), Race::Dwarf);
    for d in 3..=RACE_DRAW_MAX {
        assert_eq!(race_from_draw(d), Race::Human);
    }
    let humans = (0..=RACE_DRAW_MAX)
        .filter(|d| race_from_draw(*d) == Race::Human)
        .count();
    assert_eq!(humans, 4);
}

#[test]
fn race_frequencies_converge() {
    let mut rng = StdRng::seed_from_u64(3);
    let trials = 70_000;
    let mut counts = [0usize; 4];
    for _ in 0..trials {
        let i = match random_race(&mut rng) {
            Race::Halfling => 0,
            Race::Elf => 1,
            Race::Dwarf => 2,
            Race::Human => 3,
        };
        counts[i] += 1;
    }
    let expected = [1.0 / 7.0, 1.0 / 7.0, 1.0 / 7.0, 4.0 / 7.0];
    for i in 0..4 {
        let f = counts[i] as f64 / trials as f64;
        assert!((f - expected[i]).abs() < 0.01, "race {} frequency {}", i, f);
    }
}

#[test]
fn elf_scores() {
    let mut rng = StdRng::seed_from_u64(4);
    for _ in 0..1000 {
        let s = generate_scores(&mut rng, &Race::Elf);
        assert_eq!(s.dexterity, 13);
        assert_eq!(s.intelligence, 13);
        for v in [s.strength, s.constitution, s.wisdom, s.charisma] {
            assert!((5..=15).contains(&v));
        }
    }
}

#[test]
fn dwarf_and_halfling_scores() {
    let mut rng = StdRng::seed_from_u64(5);
    for _ in 0..1000 {
        let d = generate_scores(&mut rng, &Race::Dwarf);
        assert_eq!(d.strength, FIXED_SCORE);
        assert_eq!(d.constitution, FIXED_SCORE);
        for v in [d.dexterity, d.intelligence, d.wisdom, d.charisma] {
            assert!((5..=15).contains(&v));
        }
        let h = generate_scores(&mut rng, &Race::Halfling);
        assert_eq!(h.wisdom, FIXED_SCORE);
        assert_eq!(h.charisma, FIXED_SCORE);
        for v in [h.strength, h.dexterity, h.constitution, h.intelligence] {
            assert!((5..=15).contains(&v));
        }
    }
}

#[test]
fn human_scores() {
    let mut rng = StdRng::seed_from_u64(6);
    for _ in 0..1000 {
        let s = generate_scores(&mut rng, &Race::Human);
        for v in [s.strength, s.dexterity, s.constitution, s.intelligence, s.wisdom, s.charisma] {
            assert!((3..=18).contains(&v));
        }
    }
}

#[test]
fn comparison_points() {
    assert_eq!(compare_points(10, 9), 2);
    assert_eq!(compare_points(10, 10), 1);
    assert_eq!(compare_points(9, 10), 0);
}

#[test]
fn class_scores_exact() {
    let s = AbilityScores {
        strength: 15,
        dexterity: 12,
        constitution: 3,
        intelligence: 10,
        wisdom: 9,
        charisma: 18,
    };
    assert_eq!(class_score(&s, Class::Warrior), MAX_AFFINITY);
    assert_eq!(class_score(&s, Class::Zealot), 0);
    // dex beats int and wis, loses to str
    assert_eq!(class_score(&s, Class::Thief), 8);
    // int beats wis only
    assert_eq!(class_score(&s, Class::Mage), 4);
    let e = all(11);
    for c in [Class::Warrior, Class::Zealot, Class::Thief, Class::Mage] {
        assert_eq!(class_score(&e, c), 6);
    }
}

#[test]
fn dominant_strength_gives_warrior_maximum() {
    for (st, other) in [(4, 3), (18, 17), (13, 5)] {
        let s = AbilityScores {
            strength: st,
            dexterity: other,
            constitution: 18,
            intelligence: other,
            wisdom: other,
            charisma: 18,
        };
        assert_eq!(class_score(&s, Class::Warrior), 12);
    }
}

#[test]
fn pool_layout() {
    let s = AbilityScores {
        strength: 15,
        dexterity: 12,
        constitution: 3,
        intelligence: 10,
        wisdom: 9,
        charisma: 18,
    };
    let p = class_pool(&s);
    assert_eq!(p.len(), 24);
    assert!(p[0..12].iter().all(|c| *c == Class::Warrior));
    assert!(p[12..20].iter().all(|c| *c == Class::Thief));
    assert!(p[20..24].iter().all(|c| *c == Class::Mage));
}

#[test]
fn pick_past_pool_end_is_warrior() {
    let s = all(18);
    assert_eq!(class_pool(&s).len(), 24);
    assert_eq!(class_for_pick(&s, 0), Class::Warrior);
    assert_eq!(class_for_pick(&s, 5), Class::Warrior);
    assert_eq!(class_for_pick(&s, 6), Class::Zealot);
    assert_eq!(class_for_pick(&s, 12), Class::Thief);
    assert_eq!(class_for_pick(&s, 18), Class::Mage);
    assert_eq!(class_for_pick(&s, 23), Class::Mage);
    assert_eq!(class_for_pick(&s, 24), Class::Warrior);
    assert_eq!(choose_from_pool(&vec![], 0), Class::Warrior);
    assert_eq!(choose_from_pool(&vec![Class::Mage], 0), Class::Mage);
    assert_eq!(choose_from_pool(&vec![Class::Mage], 1), Class::Warrior);
}

#[test]
fn get_class_gives_weighted_classes() {
    let mut rng = StdRng::seed_from_u64(7);
    // Zealot has affinity 0 here, so it never comes
    let s = AbilityScores {
        strength: 15,
        dexterity: 12,
        constitution: 3,
        intelligence: 10,
        wisdom: 9,
        charisma: 18,
    };
    let mut seen = [0usize; 4];
    for _ in 0..5000 {
        let i = match get_class(&mut rng, &Race::Human, &s) {
            Class::Warrior => 0,
            Class::Zealot => 1,
            Class::Thief => 2,
            Class::Mage => 3,
        };
        seen[i] += 1;
    }
    assert_eq!(seen[1], 0);
    assert!(seen[0] > 0 && seen[2] > 0 && seen[3] > 0);
    assert!(seen[0] > seen[2] && seen[2] > seen[3]);
}

#[test]
fn maximal_draws_give_human_warrior_of_eighteens() {
    let race = race_from_draw(RACE_DRAW_MAX);
    assert_eq!(race, Race::Human);
    let top = roll_total(&vec![6, 6, 6], 0);
    let scores = AbilityScores {
        strength: top,
        dexterity: top,
        constitution: top,
        intelligence: top,
        wisdom: top,
        charisma: top,
    };
    assert_eq!(scores, all(18));
    let last = class_pool(&scores).len();
    assert_eq!(class_for_pick(&scores, last), Class::Warrior);
}

#[test]
fn generation_depends_only_on_its_source() {
    let mut a = StdRng::seed_from_u64(8);
    let mut b = StdRng::seed_from_u64(8);
    let mut other = StdRng::seed_from_u64(9);
    for _ in 0..100 {
        let x = generate_character(&mut a);
        let _ = generate_character(&mut other);
        let y = generate_character(&mut b);
        assert_eq!(x, y);
    }
}

#[test]
fn generated_characters_are_consistent() {
    let mut rng = StdRng::seed_from_u64(10);
    for _ in 0..1000 {
        let c = generate_character(&mut rng);
        match c.race {
            Race::Human => {
                for v in [c.scores.strength, c.scores.wisdom, c.scores.charisma] {
                    assert!((3..=18).contains(&v));
                }
            }
            Race::Elf => assert_eq!(c.scores.dexterity, 13),
            Race::Dwarf => assert_eq!(c.scores.strength, 13),
            Race::Halfling => assert_eq!(c.scores.wisdom, 13),
        }
    }
}

use shipwave::progression::{level_required_xp, stat_for_level, LevelUp, Leveling, StatIncrease};

#[test]
fn thirty_xp_at_level_one_reaches_level_two_with_five_left() {
    assert_eq!(level_required_xp(1), 25);
    let mut l = Leveling::default();
    let ups = l.gain_xp(30);
    assert_eq!(ups, vec![LevelUp { level: 2, stat: StatIncrease::Damage }]);
    assert_eq!(l.level, 2);
    assert_eq!(l.xp, 5);
    assert_eq!(l.damage_bonuses, 1);
    assert_eq!(l.damage_percent(), 110);
}

#[test]
fn exactly_the_requirement_does_not_level() {
    let mut l = Leveling::default();
    assert!(l.gain_xp(25).is_empty());
    assert_eq!((l.level, l.xp), (1, 25));
    let ups = l.gain_xp(1);
    assert_eq!(ups.len(), 1);
    assert_eq!((l.level, l.xp), (2, 1));
}

#[test]
fn one_gain_can_take_several_levels() {
    let mut l = Leveling::default();
    let ups = l.gain_xp(25 + 50 + 1);
    assert_eq!(ups.len(), 2);
    assert_eq!(ups[1].level, 3);
    assert_eq!((l.level, l.xp), (3, 1));
}

#[test]
fn multiples_of_five_raise_rate_and_of_ten_pierce() {
    let mut l = Leveling { level: 4, xp: 0, pierce: 0, rate_bonuses: 0, damage_bonuses: 3 };
    let ups = l.gain_xp(101);
    assert_eq!(ups, vec![LevelUp { level: 5, stat: StatIncrease::Rate }]);
    assert_eq!(l.rate_percent(), 110);
    let mut l = Leveling { level: 9, xp: 0, pierce: 0, rate_bonuses: 1, damage_bonuses: 7 };
    let ups = l.gain_xp(226);
    assert_eq!(ups, vec![LevelUp { level: 10, stat: StatIncrease::Pierce }]);
    assert_eq!(l.pierce, 1);
}

#[test]
fn pierce_comes_first_when_both_rules_match() {
    assert_eq!(stat_for_level(20), StatIncrease::Pierce);
    assert_eq!(stat_for_level(15), StatIncrease::Rate);
    assert_eq!(stat_for_level(7), StatIncrease::Damage);
}

#[test]
fn default_leveling_is_level_one() {
    let l = Leveling::default();
    assert_eq!((l.level, l.xp, l.pierce), (1, 0, 0));
    assert_eq!(l.rate_percent(), 100);
    assert_eq!(l.damage_percent(), 100);
}

use rfa_tracker::catalog::all_skills_default;
use rfa_tracker::identity::same_skill;
use rfa_tracker::menu::{progress_band, totals, ProgressBand};
use rfa_tracker::skills::{Skill, SkillHashtags, SkillHits, SkillTypes};

fn plain(name: &str, goal_reps: usize, completed_reps: usize) -> Skill {
    Skill {
        name: name.into(),
        skill_type: SkillTypes::Arms,
        hits: SkillHits::One,
        damage: [0, 0, 0, 0],
        unlocks: [0, 0, 0, 0],
        hashtags: [
            SkillHashtags::Empty,
            SkillHashtags::Empty,
            SkillHashtags::Empty,
        ],
        recharge_time: [0, 0, 0, 0],
        goal_reps,
        completed_reps,
    }
}

#[test]
fn test_skill_equality() {
    let s_one = Skill {
        name: "Test Skill".into(),
        skill_type: SkillTypes::Arms,
        hits: SkillHits::One,
        damage: [0, 0, 0, 0],
        unlocks: [0, 0, 0, 0],
        hashtags: [
            SkillHashtags::Empty,
            SkillHashtags::Empty,
            SkillHashtags::Empty,
        ],
        recharge_time: [0, 0, 0, 0],
        goal_reps: 1000,
        completed_reps: 10,
    };

    let s_two = Skill {
        name: "Test Skill".into(),
        skill_type: SkillTypes::Arms,
        hits: SkillHits::One,
        damage: [0, 0, 0, 0],
        unlocks: [0, 0, 0, 0],
        hashtags: [
            SkillHashtags::Empty,
            SkillHashtags::LowerBody,
            SkillHashtags::Empty,
        ],
        recharge_time: [0, 2, 0, 0],
        goal_reps: 50,
        completed_reps: 99,
    };

    let s_three = Skill {
        name: "Test Skill 2".into(),
        skill_type: SkillTypes::Arms,
        hits: SkillHits::One,
        damage: [0, 0, 0, 0],
        unlocks: [0, 0, 0, 0],
        hashtags: [
            SkillHashtags::Empty,
            SkillHashtags::LowerBody,
            SkillHashtags::Empty,
        ],
        recharge_time: [0, 2, 0, 0],
        goal_reps: 50,
        completed_reps: 99,
    };

    assert_eq!(s_one, s_two);
    assert_ne!(s_two, s_three);
}

#[test]
fn test_skill_attributes() {
    let mut s = Skill {
        name: "Test Skill".into(),
        skill_type: SkillTypes::Arms,
        hits: SkillHits::One,
        damage: [0, 0, 0, 0],
        unlocks: [0, 0, 0, 0],
        hashtags: [
            SkillHashtags::Empty,
            SkillHashtags::Empty,
            SkillHashtags::Empty,
        ],
        recharge_time: [0, 0, 0, 0],
        goal_reps: 1000,
        completed_reps: 10,
    };

    assert!((s.get_rep_percent() as f64 - 1.0).abs() < f64::EPSILON);
    assert_eq!(s.get_reps_until_goal(), 990);

    s.completed_reps = 500;

    assert!((s.get_rep_percent() as f64 - 50.0).abs() < f64::EPSILON);
    assert_eq!(s.get_reps_until_goal(), 500);

    s.completed_reps = 5000;

    assert!((s.get_rep_percent() as f64 - 100.0).abs() < f64::EPSILON);
    assert!((s.get_rep_percent_uncapped() as f64 - 500.0).abs() < f64::EPSILON);
    assert_eq!(s.get_reps_until_goal(), 0);
}

#[test]
fn same_skill_goes_by_the_name() {
    let a = plain("Squat", 3000, 0);
    let b = plain("Squat", 1, 77);
    let c = plain("squat", 3000, 0);
    assert!(same_skill(&a, &b));
    assert!(!same_skill(&a, &c));
    assert!(a == b);
    assert!(a != c);
}

#[test]
fn equal_skills_hash_alike() {
    let mut seen = std::collections::HashSet::new();
    assert!(seen.insert(plain("Squat", 3000, 0)));
    assert!(!seen.insert(plain("Squat", 1, 77)));
    assert!(seen.insert(plain("Plank", 3000, 0)));
    assert_eq!(seen.len(), 2);
}

#[test]
fn clone_keeps_every_field() {
    let mut s = plain("Plank", 3000, 12);
    s.damage = [1, 2, 3, 4];
    s.hashtags = [SkillHashtags::Abs, SkillHashtags::Core, SkillHashtags::Posture];
    let c = s.clone();
    assert_eq!(c.name, "Plank");
    assert_eq!(c.damage, [1, 2, 3, 4]);
    assert_eq!(c.hashtags, s.hashtags);
    assert_eq!(c.goal_reps, 3000);
    assert_eq!(c.completed_reps, 12);
}

#[test]
fn reps_until_goal_is_never_negative() {
    assert_eq!(plain("a", 1000, 10).get_reps_until_goal(), 990);
    assert_eq!(plain("a", 1000, 1000).get_reps_until_goal(), 0);
    assert_eq!(plain("a", 1000, 5000).get_reps_until_goal(), 0);
    assert_eq!(plain("a", 0, 0).get_reps_until_goal(), 0);
    assert_eq!(plain("a", usize::MAX, 0).get_reps_until_goal(), usize::MAX);
    assert_eq!(plain("a", 0, usize::MAX).get_reps_until_goal(), 0);
}

#[test]
fn capped_percent_stops_at_a_hundred() {
    assert_eq!(plain("a", 1000, 0).get_rep_percent(), 0);
    assert_eq!(plain("a", 1000, 999).get_rep_percent(), 99);
    assert_eq!(plain("a", 1000, 1000).get_rep_percent(), 100);
    assert_eq!(plain("a", 1000, 5000).get_rep_percent(), 100);
    assert_eq!(plain("a", 3, 1).get_rep_percent(), 33);
    assert_eq!(plain("a", 3, 2).get_rep_percent(), 66);
    assert_eq!(plain("a", 1, usize::MAX).get_rep_percent(), 100);
    assert_eq!(plain("a", usize::MAX, usize::MAX - 1).get_rep_percent(), 99);
}

#[test]
fn a_skill_without_goal_counts_as_done() {
    assert_eq!(plain("a", 0, 0).get_rep_percent(), 100);
    assert_eq!(plain("a", 0, 7).get_rep_percent(), 100);
}

#[test]
fn uncapped_percent_goes_beyond_a_hundred() {
    assert_eq!(plain("a", 1000, 5000).get_rep_percent_uncapped(), 500);
    assert_eq!(plain("a", 1000, 10).get_rep_percent_uncapped(), 1);
    assert_eq!(plain("a", 3, 4).get_rep_percent_uncapped(), 133);
    assert_eq!(
        plain("a", 1, usize::MAX).get_rep_percent_uncapped(),
        100 * (usize::MAX as u128)
    );
}

#[test]
fn progress_bands() {
    assert_eq!(progress_band(&plain("a", 1000, 0)), ProgressBand::Started);
    assert_eq!(progress_band(&plain("a", 1000, 249)), ProgressBand::Started);
    assert_eq!(progress_band(&plain("a", 1000, 250)), ProgressBand::Quarter);
    assert_eq!(progress_band(&plain("a", 1000, 499)), ProgressBand::Quarter);
    assert_eq!(progress_band(&plain("a", 1000, 500)), ProgressBand::Half);
    assert_eq!(progress_band(&plain("a", 1000, 750)), ProgressBand::ThreeQuarters);
    assert_eq!(progress_band(&plain("a", 1000, 999)), ProgressBand::ThreeQuarters);
    assert_eq!(progress_band(&plain("a", 1000, 1000)), ProgressBand::Reached);
    assert_eq!(progress_band(&plain("a", 1000, 1499)), ProgressBand::Reached);
    assert_eq!(progress_band(&plain("a", 1000, 1500)), ProgressBand::HalfAgain);
    assert_eq!(progress_band(&plain("a", 1000, 1999)), ProgressBand::HalfAgain);
    assert_eq!(progress_band(&plain("a", 1000, 2000)), ProgressBand::Doubled);
    assert_eq!(progress_band(&plain("a", 1000, 5000)), ProgressBand::Doubled);
}

#[test]
fn progress_band_without_goal() {
    assert_eq!(progress_band(&plain("a", 0, 0)), ProgressBand::Started);
    assert_eq!(progress_band(&plain("a", 0, 1)), ProgressBand::Doubled);
}

#[test]
fn totals_over_all_skills() {
    let skills = vec![plain("a", 1000, 10), plain("b", 50, 99), plain("c", 3000, 3000)];
    let t = totals(&skills);
    assert_eq!(t.completed, 3109);
    assert_eq!(t.remaining, 990);
    assert_eq!(t.goal, 4050);
    let none = totals(&Vec::new());
    assert_eq!((none.completed, none.remaining, none.goal), (0, 0, 0));
    let big = totals(&vec![plain("a", usize::MAX, 0), plain("b", usize::MAX, usize::MAX)]);
    assert_eq!(big.goal, 2 * (usize::MAX as u128));
    assert_eq!(big.remaining, usize::MAX as u128);
    assert_eq!(big.completed, usize::MAX as u128);
}

#[test]
fn translation_key_of_a_skill() {
    assert_eq!(plain("Front Press", 1, 0).translation_key(), "skill_front_press");
    assert_eq!(
        plain("Open & Close Leg Raise", 1, 0).translation_key(),
        "skill_open_and_close_leg_raise"
    );
    assert_eq!(plain("Knee-to-Chest", 1, 0).translation_key(), "skill_knee-to-chest");
    assert_eq!(plain("Warrior II Pose", 1, 0).translation_key(), "skill_warrior_ii_pose");
    assert_eq!(plain("", 1, 0).translation_key(), "skill_");
    assert_eq!(plain("Ärger Z", 1, 0).translation_key(), "skill_Ärger_z");
}

#[test]
fn default_catalog_is_complete() {
    let all = all_skills_default();
    assert_eq!(all.len(), 43);
    assert_eq!(all[0].name, "Front Press");
    assert_eq!(all[0].skill_type, SkillTypes::Arms);
    assert_eq!(all[0].hits, SkillHits::Three);
    assert_eq!(all[0].damage, [25, 320, 390, 745]);
    assert_eq!(all[0].unlocks, [5, 144, 148, 286]);
    assert_eq!(
        all[0].hashtags,
        [SkillHashtags::Chest, SkillHashtags::Empty, SkillHashtags::Empty]
    );
    assert_eq!(all[0].recharge_time, [2, 3, 4, 0]);
    assert_eq!(all[0].goal_reps, 3000);
    assert_eq!(all[7].name, "Overhead Arm Twist");
    assert_eq!(all[7].goal_reps, 5000);
    assert_eq!(all[8].name, "Plank");
    assert_eq!(all[8].skill_type, SkillTypes::Core);
    assert_eq!(all[42].name, "Warrior III Pose");
    assert_eq!(all[42].skill_type, SkillTypes::Yoga);
    assert_eq!(all[42].damage, [125, 330, 440, 745]);
    assert_eq!(all[42].goal_reps, 2000);
}

#[test]
fn default_catalog_is_well_formed() {
    let all = all_skills_default();
    let mut names = std::collections::HashSet::new();
    for s in &all {
        assert!(s.goal_reps > 0);
        assert_eq!(s.completed_reps, 0);
        assert_ne!(s.hashtags[0], SkillHashtags::Empty);
        assert!(names.insert(s.name.clone()));
    }
    let count = |t: SkillTypes| all.iter().filter(|s| s.skill_type == t).count();
    assert_eq!(count(SkillTypes::Arms), 8);
    assert_eq!(count(SkillTypes::Core), 15);
    assert_eq!(count(SkillTypes::Legs), 10);
    assert_eq!(count(SkillTypes::Yoga), 10);
}

#[test]
fn translation_keys_agree_with_the_standard_replacements() {
    let mut names: Vec<String> = all_skills_default().into_iter().map(|s| s.name).collect();
    names.push("A & B  &C".to_string());
    names.push("ÀB c&".to_string());
    for name in names {
        let expected = format!(
            "skill_{}",
            name.to_ascii_lowercase().replace(' ', "_").replace('&', "and")
        );
        assert_eq!(plain(&name, 1, 0).translation_key(), expected);
    }
}

use rfa_tracker::catalog::all_skills_default;
use rfa_tracker::rows::{
    decode_hashtags, decode_numbers, encode_hashtags, encode_numbers, RepsChange, SkillRow,
};
use rfa_tracker::skills::{Skill, SkillHashtags, SkillHits, SkillTypes};

fn row(damage: &str, unlocks: &str, hashtags: &str, recharge_time: &str) -> SkillRow {
    SkillRow {
        name: "Bow Pull".into(),
        skill_type: "Arms".into(),
        hits: "Five".into(),
        damage: damage.into(),
        unlocks: unlocks.into(),
        hashtags: hashtags.into(),
        recharge_time: recharge_time.into(),
        goal_reps: 3000,
        completed_reps: 12,
    }
}

#[test]
fn numbers_are_stored_with_trailing_commas() {
    assert_eq!(encode_numbers(&[25, 320, 390, 745]), "25,320,390,745,");
    assert_eq!(encode_numbers(&[0, 0, 0, 0]), "0,0,0,0,");
    assert_eq!(encode_numbers(&[2, 3, 4, 0]), "2,3,4,0,");
}

#[test]
fn stored_numbers_are_read_back() {
    assert_eq!(decode_numbers("25,320,390,745,"), Some([25, 320, 390, 745]));
    assert_eq!(decode_numbers("25,320,390,745"), Some([25, 320, 390, 745]));
    assert_eq!(decode_numbers("0,0,0,0,"), Some([0, 0, 0, 0]));
}

#[test]
fn number_arrays_round_trip() {
    let arrays = [
        [0, 0, 0, 0],
        [25, 320, 390, 745],
        [1, 104, 201, 286],
        [usize::MAX, 0, usize::MAX, 1],
        [usize::MAX, usize::MAX, usize::MAX, usize::MAX],
    ];
    for a in arrays {
        assert_eq!(decode_numbers(&encode_numbers(&a)), Some(a));
    }
}

#[test]
fn missing_and_unreadable_numbers_are_zero() {
    assert_eq!(decode_numbers(""), Some([0, 0, 0, 0]));
    assert_eq!(decode_numbers("7,"), Some([7, 0, 0, 0]));
    assert_eq!(decode_numbers("7,8"), Some([7, 8, 0, 0]));
    assert_eq!(decode_numbers("7,x,9,"), Some([7, 0, 9, 0]));
    assert_eq!(decode_numbers("7,,9,"), Some([7, 9, 0, 0]));
    assert_eq!(decode_numbers("-1,2,3,4"), Some([0, 2, 3, 4]));
    assert_eq!(decode_numbers("99999999999999999999999,1"), Some([0, 1, 0, 0]));
}

#[test]
fn more_than_four_numbers_cannot_be_read() {
    assert_eq!(decode_numbers("1,2,3,4,5,"), None);
    assert_eq!(decode_numbers("a,b,c,d,e"), None);
    assert_eq!(decode_numbers("1,2,3,4,,"), Some([1, 2, 3, 4]));
}

#[test]
fn hashtags_are_stored_as_written() {
    assert_eq!(
        encode_hashtags(&[SkillHashtags::Chest, SkillHashtags::Empty, SkillHashtags::Empty]),
        "#Chest,#Empty,#Empty,"
    );
    assert_eq!(
        encode_hashtags(&[
            SkillHashtags::UpperArms,
            SkillHashtags::LowerBody,
            SkillHashtags::Flexibility
        ]),
        "#Upper Arms,#Lower Body,#Flexibility,"
    );
}

#[test]
fn hashtag_arrays_round_trip() {
    let all = SkillHashtags::get_all_hashtags();
    for a in &all {
        for b in &all {
            let tags = [*a, *b, SkillHashtags::Empty];
            assert_eq!(decode_hashtags(&encode_hashtags(&tags)), Some(tags));
            let tags = [SkillHashtags::Aerobic, *a, *b];
            assert_eq!(decode_hashtags(&encode_hashtags(&tags)), Some(tags));
        }
    }
}

#[test]
fn missing_and_unreadable_hashtags_are_empty() {
    let e = SkillHashtags::Empty;
    assert_eq!(decode_hashtags(""), Some([e, e, e]));
    assert_eq!(decode_hashtags("#Abs,"), Some([SkillHashtags::Abs, e, e]));
    assert_eq!(
        decode_hashtags("#Abs,Core,#Legs"),
        Some([SkillHashtags::Abs, e, SkillHashtags::Legs])
    );
    assert_eq!(
        decode_hashtags("#Abs,,#Legs"),
        Some([SkillHashtags::Abs, SkillHashtags::Legs, e])
    );
    assert_eq!(decode_hashtags("#Abs,#Core,#Legs,#Back"), None);
}

#[test]
fn a_row_is_read_into_a_skill() {
    let stored = row(
        "35,210,370,655,",
        "17,107,156,286,",
        "#Upper Arms,#Trapezius,#Core,",
        "2,3,4,0,",
    );
    let skill = Skill::from_row(&stored).unwrap();
    assert_eq!(skill.name, "Bow Pull");
    assert_eq!(skill.skill_type, SkillTypes::Arms);
    assert_eq!(skill.hits, SkillHits::Five);
    assert_eq!(skill.damage, [35, 210, 370, 655]);
    assert_eq!(skill.unlocks, [17, 107, 156, 286]);
    assert_eq!(
        skill.hashtags,
        [SkillHashtags::UpperArms, SkillHashtags::Trapezius, SkillHashtags::Core]
    );
    assert_eq!(skill.recharge_time, [2, 3, 4, 0]);
    assert_eq!(skill.goal_reps, 3000);
    assert_eq!(skill.completed_reps, 12);
}

#[test]
fn unknown_kinds_in_a_row_fall_back() {
    let mut r = row("", "", "", "");
    r.skill_type = "Cardio".into();
    r.hits = "Seven".into();
    let skill = Skill::from_row(&r).unwrap();
    assert_eq!(skill.skill_type, SkillTypes::Yoga);
    assert_eq!(skill.hits, SkillHits::Heal);
    assert_eq!(skill.damage, [0, 0, 0, 0]);
    assert_eq!(skill.hashtags, [SkillHashtags::Empty; 3]);
}

#[test]
fn a_row_with_too_many_items_cannot_be_read() {
    assert!(Skill::from_row(&row("1,2,3,4,5", "", "", "")).is_none());
    assert!(Skill::from_row(&row("", "1,2,3,4,5", "", "")).is_none());
    assert!(Skill::from_row(&row("", "", "#Abs,#Abs,#Abs,#Abs", "")).is_none());
    assert!(Skill::from_row(&row("", "", "", "1,2,3,4,5")).is_none());
    assert!(Skill::from_row(&row("1,2,3,4", "1,2,3,4", "#Abs,#Abs,#Abs", "1,2,3,4")).is_some());
}

#[test]
fn the_row_of_a_skill() {
    let all = all_skills_default();
    let r = all[1].to_row();
    assert_eq!(r.name, "Overhead Press");
    assert_eq!(r.skill_type, "Arms");
    assert_eq!(r.hits, "One");
    assert_eq!(r.damage, "30,350,655,1000,");
    assert_eq!(r.unlocks, "1,104,201,286,");
    assert_eq!(r.hashtags, "#Upper Arms,#Chest,#Shoulders,");
    assert_eq!(r.recharge_time, "1,2,3,0,");
    assert_eq!(r.goal_reps, 3000);
    assert_eq!(r.completed_reps, 0);
}

#[test]
fn the_catalog_round_trips_through_rows() {
    let all = all_skills_default();
    let rows: Vec<SkillRow> = all.iter().map(|s| s.to_row()).collect();
    let back = Skill::get_all_skills(&rows).unwrap();
    assert_eq!(back.len(), all.len());
    for (a, b) in all.iter().zip(back.iter()) {
        assert_eq!(a.name, b.name);
        assert_eq!(a.skill_type, b.skill_type);
        assert_eq!(a.hits, b.hits);
        assert_eq!(a.damage, b.damage);
        assert_eq!(a.unlocks, b.unlocks);
        assert_eq!(a.hashtags, b.hashtags);
        assert_eq!(a.recharge_time, b.recharge_time);
        assert_eq!(a.goal_reps, b.goal_reps);
        assert_eq!(a.completed_reps, b.completed_reps);
    }
}

#[test]
fn one_unreadable_row_fails_the_whole_read() {
    let rows = vec![row("1,", "2,", "#Abs,", "3,"), row("1,2,3,4,5,", "", "", "")];
    assert!(Skill::get_all_skills(&rows).is_none());
    assert_eq!(Skill::get_all_skills(&Vec::new()).unwrap().len(), 0);
}

#[test]
fn writes_to_the_counter() {
    let all = all_skills_default();
    let add = all[8].update_reps(30);
    assert_eq!(add.name, "Plank");
    assert_eq!(add.change, RepsChange::Add);
    assert_eq!(add.reps, 30);
    let set = all[8].set_reps(0);
    assert_eq!(set.name, "Plank");
    assert_eq!(set.change, RepsChange::Overwrite);
    assert_eq!(set.reps, 0);
}

//! The catalog of skills as the game ships it: what a new store is filled
//! with.

use vstd::prelude::*;
use vstd::string::*;
use crate::skills::{Skill, SkillHashtags, SkillHits, SkillTypes, SkillView};

verus! {

/// A skill of the catalog as it is first stored: with its goal, and with no
/// repetition done.
pub open spec fn entry(
    name: Seq<char>,
    skill_type: SkillTypes,
    hits: SkillHits,
    damage: [usize; 4],
    unlocks: [usize; 4],
    hashtags: [SkillHashtags; 3],
    recharge_time: [usize; 4],
    goal_reps: usize,
) -> SkillView {
    SkillView {
        name,
        skill_type,
        hits,
        damage: damage@,
        unlocks: unlocks@,
        hashtags: hashtags@,
        recharge_time: recharge_time@,
        goal_reps,
        completed_reps: 0,
    }
}

/// What a list of skills holds.
pub open spec fn skill_views(skills: Seq<Skill>) -> Seq<SkillView> {
    Seq::new(skills.len(), |i: int| skills[i]@)
}

/// A skill of the catalog as it is first stored.
fn skill(
    name: &str,
    skill_type: SkillTypes,
    hits: SkillHits,
    damage: [usize; 4],
    unlocks: [usize; 4],
    hashtags: [SkillHashtags; 3],
    recharge_time: [usize; 4],
    goal_reps: usize,
) -> (s: Skill)
    ensures
        s@ == entry(name@, skill_type, hits, damage, unlocks, hashtags, recharge_time, goal_reps),
{
    Skill {
        name: String::from_str(name),
        skill_type,
        hits,
        damage,
        unlocks,
        hashtags,
        recharge_time,
        goal_reps,
        completed_reps: 0,
    }
}

/// The skills of the catalog that train the arms.
pub open spec fn default_arms() -> Seq<SkillView> {
    seq![
        entry(
            "Front Press"@,
            SkillTypes::Arms,
            SkillHits::Three,
            [25, 320, 390, 745],
            [5, 144, 148, 286],
            [SkillHashtags::Chest, SkillHashtags::Empty, SkillHashtags::Empty],
            [2, 3, 4, 0],
            3000,
        ),
        entry(
            "Overhead Press"@,
            SkillTypes::Arms,
            SkillHits::One,
            [30, 350, 655, 1000],
            [1, 104, 201, 286],
            [SkillHashtags::UpperArms, SkillHashtags::Chest, SkillHashtags::Shoulders],
            [1, 2, 3, 0],
            3000,
        ),
        entry(
            "Back Press"@,
            SkillTypes::Arms,
            SkillHits::One,
            [220, 255, 675, 100],
            [77, 80, 180, 286],
            [SkillHashtags::UpperArms, SkillHashtags::Posture, SkillHashtags::Shoulders],
            [2, 2, 3, 0],
            3000,
        ),
        entry(
            "Tricep Kickback"@,
            SkillTypes::Arms,
            SkillHits::Three,
            [145, 240, 430, 745],
            [62, 100, 195, 286],
            [SkillHashtags::UpperArms, SkillHashtags::Empty, SkillHashtags::Empty],
            [2, 3, 4, 0],
            3000,
        ),
        entry(
            "Bow Pull"@,
            SkillTypes::Arms,
            SkillHits::Five,
            [35, 210, 370, 655],
            [17, 107, 156, 286],
            [SkillHashtags::UpperArms, SkillHashtags::Trapezius, SkillHashtags::Core],
            [2, 3, 4, 0],
            3000,
        ),
        entry(
            "Shoulder Press"@,
            SkillTypes::Arms,
            SkillHits::Heal,
            [6, 12, 14, 20],
            [52, 119, 156, 286],
            [SkillHashtags::UpperArms, SkillHashtags::Posture, SkillHashtags::Shoulders],
            [3, 3, 4, 0],
            3000,
        ),
        entry(
            "Overhead Arm Spin"@,
            SkillTypes::Arms,
            SkillHits::Five,
            [90, 295, 490, 655],
            [47, 131, 267, 286],
            [SkillHashtags::UpperArms, SkillHashtags::Shoulders, SkillHashtags::Posture],
            [3, 3, 5, 0],
            3000,
        ),
        entry(
            "Overhead Arm Twist"@,
            SkillTypes::Arms,
            SkillHits::One,
            [90, 350, 705, 1000],
            [29, 125, 188, 286],
            [SkillHashtags::UpperArms, SkillHashtags::Shoulders, SkillHashtags::Core],
            [2, 2, 4, 0],
            5000,
        ),
    ]
}

/// The skills of the catalog that train the core.
pub open spec fn default_core() -> Seq<SkillView> {
    seq![
        entry(
            "Plank"@,
            SkillTypes::Core,
            SkillHits::Three,
            [50, 325, 485, 745],
            [20, 132, 172, 286],
            [SkillHashtags::Abs, SkillHashtags::Core, SkillHashtags::Posture],
            [2, 3, 4, 0],
            3000,
        ),
        entry(
            "Leg Raise"@,
            SkillTypes::Core,
            SkillHits::One,
            [175, 300, 755, 1000],
            [56, 92, 196, 286],
            [SkillHashtags::Abs, SkillHashtags::Core, SkillHashtags::Empty],
            [2, 2, 4, 0],
            3000,
        ),
        entry(
            "Open & Close Leg Raise"@,
            SkillTypes::Core,
            SkillHits::Heal,
            [5, 13, 17, 20],
            [28, 125, 184, 286],
            [SkillHashtags::Abs, SkillHashtags::Legs, SkillHashtags::Glutes],
            [3, 3, 4, 0],
            3000,
        ),
        entry(
            "Overhead Side Bend"@,
            SkillTypes::Core,
            SkillHits::Heal,
            [7, 11, 14, 20],
            [65, 119, 146, 286],
            [SkillHashtags::Waist, SkillHashtags::Core, SkillHashtags::UpperArms],
            [3, 3, 4, 0],
            3000,
        ),
        entry(
            "Pendulum Bend"@,
            SkillTypes::Core,
            SkillHits::Three,
            [130, 215, 560, 745],
            [58, 89, 245, 286],
            [SkillHashtags::Waist, SkillHashtags::LowerBody, SkillHashtags::Core],
            [2, 3, 5, 0],
            3000,
        ),
        entry(
            "Overhead Bend"@,
            SkillTypes::Core,
            SkillHits::One,
            [80, 390, 795, 1000],
            [20, 116, 204, 286],
            [SkillHashtags::Core, SkillHashtags::Posture, SkillHashtags::Trapezius],
            [1, 2, 4, 0],
            3000,
        ),
        entry(
            "Seated Forward Press"@,
            SkillTypes::Core,
            SkillHits::Heal,
            [5, 10, 15, 20],
            [37, 95, 159, 286],
            [SkillHashtags::UpperArms, SkillHashtags::Abs, SkillHashtags::Flexibility],
            [3, 3, 4, 0],
            3000,
        ),
        entry(
            "Knee-to-Chest"@,
            SkillTypes::Core,
            SkillHits::One,
            [30, 235, 700, 1000],
            [1, 74, 226, 286],
            [SkillHashtags::Abs, SkillHashtags::UpperArms, SkillHashtags::Core],
            [1, 2, 3, 0],
            3000,
        ),
        entry(
            "Overhead Lunge Twist"@,
            SkillTypes::Core,
            SkillHits::One,
            [155, 360, 840, 1000],
            [50, 113, 212, 286],
            [SkillHashtags::Waist, SkillHashtags::Legs, SkillHashtags::Core],
            [2, 2, 4, 0],
            3000,
        ),
        entry(
            "Leg Scissors"@,
            SkillTypes::Core,
            SkillHits::Three,
            [135, 280, 445, 745],
            [58, 110, 164, 286],
            [SkillHashtags::Abs, SkillHashtags::Legs, SkillHashtags::Stamina],
            [2, 3, 4, 0],
            5000,
        ),
        entry(
            "Flutter Kick"@,
            SkillTypes::Core,
            SkillHits::One,
            [175, 470, 625, 1000],
            [56, 122, 169, 286],
            [SkillHashtags::Abs, SkillHashtags::Legs, SkillHashtags::Empty],
            [2, 2, 3, 0],
            5000,
        ),
        entry(
            "Seated Ring Raise"@,
            SkillTypes::Core,
            SkillHits::One,
            [220, 335, 545, 1000],
            [74, 101, 152, 286],
            [SkillHashtags::Abs, SkillHashtags::Legs, SkillHashtags::Core],
            [2, 2, 3, 0],
            5000,
        ),
        entry(
            "Russian Twist"@,
            SkillTypes::Core,
            SkillHits::Five,
            [130, 235, 455, 655],
            [61, 103, 233, 286],
            [SkillHashtags::Waist, SkillHashtags::Abs, SkillHashtags::Core],
            [3, 3, 4, 0],
            5000,
        ),
        entry(
            "Standing Twist"@,
            SkillTypes::Core,
            SkillHits::Five,
            [20, 205, 325, 655],
            [8, 101, 144, 286],
            [SkillHashtags::Waist, SkillHashtags::Stamina, SkillHashtags::Empty],
            [2, 3, 4, 0],
            5000,
        ),
        entry(
            "Overhead Hip Shake"@,
            SkillTypes::Core,
            SkillHits::Five,
            [70, 275, 395, 655],
            [38, 122, 177, 286],
            [SkillHashtags::Waist, SkillHashtags::Stamina, SkillHashtags::UpperArms],
            [3, 3, 4, 0],
            5000,
        ),
    ]
}

/// The skills of the catalog that train the legs.
pub open spec fn default_legs() -> Seq<SkillView> {
    seq![
        entry(
            "Squat"@,
            SkillTypes::Legs,
            SkillHits::One,
            [30, 360, 655, 1000],
            [1, 116, 215, 286],
            [SkillHashtags::Legs, SkillHashtags::Glutes, SkillHashtags::Stamina],
            [1, 2, 3, 0],
            3000,
        ),
        entry(
            "Wide Squat"@,
            SkillTypes::Legs,
            SkillHits::Three,
            [85, 185, 560, 745],
            [35, 77, 250, 286],
            [SkillHashtags::Legs, SkillHashtags::Glutes, SkillHashtags::Stamina],
            [2, 3, 5, 0],
            3000,
        ),
        entry(
            "Overhead Squat"@,
            SkillTypes::Legs,
            SkillHits::Five,
            [110, 210, 325, 655],
            [50, 98, 139, 286],
            [SkillHashtags::Legs, SkillHashtags::Glutes, SkillHashtags::Stamina],
            [3, 3, 3, 0],
            3000,
        ),
        entry(
            "Thigh Press"@,
            SkillTypes::Legs,
            SkillHits::One,
            [80, 295, 615, 1000],
            [23, 89, 168, 286],
            [SkillHashtags::Legs, SkillHashtags::LowerBody, SkillHashtags::Posture],
            [1, 2, 3, 0],
            3000,
        ),
        entry(
            "Hip Lift"@,
            SkillTypes::Legs,
            SkillHits::Heal,
            [6, 11, 16, 20],
            [44, 107, 209, 286],
            [SkillHashtags::Legs, SkillHashtags::Glutes, SkillHashtags::Core],
            [3, 3, 4, 0],
            3000,
        ),
        entry(
            "Mountain Climber"@,
            SkillTypes::Legs,
            SkillHits::Five,
            [120, 285, 510, 655],
            [59, 151, 200, 286],
            [SkillHashtags::Legs, SkillHashtags::UpperArms, SkillHashtags::Glutes],
            [3, 3, 4, 0],
            3000,
        ),
        entry(
            "Knee Lift"@,
            SkillTypes::Legs,
            SkillHits::One,
            [50, 275, 615, 1000],
            [11, 86, 169, 286],
            [SkillHashtags::Abs, SkillHashtags::Legs, SkillHashtags::Stamina],
            [1, 2, 3, 0],
            5000,
        ),
        entry(
            "Side Step"@,
            SkillTypes::Legs,
            SkillHits::Three,
            [160, 295, 545, 725],
            [66, 116, 192, 286],
            [SkillHashtags::UpperArms, SkillHashtags::Legs, SkillHashtags::Stamina],
            [2, 3, 4, 0],
            5000,
        ),
        entry(
            "Ring Raise Combo"@,
            SkillTypes::Legs,
            SkillHits::One,
            [155, 415, 615, 1000],
            [44, 122, 165, 286],
            [SkillHashtags::Legs, SkillHashtags::Glutes, SkillHashtags::Stamina],
            [2, 2, 3, 0],
            5000,
        ),
        entry(
            "Knee-Lift Combo"@,
            SkillTypes::Legs,
            SkillHits::Three,
            [165, 240, 490, 745],
            [71, 110, 180, 286],
            [SkillHashtags::Legs, SkillHashtags::Glutes, SkillHashtags::Stamina],
            [3, 3, 4, 0],
            5000,
        ),
    ]
}

/// The skills of the catalog that train yoga.
pub open spec fn default_yoga() -> Seq<SkillView> {
    seq![
        entry(
            "Chair Pose"@,
            SkillTypes::Yoga,
            SkillHits::One,
            [30, 260, 655, 1000],
            [1, 77, 240, 286],
            [SkillHashtags::LowerBody, SkillHashtags::Core, SkillHashtags::Stamina],
            [1, 2, 3, 0],
            2000,
        ),
        entry(
            "Boat Pose"@,
            SkillTypes::Yoga,
            SkillHits::Five,
            [155, 320, 495, 655],
            [71, 137, 255, 286],
            [SkillHashtags::Abs, SkillHashtags::Core, SkillHashtags::Stamina],
            [3, 3, 5, 0],
            2000,
        ),
        entry(
            "Standing Forward Fold"@,
            SkillTypes::Yoga,
            SkillHits::Heal,
            [8, 11, 19, 20],
            [70, 113, 208, 286],
            [SkillHashtags::UpperArms, SkillHashtags::Shoulders, SkillHashtags::Flexibility],
            [3, 3, 5, 0],
            2000,
        ),
        entry(
            "Tree Pose"@,
            SkillTypes::Yoga,
            SkillHits::One,
            [220, 425, 490, 1000],
            [68, 138, 140, 286],
            [SkillHashtags::Legs, SkillHashtags::LowerBody, SkillHashtags::Posture],
            [2, 2, 3, 0],
            2000,
        ),
        entry(
            "Hinge Pose"@,
            SkillTypes::Yoga,
            SkillHits::Three,
            [125, 350, 460, 745],
            [53, 137, 188, 286],
            [SkillHashtags::Shoulders, SkillHashtags::Legs, SkillHashtags::Back],
            [2, 3, 4, 0],
            2000,
        ),
        entry(
            "Revolved Crescent Lunge Pose"@,
            SkillTypes::Yoga,
            SkillHits::One,
            [130, 295, 580, 1000],
            [41, 84, 160, 286],
            [SkillHashtags::Waist, SkillHashtags::LowerBody, SkillHashtags::Core],
            [2, 2, 3, 0],
            2000,
        ),
        entry(
            "Fan Pose"@,
            SkillTypes::Yoga,
            SkillHits::Heal,
            [4, 9, 15, 20],
            [26, 83, 185, 286],
            [SkillHashtags::Waist, SkillHashtags::Flexibility, SkillHashtags::Shoulders],
            [3, 3, 4, 0],
            2000,
        ),
        entry(
            "Warrior I Pose"@,
            SkillTypes::Yoga,
            SkillHits::One,
            [60, 300, 580, 1000],
            [14, 92, 155, 286],
            [SkillHashtags::LowerBody, SkillHashtags::Aerobic, SkillHashtags::Posture],
            [1, 2, 3, 0],
            2000,
        ),
        entry(
            "Warrior II Pose"@,
            SkillTypes::Yoga,
            SkillHits::Five,
            [60, 210, 430, 655],
            [32, 95, 176, 286],
            [SkillHashtags::Chest, SkillHashtags::UpperArms, SkillHashtags::Shoulders],
            [2, 3, 4, 0],
            2000,
        ),
        entry(
            "Warrior III Pose"@,
            SkillTypes::Yoga,
            SkillHits::Three,
            [125, 330, 440, 745],
            [44, 128, 162, 286],
            [SkillHashtags::Aerobic, SkillHashtags::Core, SkillHashtags::Stamina],
            [2, 3, 4, 0],
            2000,
        ),
    ]
}

/// Appends the skills that train the arms.
fn push_arms(skills: &mut Vec<Skill>)
    ensures
        skill_views(final(skills)@) == skill_views(old(skills)@) + default_arms(),
{
    let ghost before = skill_views(skills@);
    skills.push(
        skill(
            "Front Press",
            SkillTypes::Arms,
            SkillHits::Three,
            [25, 320, 390, 745],
            [5, 144, 148, 286],
            [SkillHashtags::Chest, SkillHashtags::Empty, SkillHashtags::Empty],
            [2, 3, 4, 0],
            3000,
        ),
    );
    skills.push(
        skill(
            "Overhead Press",
            SkillTypes::Arms,
            SkillHits::One,
            [30, 350, 655, 1000],
            [1, 104, 201, 286],
            [SkillHashtags::UpperArms, SkillHashtags::Chest, SkillHashtags::Shoulders],
            [1, 2, 3, 0],
            3000,
        ),
    );
    skills.push(
        skill(
            "Back Press",
            SkillTypes::Arms,
            SkillHits::One,
            [220, 255, 675, 100],
            [77, 80, 180, 286],
            [SkillHashtags::UpperArms, SkillHashtags::Posture, SkillHashtags::Shoulders],
            [2, 2, 3, 0],
            3000,
        ),
    );
    skills.push(
        skill(
            "Tricep Kickback",
            SkillTypes::Arms,
            SkillHits::Three,
            [145, 240, 430, 745],
            [62, 100, 195, 286],
            [SkillHashtags::UpperArms, SkillHashtags::Empty, SkillHashtags::Empty],
            [2, 3, 4, 0],
            3000,
        ),
    );
    skills.push(
        skill(
            "Bow Pull",
            SkillTypes::Arms,
            SkillHits::Five,
            [35, 210, 370, 655],
            [17, 107, 156, 286],
            [SkillHashtags::UpperArms, SkillHashtags::Trapezius, SkillHashtags::Core],
            [2, 3, 4, 0],
            3000,
        ),
    );
    skills.push(
        skill(
            "Shoulder Press",
            SkillTypes::Arms,
            SkillHits::Heal,
            [6, 12, 14, 20],
            [52, 119, 156, 286],
            [SkillHashtags::UpperArms, SkillHashtags::Posture, SkillHashtags::Shoulders],
            [3, 3, 4, 0],
            3000,
        ),
    );
    skills.push(
        skill(
            "Overhead Arm Spin",
            SkillTypes::Arms,
            SkillHits::Five,
            [90, 295, 490, 655],
            [47, 131, 267, 286],
            [SkillHashtags::UpperArms, SkillHashtags::Shoulders, SkillHashtags::Posture],
            [3, 3, 5, 0],
            3000,
        ),
    );
    skills.push(
        skill(
            "Overhead Arm Twist",
            SkillTypes::Arms,
            SkillHits::One,
            [90, 350, 705, 1000],
            [29, 125, 188, 286],
            [SkillHashtags::UpperArms, SkillHashtags::Shoulders, SkillHashtags::Core],
            [2, 2, 4, 0],
            5000,
        ),
    );
    assert(skill_views(skills@) =~= before + default_arms());
}

/// Appends the skills that train the core.
fn push_core(skills: &mut Vec<Skill>)
    ensures
        skill_views(final(skills)@) == skill_views(old(skills)@) + default_core(),
{
    let ghost before = skill_views(skills@);
    skills.push(
        skill(
            "Plank",
            SkillTypes::Core,
            SkillHits::Three,
            [50, 325, 485, 745],
            [20, 132, 172, 286],
            [SkillHashtags::Abs, SkillHashtags::Core, SkillHashtags::Posture],
            [2, 3, 4, 0],
            3000,
        ),
    );
    skills.push(
        skill(
            "Leg Raise",
            SkillTypes::Core,
            SkillHits::One,
            [175, 300, 755, 1000],
            [56, 92, 196, 286],
            [SkillHashtags::Abs, SkillHashtags::Core, SkillHashtags::Empty],
            [2, 2, 4, 0],
            3000,
        ),
    );
    skills.push(
        skill(
            "Open & Close Leg Raise",
            SkillTypes::Core,
            SkillHits::Heal,
            [5, 13, 17, 20],
            [28, 125, 184, 286],
            [SkillHashtags::Abs, SkillHashtags::Legs, SkillHashtags::Glutes],
            [3, 3, 4, 0],
            3000,
        ),
    );
    skills.push(
        skill(
            "Overhead Side Bend",
            SkillTypes::Core,
            SkillHits::Heal,
            [7, 11, 14, 20],
            [65, 119, 146, 286],
            [SkillHashtags::Waist, SkillHashtags::Core, SkillHashtags::UpperArms],
            [3, 3, 4, 0],
            3000,
        ),
    );
    skills.push(
        skill(
            "Pendulum Bend",
            SkillTypes::Core,
            SkillHits::Three,
            [130, 215, 560, 745],
            [58, 89, 245, 286],
            [SkillHashtags::Waist, SkillHashtags::LowerBody, SkillHashtags::Core],
            [2, 3, 5, 0],
            3000,
        ),
    );
    skills.push(
        skill(
            "Overhead Bend",
            SkillTypes::Core,
            SkillHits::One,
            [80, 390, 795, 1000],
            [20, 116, 204, 286],
            [SkillHashtags::Core, SkillHashtags::Posture, SkillHashtags::Trapezius],
            [1, 2, 4, 0],
            3000,
        ),
    );
    skills.push(
        skill(
            "Seated Forward Press",
            SkillTypes::Core,
            SkillHits::Heal,
            [5, 10, 15, 20],
            [37, 95, 159, 286],
            [SkillHashtags::UpperArms, SkillHashtags::Abs, SkillHashtags::Flexibility],
            [3, 3, 4, 0],
            3000,
        ),
    );
    skills.push(
        skill(
            "Knee-to-Chest",
            SkillTypes::Core,
            SkillHits::One,
            [30, 235, 700, 1000],
            [1, 74, 226, 286],
            [SkillHashtags::Abs, SkillHashtags::UpperArms, SkillHashtags::Core],
            [1, 2, 3, 0],
            3000,
        ),
    );
    skills.push(
        skill(
            "Overhead Lunge Twist",
            SkillTypes::Core,
            SkillHits::One,
            [155, 360, 840, 1000],
            [50, 113, 212, 286],
            [SkillHashtags::Waist, SkillHashtags::Legs, SkillHashtags::Core],
            [2, 2, 4, 0],
            3000,
        ),
    );
    skills.push(
        skill(
            "Leg Scissors",
            SkillTypes::Core,
            SkillHits::Three,
            [135, 280, 445, 745],
            [58, 110, 164, 286],
            [SkillHashtags::Abs, SkillHashtags::Legs, SkillHashtags::Stamina],
            [2, 3, 4, 0],
            5000,
        ),
    );
    skills.push(
        skill(
            "Flutter Kick",
            SkillTypes::Core,
            SkillHits::One,
            [175, 470, 625, 1000],
            [56, 122, 169, 286],
            [SkillHashtags::Abs, SkillHashtags::Legs, SkillHashtags::Empty],
            [2, 2, 3, 0],
            5000,
        ),
    );
    skills.push(
        skill(
            "Seated Ring Raise",
            SkillTypes::Core,
            SkillHits::One,
            [220, 335, 545, 1000],
            [74, 101, 152, 286],
            [SkillHashtags::Abs, SkillHashtags::Legs, SkillHashtags::Core],
            [2, 2, 3, 0],
            5000,
        ),
    );
    skills.push(
        skill(
            "Russian Twist",
            SkillTypes::Core,
            SkillHits::Five,
            [130, 235, 455, 655],
            [61, 103, 233, 286],
            [SkillHashtags::Waist, SkillHashtags::Abs, SkillHashtags::Core],
            [3, 3, 4, 0],
            5000,
        ),
    );
    skills.push(
        skill(
            "Standing Twist",
            SkillTypes::Core,
            SkillHits::Five,
            [20, 205, 325, 655],
            [8, 101, 144, 286],
            [SkillHashtags::Waist, SkillHashtags::Stamina, SkillHashtags::Empty],
            [2, 3, 4, 0],
            5000,
        ),
    );
    skills.push(
        skill(
            "Overhead Hip Shake",
            SkillTypes::Core,
            SkillHits::Five,
            [70, 275, 395, 655],
            [38, 122, 177, 286],
            [SkillHashtags::Waist, SkillHashtags::Stamina, SkillHashtags::UpperArms],
            [3, 3, 4, 0],
            5000,
        ),
    );
    assert(skill_views(skills@) =~= before + default_core());
}

/// Appends the skills that train the legs.
fn push_legs(skills: &mut Vec<Skill>)
    ensures
        skill_views(final(skills)@) == skill_views(old(skills)@) + default_legs(),
{
    let ghost before = skill_views(skills@);
    skills.push(
        skill(
            "Squat",
            SkillTypes::Legs,
            SkillHits::One,
            [30, 360, 655, 1000],
            [1, 116, 215, 286],
            [SkillHashtags::Legs, SkillHashtags::Glutes, SkillHashtags::Stamina],
            [1, 2, 3, 0],
            3000,
        ),
    );
    skills.push(
        skill(
            "Wide Squat",
            SkillTypes::Legs,
            SkillHits::Three,
            [85, 185, 560, 745],
            [35, 77, 250, 286],
            [SkillHashtags::Legs, SkillHashtags::Glutes, SkillHashtags::Stamina],
            [2, 3, 5, 0],
            3000,
        ),
    );
    skills.push(
        skill(
            "Overhead Squat",
            SkillTypes::Legs,
            SkillHits::Five,
            [110, 210, 325, 655],
            [50, 98, 139, 286],
            [SkillHashtags::Legs, SkillHashtags::Glutes, SkillHashtags::Stamina],
            [3, 3, 3, 0],
            3000,
        ),
    );
    skills.push(
        skill(
            "Thigh Press",
            SkillTypes::Legs,
            SkillHits::One,
            [80, 295, 615, 1000],
            [23, 89, 168, 286],
            [SkillHashtags::Legs, SkillHashtags::LowerBody, SkillHashtags::Posture],
            [1, 2, 3, 0],
            3000,
        ),
    );
    skills.push(
        skill(
            "Hip Lift",
            SkillTypes::Legs,
            SkillHits::Heal,
            [6, 11, 16, 20],
            [44, 107, 209, 286],
            [SkillHashtags::Legs, SkillHashtags::Glutes, SkillHashtags::Core],
            [3, 3, 4, 0],
            3000,
        ),
    );
    skills.push(
        skill(
            "Mountain Climber",
            SkillTypes::Legs,
            SkillHits::Five,
            [120, 285, 510, 655],
            [59, 151, 200, 286],
            [SkillHashtags::Legs, SkillHashtags::UpperArms, SkillHashtags::Glutes],
            [3, 3, 4, 0],
            3000,
        ),
    );
    skills.push(
        skill(
            "Knee Lift",
            SkillTypes::Legs,
            SkillHits::One,
            [50, 275, 615, 1000],
            [11, 86, 169, 286],
            [SkillHashtags::Abs, SkillHashtags::Legs, SkillHashtags::Stamina],
            [1, 2, 3, 0],
            5000,
        ),
    );
    skills.push(
        skill(
            "Side Step",
            SkillTypes::Legs,
            SkillHits::Three,
            [160, 295, 545, 725],
            [66, 116, 192, 286],
            [SkillHashtags::UpperArms, SkillHashtags::Legs, SkillHashtags::Stamina],
            [2, 3, 4, 0],
            5000,
        ),
    );
    skills.push(
        skill(
            "Ring Raise Combo",
            SkillTypes::Legs,
            SkillHits::One,
            [155, 415, 615, 1000],
            [44, 122, 165, 286],
            [SkillHashtags::Legs, SkillHashtags::Glutes, SkillHashtags::Stamina],
            [2, 2, 3, 0],
            5000,
        ),
    );
    skills.push(
        skill(
            "Knee-Lift Combo",
            SkillTypes::Legs,
            SkillHits::Three,
            [165, 240, 490, 745],
            [71, 110, 180, 286],
            [SkillHashtags::Legs, SkillHashtags::Glutes, SkillHashtags::Stamina],
            [3, 3, 4, 0],
            5000,
        ),
    );
    assert(skill_views(skills@) =~= before + default_legs());
}

/// Appends the skills that train yoga.
fn push_yoga(skills: &mut Vec<Skill>)
    ensures
        skill_views(final(skills)@) == skill_views(old(skills)@) + default_yoga(),
{
    let ghost before = skill_views(skills@);
    skills.push(
        skill(
            "Chair Pose",
            SkillTypes::Yoga,
            SkillHits::One,
            [30, 260, 655, 1000],
            [1, 77, 240, 286],
            [SkillHashtags::LowerBody, SkillHashtags::Core, SkillHashtags::Stamina],
            [1, 2, 3, 0],
            2000,
        ),
    );
    skills.push(
        skill(
            "Boat Pose",
            SkillTypes::Yoga,
            SkillHits::Five,
            [155, 320, 495, 655],
            [71, 137, 255, 286],
            [SkillHashtags::Abs, SkillHashtags::Core, SkillHashtags::Stamina],
            [3, 3, 5, 0],
            2000,
        ),
    );
    skills.push(
        skill(
            "Standing Forward Fold",
            SkillTypes::Yoga,
            SkillHits::Heal,
            [8, 11, 19, 20],
            [70, 113, 208, 286],
            [SkillHashtags::UpperArms, SkillHashtags::Shoulders, SkillHashtags::Flexibility],
            [3, 3, 5, 0],
            2000,
        ),
    );
    skills.push(
        skill(
            "Tree Pose",
            SkillTypes::Yoga,
            SkillHits::One,
            [220, 425, 490, 1000],
            [68, 138, 140, 286],
            [SkillHashtags::Legs, SkillHashtags::LowerBody, SkillHashtags::Posture],
            [2, 2, 3, 0],
            2000,
        ),
    );
    skills.push(
        skill(
            "Hinge Pose",
            SkillTypes::Yoga,
            SkillHits::Three,
            [125, 350, 460, 745],
            [53, 137, 188, 286],
            [SkillHashtags::Shoulders, SkillHashtags::Legs, SkillHashtags::Back],
            [2, 3, 4, 0],
            2000,
        ),
    );
    skills.push(
        skill(
            "Revolved Crescent Lunge Pose",
            SkillTypes::Yoga,
            SkillHits::One,
            [130, 295, 580, 1000],
            [41, 84, 160, 286],
            [SkillHashtags::Waist, SkillHashtags::LowerBody, SkillHashtags::Core],
            [2, 2, 3, 0],
            2000,
        ),
    );
    skills.push(
        skill(
            "Fan Pose",
            SkillTypes::Yoga,
            SkillHits::Heal,
            [4, 9, 15, 20],
            [26, 83, 185, 286],
            [SkillHashtags::Waist, SkillHashtags::Flexibility, SkillHashtags::Shoulders],
            [3, 3, 4, 0],
            2000,
        ),
    );
    skills.push(
        skill(
            "Warrior I Pose",
            SkillTypes::Yoga,
            SkillHits::One,
            [60, 300, 580, 1000],
            [14, 92, 155, 286],
            [SkillHashtags::LowerBody, SkillHashtags::Aerobic, SkillHashtags::Posture],
            [1, 2, 3, 0],
            2000,
        ),
    );
    skills.push(
        skill(
            "Warrior II Pose",
            SkillTypes::Yoga,
            SkillHits::Five,
            [60, 210, 430, 655],
            [32, 95, 176, 286],
            [SkillHashtags::Chest, SkillHashtags::UpperArms, SkillHashtags::Shoulders],
            [2, 3, 4, 0],
            2000,
        ),
    );
    skills.push(
        skill(
            "Warrior III Pose",
            SkillTypes::Yoga,
            SkillHits::Three,
            [125, 330, 440, 745],
            [44, 128, 162, 286],
            [SkillHashtags::Aerobic, SkillHashtags::Core, SkillHashtags::Stamina],
            [2, 3, 4, 0],
            2000,
        ),
    );
    assert(skill_views(skills@) =~= before + default_yoga());
}

/// The catalog: the skills that train the arms, the core and the legs, and
/// the yoga poses, in this order.
pub open spec fn default_catalog() -> Seq<SkillView> {
    default_arms() + default_core() + default_legs() + default_yoga()
}

/// All skills of the catalog as a new store holds them: each with its goal,
/// and with no repetition done.
pub fn all_skills_default() -> (skills: Vec<Skill>)
    ensures
        skill_views(skills@) == default_catalog(),
{
    let mut skills: Vec<Skill> = Vec::new();
    assert(skill_views(skills@) =~= Seq::<SkillView>::empty());
    push_arms(&mut skills);
    push_core(&mut skills);
    push_legs(&mut skills);
    push_yoga(&mut skills);
    assert(skill_views(skills@) =~= default_catalog());
    skills
}

/// The names of the skills of the catalog, in its order.
pub open spec fn default_names() -> Seq<Seq<char>> {
    Seq::new(default_catalog().len(), |i: int| default_catalog()[i].name)
}

/// The catalog holds each skill once: no two of its skills go by one name.
pub proof fn lemma_catalog_names_differ()
    ensures
        forall|i: int, j: int|
            0 <= i < j < default_catalog().len() ==> default_catalog()[i].name
                != default_catalog()[j].name,
{
    let names = default_names();
    reveal_strlit("Front Press");
    reveal_strlit("Overhead Press");
    reveal_strlit("Back Press");
    reveal_strlit("Tricep Kickback");
    reveal_strlit("Bow Pull");
    reveal_strlit("Shoulder Press");
    reveal_strlit("Overhead Arm Spin");
    reveal_strlit("Overhead Arm Twist");
    reveal_strlit("Plank");
    reveal_strlit("Leg Raise");
    reveal_strlit("Open & Close Leg Raise");
    reveal_strlit("Overhead Side Bend");
    reveal_strlit("Pendulum Bend");
    reveal_strlit("Overhead Bend");
    reveal_strlit("Seated Forward Press");
    reveal_strlit("Knee-to-Chest");
    reveal_strlit("Overhead Lunge Twist");
    reveal_strlit("Leg Scissors");
    reveal_strlit("Flutter Kick");
    reveal_strlit("Seated Ring Raise");
    reveal_strlit("Russian Twist");
    reveal_strlit("Standing Twist");
    reveal_strlit("Overhead Hip Shake");
    reveal_strlit("Squat");
    reveal_strlit("Wide Squat");
    reveal_strlit("Overhead Squat");
    reveal_strlit("Thigh Press");
    reveal_strlit("Hip Lift");
    reveal_strlit("Mountain Climber");
    reveal_strlit("Knee Lift");
    reveal_strlit("Side Step");
    reveal_strlit("Ring Raise Combo");
    reveal_strlit("Knee-Lift Combo");
    reveal_strlit("Chair Pose");
    reveal_strlit("Boat Pose");
    reveal_strlit("Standing Forward Fold");
    reveal_strlit("Tree Pose");
    reveal_strlit("Hinge Pose");
    reveal_strlit("Revolved Crescent Lunge Pose");
    reveal_strlit("Fan Pose");
    reveal_strlit("Warrior I Pose");
    reveal_strlit("Warrior II Pose");
    reveal_strlit("Warrior III Pose");
    assert("Front Press"@.len() == 11 && "Front Press"@[0] == 'F');
    assert(
        "Overhead Press"@.len() == 14
            && "Overhead Press"@[0] == 'O'
            && "Overhead Press"@[9] == 'P'
    );
    assert("Back Press"@.len() == 10 && "Back Press"@[0] == 'B');
    assert("Tricep Kickback"@.len() == 15 && "Tricep Kickback"@[0] == 'T');
    assert("Bow Pull"@.len() == 8 && "Bow Pull"@[0] == 'B');
    assert(
        "Shoulder Press"@.len() == 14
            && "Shoulder Press"@[0] == 'S'
            && "Shoulder Press"@[9] == 'P'
    );
    assert("Overhead Arm Spin"@.len() == 17 && "Overhead Arm Spin"@[0] == 'O');
    assert("Overhead Arm Twist"@.len() == 18 && "Overhead Arm Twist"@[9] == 'A');
    assert("Plank"@.len() == 5 && "Plank"@[0] == 'P');
    assert("Leg Raise"@.len() == 9 && "Leg Raise"@[0] == 'L');
    assert("Open & Close Leg Raise"@.len() == 22 && "Open & Close Leg Raise"@[0] == 'O');
    assert("Overhead Side Bend"@.len() == 18 && "Overhead Side Bend"@[9] == 'S');
    assert("Pendulum Bend"@.len() == 13 && "Pendulum Bend"@[0] == 'P');
    assert("Overhead Bend"@.len() == 13 && "Overhead Bend"@[0] == 'O');
    assert("Seated Forward Press"@.len() == 20 && "Seated Forward Press"@[0] == 'S');
    assert("Knee-to-Chest"@.len() == 13 && "Knee-to-Chest"@[0] == 'K');
    assert("Overhead Lunge Twist"@.len() == 20 && "Overhead Lunge Twist"@[0] == 'O');
    assert("Leg Scissors"@.len() == 12 && "Leg Scissors"@[0] == 'L');
    assert("Flutter Kick"@.len() == 12 && "Flutter Kick"@[0] == 'F');
    assert("Seated Ring Raise"@.len() == 17 && "Seated Ring Raise"@[0] == 'S');
    assert("Russian Twist"@.len() == 13 && "Russian Twist"@[0] == 'R');
    assert(
        "Standing Twist"@.len() == 14
            && "Standing Twist"@[0] == 'S'
            && "Standing Twist"@[9] == 'T'
    );
    assert("Overhead Hip Shake"@.len() == 18 && "Overhead Hip Shake"@[9] == 'H');
    assert("Squat"@.len() == 5 && "Squat"@[0] == 'S');
    assert("Wide Squat"@.len() == 10 && "Wide Squat"@[0] == 'W');
    assert(
        "Overhead Squat"@.len() == 14
            && "Overhead Squat"@[0] == 'O'
            && "Overhead Squat"@[9] == 'S'
    );
    assert("Thigh Press"@.len() == 11 && "Thigh Press"@[0] == 'T');
    assert("Hip Lift"@.len() == 8 && "Hip Lift"@[0] == 'H');
    assert("Mountain Climber"@.len() == 16 && "Mountain Climber"@[0] == 'M');
    assert("Knee Lift"@.len() == 9 && "Knee Lift"@[0] == 'K');
    assert("Side Step"@.len() == 9 && "Side Step"@[0] == 'S');
    assert("Ring Raise Combo"@.len() == 16 && "Ring Raise Combo"@[0] == 'R');
    assert("Knee-Lift Combo"@.len() == 15 && "Knee-Lift Combo"@[0] == 'K');
    assert("Chair Pose"@.len() == 10 && "Chair Pose"@[0] == 'C');
    assert("Boat Pose"@.len() == 9 && "Boat Pose"@[0] == 'B');
    assert("Standing Forward Fold"@.len() == 21 && "Standing Forward Fold"@[0] == 'S');
    assert("Tree Pose"@.len() == 9 && "Tree Pose"@[0] == 'T');
    assert("Hinge Pose"@.len() == 10 && "Hinge Pose"@[0] == 'H');
    assert(
        "Revolved Crescent Lunge Pose"@.len() == 28
            && "Revolved Crescent Lunge Pose"@[0] == 'R'
    );
    assert("Fan Pose"@.len() == 8 && "Fan Pose"@[0] == 'F');
    assert(
        "Warrior I Pose"@.len() == 14
            && "Warrior I Pose"@[0] == 'W'
            && "Warrior I Pose"@[9] == ' '
    );
    assert("Warrior II Pose"@.len() == 15 && "Warrior II Pose"@[0] == 'W');
    assert("Warrior III Pose"@.len() == 16 && "Warrior III Pose"@[0] == 'W');
    assert(names[0] == "Front Press"@);
    assert(names[1] == "Overhead Press"@);
    assert(names[2] == "Back Press"@);
    assert(names[3] == "Tricep Kickback"@);
    assert(names[4] == "Bow Pull"@);
    assert(names[5] == "Shoulder Press"@);
    assert(names[6] == "Overhead Arm Spin"@);
    assert(names[7] == "Overhead Arm Twist"@);
    assert(names[8] == "Plank"@);
    assert(names[9] == "Leg Raise"@);
    assert(names[10] == "Open & Close Leg Raise"@);
    assert(names[11] == "Overhead Side Bend"@);
    assert(names[12] == "Pendulum Bend"@);
    assert(names[13] == "Overhead Bend"@);
    assert(names[14] == "Seated Forward Press"@);
    assert(names[15] == "Knee-to-Chest"@);
    assert(names[16] == "Overhead Lunge Twist"@);
    assert(names[17] == "Leg Scissors"@);
    assert(names[18] == "Flutter Kick"@);
    assert(names[19] == "Seated Ring Raise"@);
    assert(names[20] == "Russian Twist"@);
    assert(names[21] == "Standing Twist"@);
    assert(names[22] == "Overhead Hip Shake"@);
    assert(names[23] == "Squat"@);
    assert(names[24] == "Wide Squat"@);
    assert(names[25] == "Overhead Squat"@);
    assert(names[26] == "Thigh Press"@);
    assert(names[27] == "Hip Lift"@);
    assert(names[28] == "Mountain Climber"@);
    assert(names[29] == "Knee Lift"@);
    assert(names[30] == "Side Step"@);
    assert(names[31] == "Ring Raise Combo"@);
    assert(names[32] == "Knee-Lift Combo"@);
    assert(names[33] == "Chair Pose"@);
    assert(names[34] == "Boat Pose"@);
    assert(names[35] == "Standing Forward Fold"@);
    assert(names[36] == "Tree Pose"@);
    assert(names[37] == "Hinge Pose"@);
    assert(names[38] == "Revolved Crescent Lunge Pose"@);
    assert(names[39] == "Fan Pose"@);
    assert(names[40] == "Warrior I Pose"@);
    assert(names[41] == "Warrior II Pose"@);
    assert(names[42] == "Warrior III Pose"@);
    assert forall|i: int, j: int| 0 <= i < j < names.len() implies names[i] != names[j] by {
    }
    assert forall|i: int, j: int|
        0 <= i < j < default_catalog().len() implies default_catalog()[i].name
        != default_catalog()[j].name by {
        assert(names[i] != names[j]);
    }
}

/// The catalog holds forty-three skills. Each of them has a goal and no
/// repetition done, four levels in each of its lists of numbers, and three
/// tags of which the first is not `Empty`.
pub proof fn lemma_catalog_shape()
    ensures
        default_catalog().len() == 43,
        forall|i: int|
            0 <= i < default_catalog().len() ==> {
                let s = #[trigger] default_catalog()[i];
                &&& s.goal_reps > 0
                &&& s.completed_reps == 0
                &&& s.damage.len() == 4
                &&& s.unlocks.len() == 4
                &&& s.recharge_time.len() == 4
                &&& s.hashtags.len() == 3
                &&& s.hashtags[0] != SkillHashtags::Empty
            },
{
}

} // verus!

//! The skills of the game: what kind each one is, how it is written in text,
//! and how far its repetitions have come.

use vstd::prelude::*;
use vstd::string::*;
use crate::fields::comma_free;
use crate::text::same_text;

verus! {

/// The four kinds of skill.
#[derive(Debug, PartialEq, Eq, Hash, Clone, Copy, Structural)]
pub enum SkillTypes {
    Arms,
    Core,
    Legs,
    Yoga,
}

/// What a skill does in a fight: it hits one, three or five enemies, or it
/// heals the player.
#[derive(Debug, PartialEq, Eq, Hash, Clone, Copy, Structural)]
pub enum SkillHits {
    One,
    Three,
    Five,
    Heal,
}

/// The muscle groups that a skill works. A skill carries three of these, of
/// which the later ones may be `Empty`.
#[derive(Debug, PartialEq, Eq, Hash, Clone, Copy, Structural)]
pub enum SkillHashtags {
    Empty,
    Chest,
    UpperArms,
    Shoulders,
    Trapezius,
    Core,
    Posture,
    Legs,
    Glutes,
    LowerBody,
    Abs,
    Waist,
    Stamina,
    Back,
    Flexibility,
    Aerobic,
}

impl SkillTypes {
    /// The name of the kind, as it is shown and stored.
    pub open spec fn text(self) -> Seq<char> {
        match self {
            SkillTypes::Arms => "Arms"@,
            SkillTypes::Core => "Core"@,
            SkillTypes::Legs => "Legs"@,
            SkillTypes::Yoga => "Yoga"@,
        }
    }

    /// The kind that `s` names, if it names one.
    pub open spec fn named(s: Seq<char>) -> Result<SkillTypes, ()> {
        if s == "Arms"@ {
            Ok(SkillTypes::Arms)
        } else if s == "Core"@ {
            Ok(SkillTypes::Core)
        } else if s == "Legs"@ {
            Ok(SkillTypes::Legs)
        } else if s == "Yoga"@ {
            Ok(SkillTypes::Yoga)
        } else {
            Err(())
        }
    }

    /// The kind that a stored text stands for: a text that names no kind
    /// stands for `Yoga`.
    pub open spec fn stored(s: Seq<char>) -> SkillTypes {
        match SkillTypes::named(s) {
            Ok(t) => t,
            Err(_) => SkillTypes::Yoga,
        }
    }

    /// The name of the kind.
    pub fn to_string(&self) -> (s: String)
        ensures
            s@ == self.text(),
    {
        match self {
            SkillTypes::Arms => String::from_str("Arms"),
            SkillTypes::Core => String::from_str("Core"),
            SkillTypes::Legs => String::from_str("Legs"),
            SkillTypes::Yoga => String::from_str("Yoga"),
        }
    }

    /// Reads the name of a kind; any other text is an error.
    pub fn from_str(s: &str) -> (r: Result<SkillTypes, ()>)
        ensures
            r == SkillTypes::named(s@),
    {
        if same_text(s, "Arms") {
            Ok(SkillTypes::Arms)
        } else if same_text(s, "Core") {
            Ok(SkillTypes::Core)
        } else if same_text(s, "Legs") {
            Ok(SkillTypes::Legs)
        } else if same_text(s, "Yoga") {
            Ok(SkillTypes::Yoga)
        } else {
            Err(())
        }
    }

    /// Reads the kind from a stored text, which never fails: a text that names
    /// no kind is read as `Yoga`.
    pub fn from_stored(s: &str) -> (t: SkillTypes)
        ensures
            t == SkillTypes::stored(s@),
    {
        match SkillTypes::from_str(s) {
            Ok(t) => t,
            Err(_) => SkillTypes::Yoga,
        }
    }

    /// Reading the name of a kind gives the kind back.
    pub proof fn lemma_name_round_trip(self)
        ensures
            SkillTypes::named(self.text()) == Ok::<SkillTypes, ()>(self),
            SkillTypes::stored(self.text()) == self,
    {
        reveal_strlit("Arms");
        reveal_strlit("Core");
        reveal_strlit("Legs");
        reveal_strlit("Yoga");
        assert("Arms"@[0] == 'A' && "Arms"@[1] == 'r');
        assert("Core"@[0] == 'C' && "Core"@[1] == 'o');
        assert("Legs"@[0] == 'L' && "Legs"@[1] == 'e');
        assert("Yoga"@[0] == 'Y' && "Yoga"@[1] == 'o');
    }
}

impl SkillHits {
    /// The name of the effect, as it is shown and stored.
    pub open spec fn text(self) -> Seq<char> {
        match self {
            SkillHits::One => "One"@,
            SkillHits::Three => "Three"@,
            SkillHits::Five => "Five"@,
            SkillHits::Heal => "Heal"@,
        }
    }

    /// The effect that `s` names, if it names one.
    pub open spec fn named(s: Seq<char>) -> Result<SkillHits, ()> {
        if s == "One"@ {
            Ok(SkillHits::One)
        } else if s == "Three"@ {
            Ok(SkillHits::Three)
        } else if s == "Five"@ {
            Ok(SkillHits::Five)
        } else if s == "Heal"@ {
            Ok(SkillHits::Heal)
        } else {
            Err(())
        }
    }

    /// The effect that a stored text stands for: a text that names no effect
    /// stands for `Heal`.
    pub open spec fn stored(s: Seq<char>) -> SkillHits {
        match SkillHits::named(s) {
            Ok(t) => t,
            Err(_) => SkillHits::Heal,
        }
    }

    /// The name of the effect.
    pub fn to_string(&self) -> (s: String)
        ensures
            s@ == self.text(),
    {
        match self {
            SkillHits::One => String::from_str("One"),
            SkillHits::Three => String::from_str("Three"),
            SkillHits::Five => String::from_str("Five"),
            SkillHits::Heal => String::from_str("Heal"),
        }
    }

    /// Reads the name of an effect; any other text is an error.
    pub fn from_str(s: &str) -> (r: Result<SkillHits, ()>)
        ensures
            r == SkillHits::named(s@),
    {
        if same_text(s, "One") {
            Ok(SkillHits::One)
        } else if same_text(s, "Three") {
            Ok(SkillHits::Three)
        } else if same_text(s, "Five") {
            Ok(SkillHits::Five)
        } else if same_text(s, "Heal") {
            Ok(SkillHits::Heal)
        } else {
            Err(())
        }
    }

    /// Reads the effect from a stored text, which never fails: a text that
    /// names no effect is read as `Heal`.
    pub fn from_stored(s: &str) -> (t: SkillHits)
        ensures
            t == SkillHits::stored(s@),
    {
        match SkillHits::from_str(s) {
            Ok(t) => t,
            Err(_) => SkillHits::Heal,
        }
    }

    /// Reading the name of an effect gives the effect back.
    pub proof fn lemma_name_round_trip(self)
        ensures
            SkillHits::named(self.text()) == Ok::<SkillHits, ()>(self),
            SkillHits::stored(self.text()) == self,
    {
        reveal_strlit("One");
        reveal_strlit("Three");
        reveal_strlit("Five");
        reveal_strlit("Heal");
        assert("One"@[0] == 'O' && "One"@[1] == 'n');
        assert("Three"@[0] == 'T' && "Three"@[1] == 'h');
        assert("Five"@[0] == 'F' && "Five"@[1] == 'i');
        assert("Heal"@[0] == 'H' && "Heal"@[1] == 'e');
    }
}

impl SkillHashtags {
    /// The tag as the game writes it: a hash sign and the muscle group, two of
    /// them with a space inside.
    pub open spec fn text(self) -> Seq<char> {
        match self {
            SkillHashtags::Empty => "#Empty"@,
            SkillHashtags::Chest => "#Chest"@,
            SkillHashtags::UpperArms => "#Upper Arms"@,
            SkillHashtags::Shoulders => "#Shoulders"@,
            SkillHashtags::Trapezius => "#Trapezius"@,
            SkillHashtags::Core => "#Core"@,
            SkillHashtags::Posture => "#Posture"@,
            SkillHashtags::Legs => "#Legs"@,
            SkillHashtags::Glutes => "#Glutes"@,
            SkillHashtags::LowerBody => "#Lower Body"@,
            SkillHashtags::Abs => "#Abs"@,
            SkillHashtags::Waist => "#Waist"@,
            SkillHashtags::Stamina => "#Stamina"@,
            SkillHashtags::Back => "#Back"@,
            SkillHashtags::Flexibility => "#Flexibility"@,
            SkillHashtags::Aerobic => "#Aerobic"@,
        }
    }

    /// The tag that `s` writes, if it writes one. The empty text writes the
    /// `Empty` tag, as `#Empty` does.
    pub open spec fn named(s: Seq<char>) -> Result<SkillHashtags, ()> {
        if s == ""@ || s == "#Empty"@ {
            Ok(SkillHashtags::Empty)
        } else if s == "#Chest"@ {
            Ok(SkillHashtags::Chest)
        } else if s == "#Upper Arms"@ {
            Ok(SkillHashtags::UpperArms)
        } else if s == "#Shoulders"@ {
            Ok(SkillHashtags::Shoulders)
        } else if s == "#Trapezius"@ {
            Ok(SkillHashtags::Trapezius)
        } else if s == "#Core"@ {
            Ok(SkillHashtags::Core)
        } else if s == "#Posture"@ {
            Ok(SkillHashtags::Posture)
        } else if s == "#Legs"@ {
            Ok(SkillHashtags::Legs)
        } else if s == "#Glutes"@ {
            Ok(SkillHashtags::Glutes)
        } else if s == "#Abs"@ {
            Ok(SkillHashtags::Abs)
        } else if s == "#Stamina"@ {
            Ok(SkillHashtags::Stamina)
        } else if s == "#Back"@ {
            Ok(SkillHashtags::Back)
        } else if s == "#Flexibility"@ {
            Ok(SkillHashtags::Flexibility)
        } else if s == "#Aerobic"@ {
            Ok(SkillHashtags::Aerobic)
        } else if s == "#Waist"@ {
            Ok(SkillHashtags::Waist)
        } else if s == "#Lower Body"@ {
            Ok(SkillHashtags::LowerBody)
        } else {
            Err(())
        }
    }

    /// The tag that a stored text stands for: a text that writes no tag
    /// stands for `Empty`.
    pub open spec fn stored(s: Seq<char>) -> SkillHashtags {
        match SkillHashtags::named(s) {
            Ok(t) => t,
            Err(_) => SkillHashtags::Empty,
        }
    }

    /// The key under which the tag's display name is kept in the
    /// translations.
    pub open spec fn key(self) -> Seq<char> {
        match self {
            SkillHashtags::Empty => "hashtag_empty"@,
            SkillHashtags::Chest => "hashtag_chest"@,
            SkillHashtags::UpperArms => "hashtag_upper_arms"@,
            SkillHashtags::Shoulders => "hashtag_shoulders"@,
            SkillHashtags::Trapezius => "hashtag_trapezius"@,
            SkillHashtags::Core => "hashtag_core"@,
            SkillHashtags::Posture => "hashtag_posture"@,
            SkillHashtags::Legs => "hashtag_legs"@,
            SkillHashtags::Glutes => "hashtag_glutes"@,
            SkillHashtags::LowerBody => "hashtag_lower_body"@,
            SkillHashtags::Abs => "hashtag_abs"@,
            SkillHashtags::Waist => "hashtag_waist"@,
            SkillHashtags::Stamina => "hashtag_stamina"@,
            SkillHashtags::Back => "hashtag_back"@,
            SkillHashtags::Flexibility => "hashtag_flexibility"@,
            SkillHashtags::Aerobic => "hashtag_aerobic"@,
        }
    }

    /// The place of the tag in the list of all tags.
    pub open spec fn ordinal(self) -> int {
        match self {
            SkillHashtags::Empty => 0,
            SkillHashtags::Chest => 1,
            SkillHashtags::UpperArms => 2,
            SkillHashtags::Shoulders => 3,
            SkillHashtags::Trapezius => 4,
            SkillHashtags::Core => 5,
            SkillHashtags::Posture => 6,
            SkillHashtags::Legs => 7,
            SkillHashtags::Glutes => 8,
            SkillHashtags::LowerBody => 9,
            SkillHashtags::Abs => 10,
            SkillHashtags::Waist => 11,
            SkillHashtags::Stamina => 12,
            SkillHashtags::Back => 13,
            SkillHashtags::Flexibility => 14,
            SkillHashtags::Aerobic => 15,
        }
    }

    /// All tags, `Empty` first.
    pub open spec fn all() -> Seq<SkillHashtags> {
        seq![
            SkillHashtags::Empty,
            SkillHashtags::Chest,
            SkillHashtags::UpperArms,
            SkillHashtags::Shoulders,
            SkillHashtags::Trapezius,
            SkillHashtags::Core,
            SkillHashtags::Posture,
            SkillHashtags::Legs,
            SkillHashtags::Glutes,
            SkillHashtags::LowerBody,
            SkillHashtags::Abs,
            SkillHashtags::Waist,
            SkillHashtags::Stamina,
            SkillHashtags::Back,
            SkillHashtags::Flexibility,
            SkillHashtags::Aerobic,
        ]
    }

    /// The tag as the game writes it.
    pub fn to_string(&self) -> (s: String)
        ensures
            s@ == self.text(),
    {
        match self {
            SkillHashtags::Empty => String::from_str("#Empty"),
            SkillHashtags::Chest => String::from_str("#Chest"),
            SkillHashtags::UpperArms => String::from_str("#Upper Arms"),
            SkillHashtags::Shoulders => String::from_str("#Shoulders"),
            SkillHashtags::Trapezius => String::from_str("#Trapezius"),
            SkillHashtags::Core => String::from_str("#Core"),
            SkillHashtags::Posture => String::from_str("#Posture"),
            SkillHashtags::Legs => String::from_str("#Legs"),
            SkillHashtags::Glutes => String::from_str("#Glutes"),
            SkillHashtags::LowerBody => String::from_str("#Lower Body"),
            SkillHashtags::Abs => String::from_str("#Abs"),
            SkillHashtags::Waist => String::from_str("#Waist"),
            SkillHashtags::Stamina => String::from_str("#Stamina"),
            SkillHashtags::Back => String::from_str("#Back"),
            SkillHashtags::Flexibility => String::from_str("#Flexibility"),
            SkillHashtags::Aerobic => String::from_str("#Aerobic"),
        }
    }

    /// Reads a tag as the game writes it; the empty text is the `Empty` tag,
    /// and any other text is an error.
    pub fn from_str(s: &str) -> (r: Result<SkillHashtags, ()>)
        ensures
            r == SkillHashtags::named(s@),
    {
        if same_text(s, "") || same_text(s, "#Empty") {
            Ok(SkillHashtags::Empty)
        } else if same_text(s, "#Chest") {
            Ok(SkillHashtags::Chest)
        } else if same_text(s, "#Upper Arms") {
            Ok(SkillHashtags::UpperArms)
        } else if same_text(s, "#Shoulders") {
            Ok(SkillHashtags::Shoulders)
        } else if same_text(s, "#Trapezius") {
            Ok(SkillHashtags::Trapezius)
        } else if same_text(s, "#Core") {
            Ok(SkillHashtags::Core)
        } else if same_text(s, "#Posture") {
            Ok(SkillHashtags::Posture)
        } else if same_text(s, "#Legs") {
            Ok(SkillHashtags::Legs)
        } else if same_text(s, "#Glutes") {
            Ok(SkillHashtags::Glutes)
        } else if same_text(s, "#Abs") {
            Ok(SkillHashtags::Abs)
        } else if same_text(s, "#Stamina") {
            Ok(SkillHashtags::Stamina)
        } else if same_text(s, "#Back") {
            Ok(SkillHashtags::Back)
        } else if same_text(s, "#Flexibility") {
            Ok(SkillHashtags::Flexibility)
        } else if same_text(s, "#Aerobic") {
            Ok(SkillHashtags::Aerobic)
        } else if same_text(s, "#Waist") {
            Ok(SkillHashtags::Waist)
        } else if same_text(s, "#Lower Body") {
            Ok(SkillHashtags::LowerBody)
        } else {
            Err(())
        }
    }

    /// Reads the tag from a stored text, which never fails: a text that
    /// writes no tag is read as `Empty`.
    pub fn from_stored(s: &str) -> (t: SkillHashtags)
        ensures
            t == SkillHashtags::stored(s@),
    {
        match SkillHashtags::from_str(s) {
            Ok(t) => t,
            Err(_) => SkillHashtags::Empty,
        }
    }

    /// The key under which the tag's display name is kept in the
    /// translations.
    pub fn translation_key(&self) -> (k: &'static str)
        ensures
            k@ == self.key(),
    {
        match self {
            SkillHashtags::Empty => "hashtag_empty",
            SkillHashtags::Chest => "hashtag_chest",
            SkillHashtags::UpperArms => "hashtag_upper_arms",
            SkillHashtags::Shoulders => "hashtag_shoulders",
            SkillHashtags::Trapezius => "hashtag_trapezius",
            SkillHashtags::Core => "hashtag_core",
            SkillHashtags::Posture => "hashtag_posture",
            SkillHashtags::Legs => "hashtag_legs",
            SkillHashtags::Glutes => "hashtag_glutes",
            SkillHashtags::LowerBody => "hashtag_lower_body",
            SkillHashtags::Abs => "hashtag_abs",
            SkillHashtags::Waist => "hashtag_waist",
            SkillHashtags::Stamina => "hashtag_stamina",
            SkillHashtags::Back => "hashtag_back",
            SkillHashtags::Flexibility => "hashtag_flexibility",
            SkillHashtags::Aerobic => "hashtag_aerobic",
        }
    }

    /// The place of the tag in the list of all tags.
    pub fn index(&self) -> (i: usize)
        ensures
            i == self.ordinal(),
            i < 16,
            SkillHashtags::all()[i as int] == *self,
    {
        match self {
            SkillHashtags::Empty => 0,
            SkillHashtags::Chest => 1,
            SkillHashtags::UpperArms => 2,
            SkillHashtags::Shoulders => 3,
            SkillHashtags::Trapezius => 4,
            SkillHashtags::Core => 5,
            SkillHashtags::Posture => 6,
            SkillHashtags::Legs => 7,
            SkillHashtags::Glutes => 8,
            SkillHashtags::LowerBody => 9,
            SkillHashtags::Abs => 10,
            SkillHashtags::Waist => 11,
            SkillHashtags::Stamina => 12,
            SkillHashtags::Back => 13,
            SkillHashtags::Flexibility => 14,
            SkillHashtags::Aerobic => 15,
        }
    }

    /// All tags in one list, `Empty` first.
    pub fn get_all_hashtags() -> (v: Vec<SkillHashtags>)
        ensures
            v@ == SkillHashtags::all(),
    {
        let mut v: Vec<SkillHashtags> = Vec::new();
        v.push(SkillHashtags::Empty);
        v.push(SkillHashtags::Chest);
        v.push(SkillHashtags::UpperArms);
        v.push(SkillHashtags::Shoulders);
        v.push(SkillHashtags::Trapezius);
        v.push(SkillHashtags::Core);
        v.push(SkillHashtags::Posture);
        v.push(SkillHashtags::Legs);
        v.push(SkillHashtags::Glutes);
        v.push(SkillHashtags::LowerBody);
        v.push(SkillHashtags::Abs);
        v.push(SkillHashtags::Waist);
        v.push(SkillHashtags::Stamina);
        v.push(SkillHashtags::Back);
        v.push(SkillHashtags::Flexibility);
        v.push(SkillHashtags::Aerobic);
        assert(v@ =~= SkillHashtags::all());
        v
    }

    /// A written tag is never empty and holds no comma, and reading it gives
    /// the tag back.
    pub proof fn lemma_text_round_trip(self)
        ensures
            self.text().len() > 0,
            comma_free(self.text()),
            SkillHashtags::named(self.text()) == Ok::<SkillHashtags, ()>(self),
            SkillHashtags::stored(self.text()) == self,
    {
        reveal_strlit("");
        reveal_strlit("#Empty");
        reveal_strlit("#Chest");
        reveal_strlit("#Upper Arms");
        reveal_strlit("#Shoulders");
        reveal_strlit("#Trapezius");
        reveal_strlit("#Core");
        reveal_strlit("#Posture");
        reveal_strlit("#Legs");
        reveal_strlit("#Glutes");
        reveal_strlit("#Lower Body");
        reveal_strlit("#Abs");
        reveal_strlit("#Waist");
        reveal_strlit("#Stamina");
        reveal_strlit("#Back");
        reveal_strlit("#Flexibility");
        reveal_strlit("#Aerobic");
        assert("#Empty"@.len() == 6 && "#Empty"@[1] == 'E');
        assert("#Chest"@.len() == 6 && "#Chest"@[1] == 'C');
        assert("#Upper Arms"@.len() == 11 && "#Upper Arms"@[1] == 'U');
        assert("#Shoulders"@.len() == 10 && "#Shoulders"@[1] == 'S');
        assert("#Trapezius"@.len() == 10 && "#Trapezius"@[1] == 'T');
        assert("#Core"@.len() == 5 && "#Core"@[1] == 'C');
        assert("#Posture"@.len() == 8 && "#Posture"@[1] == 'P');
        assert("#Legs"@.len() == 5 && "#Legs"@[1] == 'L');
        assert("#Glutes"@.len() == 7 && "#Glutes"@[1] == 'G');
        assert("#Lower Body"@.len() == 11 && "#Lower Body"@[1] == 'L');
        assert("#Abs"@.len() == 4 && "#Abs"@[1] == 'A');
        assert("#Waist"@.len() == 6 && "#Waist"@[1] == 'W');
        assert("#Stamina"@.len() == 8 && "#Stamina"@[1] == 'S');
        assert("#Back"@.len() == 5 && "#Back"@[1] == 'B');
        assert("#Flexibility"@.len() == 12 && "#Flexibility"@[1] == 'F');
        assert("#Aerobic"@.len() == 8 && "#Aerobic"@[1] == 'A');
    }
}

/// One skill of the catalog: what the game says about it, the number of
/// repetitions aimed at and the number done so far. The name alone says which
/// skill a record is.
#[derive(Debug)]
pub struct Skill {
    pub name: String,
    pub skill_type: SkillTypes,
    pub hits: SkillHits,
    pub damage: [usize; 4],
    pub unlocks: [usize; 4],
    pub hashtags: [SkillHashtags; 3],
    pub recharge_time: [usize; 4],
    pub goal_reps: usize,
    pub completed_reps: usize,
}

/// What a skill record holds, with its name as a sequence of characters.
pub struct SkillView {
    pub name: Seq<char>,
    pub skill_type: SkillTypes,
    pub hits: SkillHits,
    pub damage: Seq<usize>,
    pub unlocks: Seq<usize>,
    pub hashtags: Seq<SkillHashtags>,
    pub recharge_time: Seq<usize>,
    pub goal_reps: usize,
    pub completed_reps: usize,
}

impl View for Skill {
    type V = SkillView;

    open spec fn view(&self) -> SkillView {
        SkillView {
            name: self.name@,
            skill_type: self.skill_type,
            hits: self.hits,
            damage: self.damage@,
            unlocks: self.unlocks@,
            hashtags: self.hashtags@,
            recharge_time: self.recharge_time@,
            goal_reps: self.goal_reps,
            completed_reps: self.completed_reps,
        }
    }
}

impl Clone for Skill {
    fn clone(&self) -> (r: Self)
        ensures
            r == *self,
    {
        Skill {
            name: self.name.clone(),
            skill_type: self.skill_type,
            hits: self.hits,
            damage: self.damage,
            unlocks: self.unlocks,
            hashtags: self.hashtags,
            recharge_time: self.recharge_time,
            goal_reps: self.goal_reps,
            completed_reps: self.completed_reps,
        }
    }
}

/// The repetitions that are still to do: the goal less what is done, and
/// nothing once the goal is reached.
pub open spec fn reps_until_goal(goal: int, completed: int) -> int {
    if completed < goal {
        goal - completed
    } else {
        0
    }
}

/// The share of the goal that is done, in whole percent, rounded down.
pub open spec fn rep_percent(goal: int, completed: int) -> int
    recommends
        goal > 0,
{
    (100 * completed) / goal
}

/// The share of the goal that is done, in whole percent, never more than a
/// hundred. A skill without a goal counts as done.
pub open spec fn rep_percent_capped(goal: int, completed: int) -> int {
    if goal <= 0 || completed >= goal {
        100
    } else {
        rep_percent(goal, completed)
    }
}

/// The character that stands for `c` in the key of a skill: capital letters
/// of the basic alphabet become small ones.
pub open spec fn key_letter(c: char) -> char {
    if 'A' <= c && c <= 'Z' {
        (c as u8 + 32) as char
    } else {
        c
    }
}

/// What stands for `c` in the key of a skill: an underscore for a space, the
/// word `and` for an ampersand, and the small letter for any other character.
pub open spec fn key_piece(c: char) -> Seq<char> {
    if c == ' ' {
        seq!['_']
    } else if c == '&' {
        seq!['a', 'n', 'd']
    } else {
        seq![key_letter(c)]
    }
}

/// What stands for a whole name in the key of a skill.
pub open spec fn key_body(name: Seq<char>) -> Seq<char>
    decreases name.len(),
{
    if name.len() == 0 {
        Seq::empty()
    } else {
        key_body(name.drop_last()) + key_piece(name.last())
    }
}

/// The key under which the display name of the skill called `name` is kept
/// in the translations.
pub open spec fn skill_key(name: Seq<char>) -> Seq<char> {
    "skill_"@ + key_body(name)
}

/// The share of the goal that is done is below a hundred percent as long as
/// the goal is not reached, and a hundred or more from then on; capped, it is
/// never more than a hundred.
pub proof fn lemma_rep_percent_bounds(goal: int, completed: int)
    requires
        goal > 0,
        completed >= 0,
    ensures
        0 <= rep_percent(goal, completed),
        completed < goal ==> rep_percent(goal, completed) < 100,
        completed >= goal ==> rep_percent(goal, completed) >= 100,
        0 <= rep_percent_capped(goal, completed) <= 100,
{
    assert(0 <= (100 * completed) / goal) by (nonlinear_arith)
        requires
            goal > 0,
            completed >= 0,
    ;
    assert(completed < goal ==> (100 * completed) / goal < 100) by (nonlinear_arith)
        requires
            goal > 0,
            completed >= 0,
    ;
    assert(completed >= goal ==> (100 * completed) / goal >= 100) by (nonlinear_arith)
        requires
            goal > 0,
            completed >= 0,
    ;
}

impl Skill {
    /// The repetitions that are still to do until the goal, and nothing once
    /// it is reached.
    pub fn get_reps_until_goal(&self) -> (r: usize)
        ensures
            r == reps_until_goal(self.goal_reps as int, self.completed_reps as int),
            r <= self.goal_reps,
    {
        if self.completed_reps < self.goal_reps {
            self.goal_reps - self.completed_reps
        } else {
            0
        }
    }

    /// The share of the goal that is done, in whole percent, rounded down, and
    /// never more than a hundred.
    pub fn get_rep_percent(&self) -> (p: usize)
        ensures
            p == rep_percent_capped(self.goal_reps as int, self.completed_reps as int),
            p <= 100,
    {
        if self.goal_reps == 0 || self.completed_reps >= self.goal_reps {
            100
        } else {
            proof {
                lemma_rep_percent_bounds(self.goal_reps as int, self.completed_reps as int);
            }
            let done: u128 = self.completed_reps as u128;
            let goal: u128 = self.goal_reps as u128;
            ((100 * done) / goal) as usize
        }
    }

    /// The share of the goal that is done, in whole percent, rounded down; it
    /// goes beyond a hundred once the goal is passed.
    pub fn get_rep_percent_uncapped(&self) -> (p: u128)
        requires
            self.goal_reps > 0,
        ensures
            p == rep_percent(self.goal_reps as int, self.completed_reps as int),
    {
        let done: u128 = self.completed_reps as u128;
        let goal: u128 = self.goal_reps as u128;
        (100 * done) / goal
    }

    /// The key under which the display name of the skill is kept in the
    /// translations: `skill_` and the name in small letters, with an
    /// underscore for each space and `and` for each ampersand.
    pub fn translation_key(&self) -> (key: String)
        ensures
            key@ == skill_key(self.name@),
    {
        let mut key = String::from_str("skill_");
        let ghost name = self.name@;
        for c in it: self.name.as_str().chars()
            invariant
                it.seq() == name,
                key@ == "skill_"@ + key_body(name.take(it.index() as int)),
        {
            let ghost before = name.take(it.index() as int);
            proof {
                let next = name.take(it.index() + 1);
                assert(next.drop_last() =~= before);
                assert(next.last() == c);
            }
            if c == ' ' {
                key.push('_');
            } else if c == '&' {
                key.push('a');
                key.push('n');
                key.push('d');
            } else if 'A' <= c && c <= 'Z' {
                key.push((c as u8 + 32) as char);
            } else {
                key.push(c);
            }
            assert(key@ =~= "skill_"@ + (key_body(before) + key_piece(c)));
        }
        assert(name.take(name.len() as int) =~= name);
        key
    }
}

impl std::str::FromStr for SkillTypes {
    type Err = ();

    /// Reads the name of a kind, as the method of the same name does.
    fn from_str(s: &str) -> (r: Result<SkillTypes, ()>)
        ensures
            r == SkillTypes::named(s@),
    {
        SkillTypes::from_str(s)
    }
}

impl std::str::FromStr for SkillHits {
    type Err = ();

    /// Reads the name of an effect, as the method of the same name does.
    fn from_str(s: &str) -> (r: Result<SkillHits, ()>)
        ensures
            r == SkillHits::named(s@),
    {
        SkillHits::from_str(s)
    }
}

impl std::str::FromStr for SkillHashtags {
    type Err = ();

    /// Reads a tag as the game writes it, as the method of the same name does.
    fn from_str(s: &str) -> (r: Result<SkillHashtags, ()>)
        ensures
            r == SkillHashtags::named(s@),
    {
        SkillHashtags::from_str(s)
    }
}

} // verus!

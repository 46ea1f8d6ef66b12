//! Skills as rows of the store: the lists of a skill are kept as text, each
//! item followed by a comma, and read back item by item.

use vstd::prelude::*;
use vstd::string::*;
use crate::decimal::{
    decimal_digits, decode_number, lemma_decimal_digits_shape, lemma_number_round_trip,
    number_or_zero, push_number,
};
use crate::fields::{
    comma_free, fields, joined, lemma_fields_of_joined, split_fields, texts,
};
use crate::skills::{Skill, SkillHashtags, SkillHits, SkillTypes, SkillView};

verus! {

/// One row of the table of skills, column by column.
#[derive(Debug)]
pub struct SkillRow {
    pub name: String,
    pub skill_type: String,
    pub hits: String,
    pub damage: String,
    pub unlocks: String,
    pub hashtags: String,
    pub recharge_time: String,
    pub goal_reps: usize,
    pub completed_reps: usize,
}

/// What a row holds, with its texts as sequences of characters.
pub struct SkillRowView {
    pub name: Seq<char>,
    pub skill_type: Seq<char>,
    pub hits: Seq<char>,
    pub damage: Seq<char>,
    pub unlocks: Seq<char>,
    pub hashtags: Seq<char>,
    pub recharge_time: Seq<char>,
    pub goal_reps: usize,
    pub completed_reps: usize,
}

impl View for SkillRow {
    type V = SkillRowView;

    open spec fn view(&self) -> SkillRowView {
        SkillRowView {
            name: self.name@,
            skill_type: self.skill_type@,
            hits: self.hits@,
            damage: self.damage@,
            unlocks: self.unlocks@,
            hashtags: self.hashtags@,
            recharge_time: self.recharge_time@,
            goal_reps: self.goal_reps,
            completed_reps: self.completed_reps,
        }
    }
}

/// The decimal texts of a list of numbers.
pub open spec fn number_texts(a: Seq<usize>) -> Seq<Seq<char>> {
    Seq::new(a.len(), |i: int| decimal_digits(a[i] as nat))
}

/// The text that stores a list of numbers: each in decimal, followed by a
/// comma.
pub open spec fn encoded_numbers(a: Seq<usize>) -> Seq<char> {
    joined(number_texts(a))
}

/// The four numbers that a stored text gives: its items in order, each read
/// as a number, with zero for an item that is no number and for an item that
/// is missing.
pub open spec fn decoded_numbers(s: Seq<char>) -> Seq<usize> {
    Seq::new(
        4,
        |i: int|
            if i < fields(s).len() {
                number_or_zero(fields(s)[i])
            } else {
                0
            },
    )
}

/// The written forms of a list of tags.
pub open spec fn hashtag_texts(t: Seq<SkillHashtags>) -> Seq<Seq<char>> {
    Seq::new(t.len(), |i: int| t[i].text())
}

/// The text that stores a list of tags: each as the game writes it, followed
/// by a comma.
pub open spec fn encoded_hashtags(t: Seq<SkillHashtags>) -> Seq<char> {
    joined(hashtag_texts(t))
}

/// The three tags that a stored text gives: its items in order, each read as
/// a tag, with `Empty` for an item that is no tag and for an item that is
/// missing.
pub open spec fn decoded_hashtags(s: Seq<char>) -> Seq<SkillHashtags> {
    Seq::new(
        3,
        |i: int|
            if i < fields(s).len() {
                SkillHashtags::stored(fields(s)[i])
            } else {
                SkillHashtags::Empty
            },
    )
}

/// The row that stores a skill.
pub open spec fn row_of(skill: SkillView) -> SkillRowView {
    SkillRowView {
        name: skill.name,
        skill_type: skill.skill_type.text(),
        hits: skill.hits.text(),
        damage: encoded_numbers(skill.damage),
        unlocks: encoded_numbers(skill.unlocks),
        hashtags: encoded_hashtags(skill.hashtags),
        recharge_time: encoded_numbers(skill.recharge_time),
        goal_reps: skill.goal_reps,
        completed_reps: skill.completed_reps,
    }
}

/// Whether a row can be read: none of its lists of numbers has more than
/// four items, and its list of tags has no more than three.
pub open spec fn readable(row: SkillRowView) -> bool {
    &&& fields(row.damage).len() <= 4
    &&& fields(row.unlocks).len() <= 4
    &&& fields(row.hashtags).len() <= 3
    &&& fields(row.recharge_time).len() <= 4
}

/// The skill that a readable row stores.
pub open spec fn skill_of(row: SkillRowView) -> SkillView {
    SkillView {
        name: row.name,
        skill_type: SkillTypes::stored(row.skill_type),
        hits: SkillHits::stored(row.hits),
        damage: decoded_numbers(row.damage),
        unlocks: decoded_numbers(row.unlocks),
        hashtags: decoded_hashtags(row.hashtags),
        recharge_time: decoded_numbers(row.recharge_time),
        goal_reps: row.goal_reps,
        completed_reps: row.completed_reps,
    }
}

/// The text of a list with one more item is the text of the list, the item
/// and a comma.
pub proof fn lemma_joined_push(items: Seq<Seq<char>>, item: Seq<char>)
    ensures
        joined(items.push(item)) == joined(items) + item + seq![','],
    decreases items.len(),
{
    let all = items.push(item);
    if items.len() == 0 {
        assert(all.skip(1) =~= Seq::<Seq<char>>::empty());
        assert(joined(all.skip(1)) =~= Seq::<char>::empty());
        assert(all[0] == item);
        assert(joined(all) =~= item + seq![',']);
        assert(joined(items) + item + seq![','] =~= item + seq![',']);
    } else {
        lemma_joined_push(items.skip(1), item);
        assert(all.skip(1) =~= items.skip(1).push(item));
        assert(joined(all) =~= joined(items) + item + seq![',']);
    }
}

/// Four numbers that are stored as text and read back are the same four
/// numbers.
pub proof fn lemma_numbers_round_trip(a: Seq<usize>)
    requires
        a.len() == 4,
    ensures
        fields(encoded_numbers(a)) == number_texts(a),
        decoded_numbers(encoded_numbers(a)) == a,
{
    let items = number_texts(a);
    assert forall|i: int| 0 <= i < items.len() implies (#[trigger] items[i]).len() > 0
        && comma_free(items[i]) by {
        lemma_decimal_digits_shape(a[i] as nat);
    }
    lemma_fields_of_joined(items);
    assert forall|i: int| 0 <= i < 4 implies decoded_numbers(encoded_numbers(a))[i] == a[i] by {
        lemma_number_round_trip(a[i] as nat);
        lemma_decimal_digits_shape(a[i] as nat);
        assert(items[i] == decimal_digits(a[i] as nat));
    }
    assert(decoded_numbers(encoded_numbers(a)) =~= a);
}

/// Three tags that are stored as text and read back are the same three tags.
pub proof fn lemma_hashtags_round_trip(t: Seq<SkillHashtags>)
    requires
        t.len() == 3,
    ensures
        fields(encoded_hashtags(t)) == hashtag_texts(t),
        decoded_hashtags(encoded_hashtags(t)) == t,
{
    let items = hashtag_texts(t);
    assert forall|i: int| 0 <= i < items.len() implies (#[trigger] items[i]).len() > 0
        && comma_free(items[i]) by {
        t[i].lemma_text_round_trip();
    }
    lemma_fields_of_joined(items);
    assert forall|i: int| 0 <= i < 3 implies decoded_hashtags(encoded_hashtags(t))[i] == t[i] by {
        t[i].lemma_text_round_trip();
        assert(items[i] == t[i].text());
    }
    assert(decoded_hashtags(encoded_hashtags(t)) =~= t);
}

/// A skill that is stored as a row and read back is the same skill: the row
/// of a skill is readable, and it stores that skill.
pub proof fn lemma_row_round_trip(skill: SkillView)
    requires
        skill.damage.len() == 4,
        skill.unlocks.len() == 4,
        skill.hashtags.len() == 3,
        skill.recharge_time.len() == 4,
    ensures
        readable(row_of(skill)),
        skill_of(row_of(skill)) == skill,
{
    lemma_numbers_round_trip(skill.damage);
    lemma_numbers_round_trip(skill.unlocks);
    lemma_numbers_round_trip(skill.recharge_time);
    lemma_hashtags_round_trip(skill.hashtags);
    skill.skill_type.lemma_name_round_trip();
    skill.hits.lemma_name_round_trip();
}

/// Writes four numbers as one text: each in decimal, followed by a comma.
pub fn encode_numbers(a: &[usize; 4]) -> (s: String)
    ensures
        s@ == encoded_numbers(a@),
{
    let mut s = String::new();
    let mut i: usize = 0;
    assert(number_texts(a@).take(0) =~= Seq::<Seq<char>>::empty());
    while i < 4
        invariant
            0 <= i <= 4,
            a@.len() == 4,
            s@ == joined(number_texts(a@).take(i as int)),
        decreases 4 - i,
    {
        proof {
            let items = number_texts(a@);
            lemma_joined_push(items.take(i as int), items[i as int]);
            assert(items.take(i + 1) =~= items.take(i as int).push(items[i as int]));
        }
        push_number(&mut s, a[i]);
        s.push(',');
        i += 1;
    }
    assert(number_texts(a@).take(4) =~= number_texts(a@));
    s
}

/// Reads four numbers from one text. The items of the text are taken in
/// order; an item that is no number counts as zero, and so does an item that
/// is missing. A text with more than four items cannot be read.
pub fn decode_numbers(text: &str) -> (r: Option<[usize; 4]>)
    ensures
        r is Some <==> fields(text@).len() <= 4,
        r matches Some(a) ==> a@ == decoded_numbers(text@),
{
    let parts = split_fields(text);
    if parts.len() > 4 {
        return None;
    }
    let mut a: [usize; 4] = [0, 0, 0, 0];
    let mut i: usize = 0;
    while i < parts.len()
        invariant
            0 <= i <= parts.len() <= 4,
            texts(parts@) == fields(text@),
            forall|k: int| 0 <= k < i ==> a@[k] == number_or_zero(fields(text@)[k]),
            forall|k: int| i <= k < 4 ==> a@[k] == 0,
        decreases parts.len() - i,
    {
        assert(parts@[i as int]@ == texts(parts@)[i as int]);
        let n = match decode_number(parts[i].as_str()) {
            Some(n) => n,
            None => 0,
        };
        a[i] = n;
        i += 1;
    }
    assert(a@ =~= decoded_numbers(text@));
    Some(a)
}

/// Writes three tags as one text: each as the game writes it, followed by a
/// comma.
pub fn encode_hashtags(t: &[SkillHashtags; 3]) -> (s: String)
    ensures
        s@ == encoded_hashtags(t@),
{
    let mut s = String::new();
    let mut i: usize = 0;
    assert(hashtag_texts(t@).take(0) =~= Seq::<Seq<char>>::empty());
    while i < 3
        invariant
            0 <= i <= 3,
            t@.len() == 3,
            s@ == joined(hashtag_texts(t@).take(i as int)),
        decreases 3 - i,
    {
        proof {
            let items = hashtag_texts(t@);
            lemma_joined_push(items.take(i as int), items[i as int]);
            assert(items.take(i + 1) =~= items.take(i as int).push(items[i as int]));
        }
        let tag = t[i].to_string();
        s.append(tag.as_str());
        s.push(',');
        i += 1;
    }
    assert(hashtag_texts(t@).take(3) =~= hashtag_texts(t@));
    s
}

/// Reads three tags from one text. The items of the text are taken in order;
/// an item that is no tag counts as `Empty`, and so does an item that is
/// missing. A text with more than three items cannot be read.
pub fn decode_hashtags(text: &str) -> (r: Option<[SkillHashtags; 3]>)
    ensures
        r is Some <==> fields(text@).len() <= 3,
        r matches Some(t) ==> t@ == decoded_hashtags(text@),
{
    let parts = split_fields(text);
    if parts.len() > 3 {
        return None;
    }
    let mut t: [SkillHashtags; 3] = [
        SkillHashtags::Empty,
        SkillHashtags::Empty,
        SkillHashtags::Empty,
    ];
    let mut i: usize = 0;
    while i < parts.len()
        invariant
            0 <= i <= parts.len() <= 3,
            texts(parts@) == fields(text@),
            forall|k: int| 0 <= k < i ==> t@[k] == SkillHashtags::stored(fields(text@)[k]),
            forall|k: int| i <= k < 3 ==> t@[k] == SkillHashtags::Empty,
        decreases parts.len() - i,
    {
        assert(parts@[i as int]@ == texts(parts@)[i as int]);
        let tag = SkillHashtags::from_stored(parts[i].as_str());
        t[i] = tag;
        i += 1;
    }
    assert(t@ =~= decoded_hashtags(text@));
    Some(t)
}

impl Skill {
    /// The row that stores the skill.
    pub fn to_row(&self) -> (row: SkillRow)
        ensures
            row@ == row_of(self@),
    {
        SkillRow {
            name: self.name.clone(),
            skill_type: self.skill_type.to_string(),
            hits: self.hits.to_string(),
            damage: encode_numbers(&self.damage),
            unlocks: encode_numbers(&self.unlocks),
            hashtags: encode_hashtags(&self.hashtags),
            recharge_time: encode_numbers(&self.recharge_time),
            goal_reps: self.goal_reps,
            completed_reps: self.completed_reps,
        }
    }

    /// Reads a skill from its row. A row with too many items in one of its
    /// lists cannot be read.
    pub fn from_row(row: &SkillRow) -> (r: Option<Skill>)
        ensures
            r is Some <==> readable(row@),
            r matches Some(skill) ==> skill@ == skill_of(row@),
    {
        let damage = decode_numbers(row.damage.as_str());
        let unlocks = decode_numbers(row.unlocks.as_str());
        let hashtags = decode_hashtags(row.hashtags.as_str());
        let recharge_time = decode_numbers(row.recharge_time.as_str());
        match (damage, unlocks, hashtags, recharge_time) {
            (Some(damage), Some(unlocks), Some(hashtags), Some(recharge_time)) => Some(
                Skill {
                    name: row.name.clone(),
                    skill_type: SkillTypes::from_stored(row.skill_type.as_str()),
                    hits: SkillHits::from_stored(row.hits.as_str()),
                    damage,
                    unlocks,
                    hashtags,
                    recharge_time,
                    goal_reps: row.goal_reps,
                    completed_reps: row.completed_reps,
                },
            ),
            _ => None,
        }
    }

    /// Reads all skills from their rows, in the order of the rows. Where one
    /// of the rows cannot be read, nothing is read.
    pub fn get_all_skills(rows: &Vec<SkillRow>) -> (r: Option<Vec<Skill>>)
        ensures
            r is Some <==> forall|i: int| 0 <= i < rows@.len() ==> readable(#[trigger] rows@[i]@),
            r matches Some(skills) ==> skills@.len() == rows@.len() && forall|i: int|
                0 <= i < rows@.len() ==> (#[trigger] skills@[i])@ == skill_of(rows@[i]@),
    {
        let mut skills: Vec<Skill> = Vec::new();
        let mut i: usize = 0;
        while i < rows.len()
            invariant
                0 <= i <= rows.len(),
                skills@.len() == i,
                forall|k: int| 0 <= k < i ==> readable(#[trigger] rows@[k]@),
                forall|k: int| 0 <= k < i ==> (#[trigger] skills@[k])@ == skill_of(rows@[k]@),
            decreases rows.len() - i,
        {
            match Skill::from_row(&rows[i]) {
                Some(skill) => {
                    skills.push(skill);
                },
                None => {
                    assert(!readable(rows@[i as int]@));
                    return None;
                },
            }
            i += 1;
        }
        Some(skills)
    }
}

/// How a write changes the counter of completed repetitions.
#[derive(Debug, PartialEq, Eq, Clone, Copy, Structural)]
pub enum RepsChange {
    /// The repetitions are added to the counter.
    Add,
    /// The repetitions take the place of the counter.
    Overwrite,
}

/// One write to the store: a change of the counter of completed repetitions
/// in the row of the skill that goes by a name. A store that holds no skill
/// of that name is left as it is.
#[derive(Debug)]
pub struct RepsUpdate {
    pub name: String,
    pub change: RepsChange,
    pub reps: usize,
}

/// What a write holds, with the name as a sequence of characters.
pub struct RepsUpdateView {
    pub name: Seq<char>,
    pub change: RepsChange,
    pub reps: usize,
}

impl View for RepsUpdate {
    type V = RepsUpdateView;

    open spec fn view(&self) -> RepsUpdateView {
        RepsUpdateView { name: self.name@, change: self.change, reps: self.reps }
    }
}

impl Skill {
    /// The write that adds the repetitions of a day to the skill's counter.
    pub fn update_reps(&self, reps_today: usize) -> (update: RepsUpdate)
        ensures
            update@ == (RepsUpdateView {
                name: self.name@,
                change: RepsChange::Add,
                reps: reps_today,
            }),
    {
        RepsUpdate { name: self.name.clone(), change: RepsChange::Add, reps: reps_today }
    }

    /// The write that sets the skill's counter to a total.
    pub fn set_reps(&self, total_reps: usize) -> (update: RepsUpdate)
        ensures
            update@ == (RepsUpdateView {
                name: self.name@,
                change: RepsChange::Overwrite,
                reps: total_reps,
            }),
    {
        RepsUpdate { name: self.name.clone(), change: RepsChange::Overwrite, reps: total_reps }
    }
}

} // verus!

//! The log of workouts: what one entry records, and in which order the
//! entries are listed.

use vstd::prelude::*;
use vstd::string::*;
use crate::decimal::{decimal_digits, decode_number, number_or_zero, push_number};
use crate::skills::{Skill, SkillView};

verus! {

/// One logged session: the skills that were trained, each with the
/// repetitions of that day, which are never zero.
#[derive(Debug)]
pub struct Workout {
    pub skill: Vec<(Skill, usize)>,
}

impl View for Workout {
    type V = Seq<(SkillView, usize)>;

    open spec fn view(&self) -> Seq<(SkillView, usize)> {
        Seq::new(self.skill@.len(), |i: int| (self.skill@[i].0@, self.skill@[i].1))
    }
}

/// A moment in local time, to the second.
#[derive(Debug, Clone, Copy, PartialEq, Eq, Structural)]
pub struct Timestamp {
    pub year: i32,
    pub month: u32,
    pub day: u32,
    pub hour: u32,
    pub minute: u32,
    pub second: u32,
}

/// The repetitions that a typed text counts for: the number it writes, and
/// zero where it is empty or writes no number.
pub open spec fn counted(text: Seq<char>) -> usize {
    number_or_zero(text)
}

/// The pairs that are logged for the first `n` skills and the first `n`
/// typed texts: each skill with the repetitions that its text counts for,
/// without the skills whose text counts for zero.
pub open spec fn logged(skills: Seq<Skill>, reps: Seq<String>, n: nat) -> Seq<(SkillView, usize)>
    recommends
        n <= skills.len(),
        n <= reps.len(),
    decreases n,
{
    if n == 0 {
        Seq::empty()
    } else {
        let before = logged(skills, reps, (n - 1) as nat);
        let count = counted(reps[n - 1]@);
        if count != 0 {
            before.push((skills[n - 1]@, count))
        } else {
            before
        }
    }
}

/// The smaller of two lengths.
pub open spec fn shorter(a: nat, b: nat) -> nat {
    if a <= b {
        a
    } else {
        b
    }
}

/// No more pairs are logged than skills were given, and every pair that is
/// logged has a count that is not zero.
pub proof fn lemma_logged_counts(skills: Seq<Skill>, reps: Seq<String>, n: nat)
    requires
        n <= skills.len(),
        n <= reps.len(),
    ensures
        logged(skills, reps, n).len() <= n,
        forall|k: int|
            0 <= k < logged(skills, reps, n).len() ==> (#[trigger] logged(skills, reps, n)[k]).1
                != 0,
    decreases n,
{
    if n > 0 {
        lemma_logged_counts(skills, reps, (n - 1) as nat);
    }
}

/// The repetitions that a typed text counts for: the number it writes, and
/// zero where it is empty or writes no number.
pub fn reps_entered(text: &str) -> (count: usize)
    ensures
        count == counted(text@),
{
    match decode_number(text) {
        Some(n) => n,
        None => 0,
    }
}

/// Makes the entry that is saved for a day's input. The skills and the typed
/// texts are paired in order, as far as the shorter list goes. A pair whose
/// text is empty, writes no number or writes zero is left out; an input that
/// leaves nothing still gives an entry, with no pair in it.
pub fn save_workout_to_db(skill_list: Vec<Skill>, rep_list: Vec<String>) -> (workout: Workout)
    ensures
        workout@ == logged(
            skill_list@,
            rep_list@,
            shorter(skill_list@.len(), rep_list@.len()),
        ),
{
    let mut workout = Workout { skill: Vec::new() };
    let mut i: usize = 0;
    assert(workout@ =~= logged(skill_list@, rep_list@, 0));
    while i < skill_list.len() && i < rep_list.len()
        invariant
            0 <= i <= skill_list.len(),
            i <= rep_list.len(),
            workout@ == logged(skill_list@, rep_list@, i as nat),
        decreases skill_list.len() - i,
    {
        let rep_count = reps_entered(rep_list[i].as_str());
        if rep_count != 0 {
            let ghost before = workout@;
            workout.skill.push((skill_list[i].clone(), rep_count));
            assert(workout@ =~= before.push((skill_list@[i as int]@, rep_count)));
        }
        i += 1;
    }
    workout
}

/// The log in the order in which it is listed: the entry that was appended
/// last comes first.
pub open spec fn newest_first<T>(log: Seq<T>) -> Seq<T> {
    log.reverse()
}

/// Whether `a` is an earlier moment than `b`.
pub open spec fn earlier(a: Timestamp, b: Timestamp) -> bool {
    ||| a.year < b.year
    ||| a.year == b.year && a.month < b.month
    ||| a.year == b.year && a.month == b.month && a.day < b.day
    ||| a.year == b.year && a.month == b.month && a.day == b.day && a.hour < b.hour
    ||| a.year == b.year && a.month == b.month && a.day == b.day && a.hour == b.hour && a.minute
        < b.minute
    ||| a.year == b.year && a.month == b.month && a.day == b.day && a.hour == b.hour && a.minute
        == b.minute && a.second < b.second
}

/// Puts the rows of the log, which are read in the order in which they were
/// appended, into the order in which they are listed: the newest first.
pub fn get_workouts_from_db(rows: Vec<(Timestamp, Workout)>) -> (workouts: Vec<
    (Timestamp, Workout),
>)
    ensures
        workouts@ == newest_first(rows@),
{
    let mut rows = rows;
    let ghost all = rows@;
    let mut workouts: Vec<(Timestamp, Workout)> = Vec::new();
    while rows.len() > 0
        invariant
            rows@.len() <= all.len(),
            rows@ == all.take(rows@.len() as int),
            workouts@.len() == all.len() - rows@.len(),
            forall|k: int|
                0 <= k < workouts@.len() ==> #[trigger] workouts@[k] == all[all.len() - 1 - k],
        decreases rows.len(),
    {
        let ghost n = rows@.len();
        match rows.pop() {
            Some(row) => {
                assert(row == all[n - 1]);
                workouts.push(row);
            },
            None => {},
        }
    }
    assert(workouts@ =~= all.reverse());
    workouts
}

/// After three workouts are appended, the listing starts with the third,
/// the second and the first of them, and goes on as it did before.
pub proof fn lemma_three_appends<T>(log: Seq<T>, first: T, second: T, third: T)
    ensures
        newest_first(log.push(first).push(second).push(third)) == seq![third, second, first]
            + newest_first(log),
{
    let now = log.push(first).push(second).push(third);
    assert(newest_first(now) =~= seq![third, second, first] + newest_first(log));
}

/// Where every workout was appended at a later moment than the one before
/// it, the listing goes strictly back in time.
pub proof fn lemma_listing_goes_back_in_time<T>(log: Seq<(Timestamp, T)>)
    requires
        forall|i: int|
            0 <= i < log.len() - 1 ==> earlier((#[trigger] log[i]).0, log[i + 1].0),
    ensures
        newest_first(log).len() == log.len(),
        forall|i: int|
            0 <= i < log.len() - 1 ==> earlier(
                newest_first(log)[i + 1].0,
                (#[trigger] newest_first(log)[i]).0,
            ),
{
    let listed = newest_first(log);
    assert forall|i: int| 0 <= i < log.len() - 1 implies earlier(
        listed[i + 1].0,
        (#[trigger] listed[i]).0,
    ) by {
        let k = log.len() - 2 - i;
        assert(earlier(log[k].0, log[k + 1].0));
    }
}

/// A number below a hundred in two places, with a leading zero where it is
/// below ten; a larger number in as many places as it takes.
pub open spec fn two_places(n: nat) -> Seq<char> {
    if n < 10 {
        seq!['0'] + decimal_digits(n)
    } else {
        decimal_digits(n)
    }
}

/// A year as it is written: a minus sign before the years below zero.
pub open spec fn year_text(year: int) -> Seq<char> {
    if year < 0 {
        seq!['-'] + decimal_digits((-year) as nat)
    } else {
        decimal_digits(year as nat)
    }
}

/// The label of a moment in the list of workouts: year, month and day with
/// slashes between them, then the hour and the minute.
pub open spec fn label_of(t: Timestamp) -> Seq<char> {
    year_text(t.year as int) + seq!['/'] + two_places(t.month as nat) + seq!['/'] + two_places(
        t.day as nat,
    ) + seq![' ', '-', ' '] + two_places(t.hour as nat) + seq![':'] + two_places(t.minute as nat)
}

/// Appends `n` in two places to `out`.
fn push_two_places(out: &mut String, n: u32)
    ensures
        final(out)@ == old(out)@ + two_places(n as nat),
{
    if n < 10 {
        out.push('0');
    }
    push_number(out, n as usize);
}

impl Timestamp {
    /// The label of the moment in the list of workouts, such as
    /// `2023/01/09 - 07:05`.
    pub fn label(&self) -> (s: String)
        ensures
            s@ == label_of(*self),
    {
        let mut s = String::new();
        if self.year < 0 {
            s.push('-');
            push_number(&mut s, (-(self.year as i64)) as usize);
        } else {
            push_number(&mut s, self.year as usize);
        }
        assert(s@ =~= year_text(self.year as int));
        s.push('/');
        push_two_places(&mut s, self.month);
        s.push('/');
        push_two_places(&mut s, self.day);
        s.push(' ');
        s.push('-');
        s.push(' ');
        push_two_places(&mut s, self.hour);
        s.push(':');
        push_two_places(&mut s, self.minute);
        assert(s@ =~= label_of(*self));
        s
    }
}

} // verus!

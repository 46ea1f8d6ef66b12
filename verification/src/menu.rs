//! The screens of the tracker: what follows from what the user does on them,
//! and what they show of the skills.

use vstd::prelude::*;
use crate::decimal::{decode_number, parsed_usize};
use crate::lang::Languages;
use crate::rows::{RepsChange, RepsUpdate, RepsUpdateView};
use crate::skills::{rep_percent, reps_until_goal, Skill};
use crate::workout::{counted, reps_entered, shorter};

verus! {

/// The screens below the main menu. The two screens that take input carry a
/// flag that says whether the input waits to be confirmed.
#[derive(Debug, PartialEq, Eq, Clone, Copy, Structural)]
pub enum Menu {
    LogWorkout(bool),
    ViewProgress,
    ViewWorkouts,
    ViewSkills,
    SetReps(bool),
    LanguageChoice,
}

/// What the user did.
#[derive(Debug, PartialEq, Eq, Clone, Copy, Structural)]
pub enum MenuEvent {
    /// One of the buttons of the main menu.
    Open(Menu),
    /// The button that leads back to the main menu.
    Back,
    /// The button that asks to save what was typed.
    Save,
    /// The two buttons of the window that asks for confirmation.
    Confirm,
    Cancel,
    /// A language was picked from the list.
    Pick(Languages),
}

/// What has to be done to the store or the session after an event.
#[derive(Debug, PartialEq, Eq, Clone, Copy, Structural)]
pub enum MenuAction {
    Nothing,
    /// Add the typed repetitions to the skills and append the workout.
    StoreWorkout,
    /// Overwrite the repetitions of the skills with what was typed.
    StoreReps,
    /// Show everything in this language from now on.
    SwitchLanguage(Languages),
}

/// The screen as it is opened from the main menu: input does not wait to be
/// confirmed before anything is typed.
pub open spec fn opened(screen: Menu) -> Menu {
    match screen {
        Menu::LogWorkout(_) => Menu::LogWorkout(false),
        Menu::SetReps(_) => Menu::SetReps(false),
        _ => screen,
    }
}

/// The screen that follows `menu` after `event`, and what has to be done.
/// `None` is the main menu. An event that a screen does not offer changes
/// nothing.
pub open spec fn after(menu: Option<Menu>, event: MenuEvent) -> (Option<Menu>, MenuAction) {
    match (menu, event) {
        (None, MenuEvent::Open(screen)) => (Some(opened(screen)), MenuAction::Nothing),
        (Some(_), MenuEvent::Back) => (None, MenuAction::Nothing),
        (Some(Menu::LogWorkout(_)), MenuEvent::Save) => (
            Some(Menu::LogWorkout(true)),
            MenuAction::Nothing,
        ),
        (Some(Menu::LogWorkout(true)), MenuEvent::Confirm) => (
            Some(Menu::LogWorkout(false)),
            MenuAction::StoreWorkout,
        ),
        (Some(Menu::LogWorkout(true)), MenuEvent::Cancel) => (
            Some(Menu::LogWorkout(false)),
            MenuAction::Nothing,
        ),
        (Some(Menu::SetReps(_)), MenuEvent::Save) => (
            Some(Menu::SetReps(true)),
            MenuAction::Nothing,
        ),
        (Some(Menu::SetReps(true)), MenuEvent::Confirm) => (
            Some(Menu::SetReps(false)),
            MenuAction::StoreReps,
        ),
        (Some(Menu::SetReps(true)), MenuEvent::Cancel) => (
            Some(Menu::SetReps(false)),
            MenuAction::Nothing,
        ),
        (Some(Menu::LanguageChoice), MenuEvent::Pick(language)) => (
            Some(Menu::LanguageChoice),
            MenuAction::SwitchLanguage(language),
        ),
        _ => (menu, MenuAction::Nothing),
    }
}

/// Nothing is written to the store but on a confirmation that was asked for:
/// an event stores something only where it is `Confirm` on a screen whose
/// input waits to be confirmed, and the input then waits no longer. The way
/// back leads from every screen to the main menu.
pub proof fn lemma_store_needs_confirmation(menu: Option<Menu>, event: MenuEvent)
    ensures
        after(menu, event).1 == MenuAction::StoreWorkout <==> menu == Some(Menu::LogWorkout(true))
            && event == MenuEvent::Confirm,
        after(menu, event).1 == MenuAction::StoreReps <==> menu == Some(Menu::SetReps(true))
            && event == MenuEvent::Confirm,
        after(menu, event).1 == MenuAction::StoreWorkout ==> after(menu, event).0 == Some(
            Menu::LogWorkout(false),
        ),
        after(menu, event).1 == MenuAction::StoreReps ==> after(menu, event).0 == Some(
            Menu::SetReps(false),
        ),
        menu is Some && event == MenuEvent::Back ==> after(menu, event).0 is None,
{
}

/// The main menu: each of its buttons opens a screen.
pub fn main_menu(event: MenuEvent) -> (r: (Option<Menu>, MenuAction))
    ensures
        r == after(None, event),
{
    match event {
        MenuEvent::Open(Menu::LogWorkout(_)) => (
            Some(Menu::LogWorkout(false)),
            MenuAction::Nothing,
        ),
        MenuEvent::Open(Menu::SetReps(_)) => (Some(Menu::SetReps(false)), MenuAction::Nothing),
        MenuEvent::Open(screen) => (Some(screen), MenuAction::Nothing),
        _ => (None, MenuAction::Nothing),
    }
}

/// The screen on which the repetitions of a day are typed. Saving asks for
/// confirmation; confirming stores the workout, and cancelling does not.
pub fn log_workout(pending: bool, event: MenuEvent) -> (r: (Option<Menu>, MenuAction))
    ensures
        r == after(Some(Menu::LogWorkout(pending)), event),
{
    match event {
        MenuEvent::Back => (None, MenuAction::Nothing),
        MenuEvent::Save => (Some(Menu::LogWorkout(true)), MenuAction::Nothing),
        MenuEvent::Confirm => if pending {
            (Some(Menu::LogWorkout(false)), MenuAction::StoreWorkout)
        } else {
            (Some(Menu::LogWorkout(pending)), MenuAction::Nothing)
        },
        MenuEvent::Cancel => (Some(Menu::LogWorkout(false)), MenuAction::Nothing),
        _ => (Some(Menu::LogWorkout(pending)), MenuAction::Nothing),
    }
}

/// The screen on which the totals of the skills are typed. Saving asks for
/// confirmation; confirming stores the totals, and cancelling does not.
pub fn set_reps(pending: bool, event: MenuEvent) -> (r: (Option<Menu>, MenuAction))
    ensures
        r == after(Some(Menu::SetReps(pending)), event),
{
    match event {
        MenuEvent::Back => (None, MenuAction::Nothing),
        MenuEvent::Save => (Some(Menu::SetReps(true)), MenuAction::Nothing),
        MenuEvent::Confirm => if pending {
            (Some(Menu::SetReps(false)), MenuAction::StoreReps)
        } else {
            (Some(Menu::SetReps(pending)), MenuAction::Nothing)
        },
        MenuEvent::Cancel => (Some(Menu::SetReps(false)), MenuAction::Nothing),
        _ => (Some(Menu::SetReps(pending)), MenuAction::Nothing),
    }
}

/// The screen that shows the progress of the skills: it only leads back.
pub fn view_progess(event: MenuEvent) -> (r: (Option<Menu>, MenuAction))
    ensures
        r == after(Some(Menu::ViewProgress), event),
{
    match event {
        MenuEvent::Back => (None, MenuAction::Nothing),
        _ => (Some(Menu::ViewProgress), MenuAction::Nothing),
    }
}

/// The screen that lists the skills: it only leads back.
pub fn view_skills(event: MenuEvent) -> (r: (Option<Menu>, MenuAction))
    ensures
        r == after(Some(Menu::ViewSkills), event),
{
    match event {
        MenuEvent::Back => (None, MenuAction::Nothing),
        _ => (Some(Menu::ViewSkills), MenuAction::Nothing),
    }
}

/// The screen that lists the workouts: it only leads back.
pub fn view_workouts(event: MenuEvent) -> (r: (Option<Menu>, MenuAction))
    ensures
        r == after(Some(Menu::ViewWorkouts), event),
{
    match event {
        MenuEvent::Back => (None, MenuAction::Nothing),
        _ => (Some(Menu::ViewWorkouts), MenuAction::Nothing),
    }
}

/// The screen on which the language is picked: picking one switches to it
/// and stays on the screen.
pub fn language_choice(event: MenuEvent) -> (r: (Option<Menu>, MenuAction))
    ensures
        r == after(Some(Menu::LanguageChoice), event),
{
    match event {
        MenuEvent::Back => (None, MenuAction::Nothing),
        MenuEvent::Pick(language) => (
            Some(Menu::LanguageChoice),
            MenuAction::SwitchLanguage(language),
        ),
        _ => (Some(Menu::LanguageChoice), MenuAction::Nothing),
    }
}

/// Hands the event to the screen that is shown, and gives the screen that
/// follows and what has to be done.
pub fn display_menu(menu: Option<Menu>, event: MenuEvent) -> (r: (Option<Menu>, MenuAction))
    ensures
        r == after(menu, event),
{
    match menu {
        Some(Menu::LogWorkout(pending)) => log_workout(pending, event),
        Some(Menu::ViewProgress) => view_progess(event),
        Some(Menu::SetReps(pending)) => set_reps(pending, event),
        Some(Menu::ViewSkills) => view_skills(event),
        Some(Menu::LanguageChoice) => language_choice(event),
        Some(Menu::ViewWorkouts) => view_workouts(event),
        None => main_menu(event),
    }
}

/// Whether a typed text is shown for confirmation, and written where totals
/// are set: it has to write a number.
pub fn is_valid_input(text: &str) -> (r: bool)
    ensures
        r == parsed_usize(text@) is Some,
{
    decode_number(text).is_some()
}

/// The writes that add a day's repetitions to the first `n` skills: one for
/// each skill, in order, with the repetitions that its typed text counts
/// for, also where that is zero.
pub open spec fn additions(skills: Seq<Skill>, inputs: Seq<String>, n: nat) -> Seq<
    RepsUpdateView,
>
    recommends
        n <= skills.len(),
        n <= inputs.len(),
{
    Seq::new(
        n,
        |i: int|
            RepsUpdateView {
                name: skills[i].name@,
                change: RepsChange::Add,
                reps: counted(inputs[i]@),
            },
    )
}

/// The writes that set the totals of the first `n` skills: one for each
/// skill whose typed text writes a number, in order, and none for the
/// others.
pub open spec fn overwrites(skills: Seq<Skill>, inputs: Seq<String>, n: nat) -> Seq<
    RepsUpdateView,
>
    recommends
        n <= skills.len(),
        n <= inputs.len(),
    decreases n,
{
    if n == 0 {
        Seq::empty()
    } else {
        let before = overwrites(skills, inputs, (n - 1) as nat);
        match parsed_usize(inputs[n - 1]@) {
            Some(total) => before.push(
                RepsUpdateView {
                    name: skills[n - 1].name@,
                    change: RepsChange::Overwrite,
                    reps: total,
                },
            ),
            None => before,
        }
    }
}

/// What a list of writes holds.
pub open spec fn update_views(updates: Seq<RepsUpdate>) -> Seq<RepsUpdateView> {
    Seq::new(updates.len(), |i: int| updates[i]@)
}

/// The writes of a confirmed workout: every skill is paired with its typed
/// text, as far as the shorter list goes, and gets the repetitions added
/// that the text counts for.
pub fn workout_updates(skills: &Vec<Skill>, inputs: &Vec<String>) -> (updates: Vec<RepsUpdate>)
    ensures
        update_views(updates@) == additions(
            skills@,
            inputs@,
            shorter(skills@.len(), inputs@.len()),
        ),
{
    let mut updates: Vec<RepsUpdate> = Vec::new();
    let mut i: usize = 0;
    assert(update_views(updates@) =~= additions(skills@, inputs@, 0));
    while i < skills.len() && i < inputs.len()
        invariant
            0 <= i <= skills.len(),
            i <= inputs.len(),
            update_views(updates@) == additions(skills@, inputs@, i as nat),
        decreases skills.len() - i,
    {
        let reps = reps_entered(inputs[i].as_str());
        let ghost before = update_views(updates@);
        let update = skills[i].update_reps(reps);
        updates.push(update);
        assert(update_views(updates@) =~= before.push(update@));
        assert(additions(skills@, inputs@, (i + 1) as nat) =~= additions(
            skills@,
            inputs@,
            i as nat,
        ).push(update@));
        i += 1;
    }
    updates
}

/// The writes of confirmed totals: every skill is paired with its typed
/// text, as far as the shorter list goes, and gets its counter set where the
/// text writes a number.
pub fn total_updates(skills: &Vec<Skill>, inputs: &Vec<String>) -> (updates: Vec<RepsUpdate>)
    ensures
        update_views(updates@) == overwrites(
            skills@,
            inputs@,
            shorter(skills@.len(), inputs@.len()),
        ),
{
    let mut updates: Vec<RepsUpdate> = Vec::new();
    let mut i: usize = 0;
    assert(update_views(updates@) =~= overwrites(skills@, inputs@, 0));
    while i < skills.len() && i < inputs.len()
        invariant
            0 <= i <= skills.len(),
            i <= inputs.len(),
            update_views(updates@) == overwrites(skills@, inputs@, i as nat),
        decreases skills.len() - i,
    {
        match decode_number(inputs[i].as_str()) {
            Some(total) => {
                let ghost before = update_views(updates@);
                let update = skills[i].set_reps(total);
                updates.push(update);
                assert(update_views(updates@) =~= before.push(update@));
            },
            None => {},
        }
        i += 1;
    }
    updates
}

/// How far a skill has come, in the steps by which the progress screen
/// colours it.
#[derive(Debug, PartialEq, Eq, Clone, Copy, Structural)]
pub enum ProgressBand {
    /// Less than a quarter of the goal.
    Started,
    /// A quarter of the goal or more.
    Quarter,
    /// Half of the goal or more.
    Half,
    /// Three quarters of the goal or more.
    ThreeQuarters,
    /// The goal or more.
    Reached,
    /// One and a half times the goal or more.
    HalfAgain,
    /// Twice the goal or more.
    Doubled,
}

/// The step that a share of the goal, in percent, falls into.
pub open spec fn band_of_percent(percent: int) -> ProgressBand {
    if percent >= 200 {
        ProgressBand::Doubled
    } else if percent >= 150 {
        ProgressBand::HalfAgain
    } else if percent >= 100 {
        ProgressBand::Reached
    } else if percent >= 75 {
        ProgressBand::ThreeQuarters
    } else if percent >= 50 {
        ProgressBand::Half
    } else if percent >= 25 {
        ProgressBand::Quarter
    } else {
        ProgressBand::Started
    }
}

/// The step that a skill falls into. Without a goal, any repetition at all
/// is beyond every step, and none is below every step.
pub open spec fn band_of(goal: int, completed: int) -> ProgressBand {
    if goal > 0 {
        band_of_percent(rep_percent(goal, completed))
    } else if completed > 0 {
        ProgressBand::Doubled
    } else {
        ProgressBand::Started
    }
}

/// The step by which the progress screen colours a skill.
pub fn progress_band(skill: &Skill) -> (band: ProgressBand)
    ensures
        band == band_of(skill.goal_reps as int, skill.completed_reps as int),
{
    if skill.goal_reps == 0 {
        if skill.completed_reps > 0 {
            ProgressBand::Doubled
        } else {
            ProgressBand::Started
        }
    } else {
        let percent = skill.get_rep_percent_uncapped();
        if percent >= 200 {
            ProgressBand::Doubled
        } else if percent >= 150 {
            ProgressBand::HalfAgain
        } else if percent >= 100 {
            ProgressBand::Reached
        } else if percent >= 75 {
            ProgressBand::ThreeQuarters
        } else if percent >= 50 {
            ProgressBand::Half
        } else if percent >= 25 {
            ProgressBand::Quarter
        } else {
            ProgressBand::Started
        }
    }
}

/// The sums in the last line of the progress screen.
#[derive(Debug, PartialEq, Eq, Clone, Copy, Structural)]
pub struct Totals {
    /// The repetitions done, over all skills.
    pub completed: u128,
    /// The repetitions still to do, over all skills.
    pub remaining: u128,
    /// The goals of all skills.
    pub goal: u128,
}

/// The sums over the first `n` skills.
pub open spec fn totals_of(skills: Seq<Skill>, n: nat) -> (int, int, int)
    recommends
        n <= skills.len(),
    decreases n,
{
    if n == 0 {
        (0, 0, 0)
    } else {
        let before = totals_of(skills, (n - 1) as nat);
        let skill = skills[n - 1];
        (
            before.0 + skill.completed_reps,
            before.1 + reps_until_goal(skill.goal_reps as int, skill.completed_reps as int),
            before.2 + skill.goal_reps,
        )
    }
}

/// The sums in the last line of the progress screen: the repetitions done,
/// the repetitions still to do and the goals, each over all skills.
pub fn totals(skills: &Vec<Skill>) -> (t: Totals)
    ensures
        t.completed == totals_of(skills@, skills@.len()).0,
        t.remaining == totals_of(skills@, skills@.len()).1,
        t.goal == totals_of(skills@, skills@.len()).2,
        t.remaining <= t.goal,
{
    let mut t = Totals { completed: 0, remaining: 0, goal: 0 };
    let mut i: usize = 0;
    while i < skills.len()
        invariant
            0 <= i <= skills.len(),
            t.completed == totals_of(skills@, i as nat).0,
            t.remaining == totals_of(skills@, i as nat).1,
            t.goal == totals_of(skills@, i as nat).2,
            t.completed <= i * 0xffff_ffff_ffff_ffff,
            t.goal <= i * 0xffff_ffff_ffff_ffff,
            t.remaining <= t.goal,
        decreases skills.len() - i,
    {
        let skill = &skills[i];
        assert((i + 1) * 0xffff_ffff_ffff_ffff <= 0xffff_ffff_ffff_ffff * 0xffff_ffff_ffff_ffff)
            by (nonlinear_arith)
            requires
                i < 0xffff_ffff_ffff_ffff,
        ;
        assert((i + 1) * 0xffff_ffff_ffff_ffff == i * 0xffff_ffff_ffff_ffff
            + 0xffff_ffff_ffff_ffff) by (nonlinear_arith);
        t = Totals {
            completed: t.completed + (skill.completed_reps as u128),
            remaining: t.remaining + (skill.get_reps_until_goal() as u128),
            goal: t.goal + (skill.goal_reps as u128),
        };
        i += 1;
    }
    t
}

} // verus!

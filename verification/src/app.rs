//! The session of the tracker: the skills as they were last read, what the
//! user has typed, the screen that is shown and the names in the language of
//! the display.

use vstd::prelude::*;
use crate::lang::{caches_hold, get_language_hashmaps, Languages, Translation};
use crate::menu::{after, display_menu, Menu, MenuAction, MenuEvent};
use crate::names::{HashtagNames, NameCache};
use crate::settings::Settings;
use crate::skills::Skill;

verus! {

/// The state of a running tracker.
pub struct RingFitApp {
    pub skills: Vec<Skill>,
    /// What is typed for each skill, in the order of the skills.
    pub input_reps: Vec<String>,
    /// The screen that is shown; `None` is the main menu.
    pub menu: Option<Menu>,
    pub language: Languages,
    pub hashtag_names: HashtagNames,
    pub skill_names: NameCache,
    pub menu_names: NameCache,
}

/// Whether `inputs` are `n` texts with nothing typed in them.
pub open spec fn blank(inputs: Seq<String>, n: nat) -> bool {
    &&& inputs.len() == n
    &&& forall|i: int| 0 <= i < n ==> (#[trigger] inputs[i])@.len() == 0
}

/// As many texts as asked for, with nothing typed in them.
pub fn blank_inputs(n: usize) -> (inputs: Vec<String>)
    ensures
        blank(inputs@, n as nat),
{
    let mut inputs: Vec<String> = Vec::new();
    let mut i: usize = 0;
    while i < n
        invariant
            0 <= i <= n,
            blank(inputs@, i as nat),
        decreases n - i,
    {
        inputs.push(String::new());
        i += 1;
    }
    inputs
}

impl RingFitApp {
    /// Whether the session has one typed text for each skill.
    pub open spec fn well_formed(&self) -> bool {
        self.input_reps@.len() == self.skills@.len()
    }

    /// Whether the names of the session are those of its language.
    pub open spec fn names_hold(
        &self,
        stored: Seq<Translation>,
        all_menus: Seq<Translation>,
    ) -> bool {
        caches_hold(
            (self.skill_names, self.hashtag_names, self.menu_names),
            self.skills@,
            stored,
            all_menus,
            self.language,
        )
    }

    /// Starts a session from what was read at startup: the settings, the
    /// skills, the stored table of translations and the bundled one. It
    /// shows the main menu in the language of the settings, and nothing is
    /// typed yet.
    pub fn new(
        settings: &Settings,
        all_skills: Vec<Skill>,
        stored: &Vec<Translation>,
        all_menus: &Vec<Translation>,
    ) -> (rfa: RingFitApp)
        ensures
            rfa.skills == all_skills,
            blank(rfa.input_reps@, all_skills@.len()),
            rfa.menu is None,
            rfa.language == settings.language,
            rfa.well_formed(),
            rfa.names_hold(stored@, all_menus@),
    {
        let (skill_names, hashtag_names, menu_names) = get_language_hashmaps(
            &all_skills,
            stored,
            all_menus,
            settings.language,
        );
        RingFitApp {
            input_reps: blank_inputs(all_skills.len()),
            skills: all_skills,
            menu_names,
            hashtag_names,
            skill_names,
            menu: None,
            language: settings.language,
        }
    }

    /// Takes what the user did: the session goes to the screen that follows,
    /// and the result says what has to be done. Nothing else changes.
    pub fn handle(&mut self, event: MenuEvent) -> (action: MenuAction)
        ensures
            (final(self).menu, action) == after(old(self).menu, event),
            final(self).skills == old(self).skills,
            final(self).input_reps == old(self).input_reps,
            final(self).language == old(self).language,
            final(self).hashtag_names == old(self).hashtag_names,
            final(self).skill_names == old(self).skill_names,
            final(self).menu_names == old(self).menu_names,
    {
        let (menu, action) = display_menu(self.menu, event);
        self.menu = menu;
        action
    }

    /// Takes the skills as they were read after a write to the store. What
    /// was typed is cleared; the screen and the names stay.
    pub fn reload(&mut self, all_skills: Vec<Skill>)
        ensures
            final(self).skills == all_skills,
            blank(final(self).input_reps@, all_skills@.len()),
            final(self).well_formed(),
            final(self).menu == old(self).menu,
            final(self).language == old(self).language,
            final(self).hashtag_names == old(self).hashtag_names,
            final(self).skill_names == old(self).skill_names,
            final(self).menu_names == old(self).menu_names,
    {
        self.input_reps = blank_inputs(all_skills.len());
        self.skills = all_skills;
    }
}

/// Switches the display to `target_language`: the names of the session are
/// made anew from the two tables, and the result is the settings to keep for
/// the next run. The skills, what is typed and the screen stay.
pub fn switch_language(
    rfa: &mut RingFitApp,
    target_language: Languages,
    stored: &Vec<Translation>,
    all_menus: &Vec<Translation>,
) -> (settings: Settings)
    ensures
        settings.language == target_language,
        final(rfa).language == target_language,
        final(rfa).names_hold(stored@, all_menus@),
        final(rfa).skills == old(rfa).skills,
        final(rfa).input_reps == old(rfa).input_reps,
        final(rfa).menu == old(rfa).menu,
{
    rfa.language = target_language;
    let (skill_names, hashtag_names, menu_names) = get_language_hashmaps(
        &rfa.skills,
        stored,
        all_menus,
        target_language,
    );
    rfa.skill_names = skill_names;
    rfa.hashtag_names = hashtag_names;
    rfa.menu_names = menu_names;
    Settings { language: target_language }
}

} // verus!

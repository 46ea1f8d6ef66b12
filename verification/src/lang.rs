//! The languages of the display, the table of translations and the names
//! that are looked up in it.

use vstd::prelude::*;
use vstd::string::*;
use crate::json::{
    json_array, json_members, json_object, json_parsed, json_text, members, parse_json,
};
use crate::names::{shown, HashtagNames, NameCache};
use crate::skills::{skill_key, Skill, SkillHashtags};
use crate::text::same_text;

verus! {

/// The languages the tracker can display.
#[derive(Clone, Copy, Debug, PartialEq, Eq, Structural)]
pub enum Languages {
    English,
    German,
}

/// One entry of the table of translations: the key, the English text and the
/// German text.
pub type Translation = (String, String, String);

/// What went wrong when the table of translations was read.
#[derive(Debug)]
pub enum TranslationError {
    /// The text is not JSON.
    Syntax(serde_json::Error),
    /// The member under this key is not a list of at least two values.
    Entry(String),
}

impl Languages {
    /// The name of the language in the language itself.
    pub open spec fn text(self) -> Seq<char> {
        match self {
            Languages::English => "English"@,
            Languages::German => "Deutsch"@,
        }
    }

    /// The language that `s` names, if it names one. German goes by its own
    /// name and by its English one.
    pub open spec fn named(s: Seq<char>) -> Result<Languages, ()> {
        if s == "English"@ {
            Ok(Languages::English)
        } else if s == "Deutsch"@ || s == "German"@ {
            Ok(Languages::German)
        } else {
            Err(())
        }
    }

    /// The name of the language in the language itself.
    pub fn to_string(&self) -> (s: String)
        ensures
            s@ == self.text(),
    {
        match self {
            Languages::English => String::from_str("English"),
            Languages::German => String::from_str("Deutsch"),
        }
    }

    /// Reads the name of a language; any other text is an error.
    pub fn from_str(s: &str) -> (r: Result<Languages, ()>)
        ensures
            r == Languages::named(s@),
    {
        if same_text(s, "English") {
            Ok(Languages::English)
        } else if same_text(s, "Deutsch") || same_text(s, "German") {
            Ok(Languages::German)
        } else {
            Err(())
        }
    }

    /// The column of the stored table that holds the texts of the language.
    pub fn column(&self) -> (c: &'static str)
        ensures
            c@ == (match *self {
                Languages::English => "en"@,
                Languages::German => "de"@,
            }),
    {
        match self {
            Languages::English => "en",
            Languages::German => "de",
        }
    }

    /// Reading the name of a language gives the language back.
    pub proof fn lemma_name_round_trip(self)
        ensures
            Languages::named(self.text()) == Ok::<Languages, ()>(self),
    {
        reveal_strlit("English");
        reveal_strlit("Deutsch");
        assert("English"@[0] == 'E' && "Deutsch"@[0] == 'D');
    }
}

/// The text of an entry in a language.
pub open spec fn text_in(entry: Translation, language: Languages) -> Seq<char> {
    match language {
        Languages::English => entry.1@,
        Languages::German => entry.2@,
    }
}

/// The place of the first entry of `table` under `key`, or the length of the
/// table where it has none.
pub open spec fn first_under(table: Seq<Translation>, key: Seq<char>) -> int
    decreases table.len(),
{
    if table.len() == 0 || table[0].0@ == key {
        0
    } else {
        1 + first_under(table.skip(1), key)
    }
}

/// The text that `table` holds under `key` in a language: that of the first
/// entry under the key, where there is one.
pub open spec fn looked_up(table: Seq<Translation>, language: Languages, key: Seq<char>) -> Option<
    Seq<char>,
> {
    let i = first_under(table, key);
    if 0 <= i < table.len() {
        Some(text_in(table[i], language))
    } else {
        None
    }
}

/// The name that is shown for what was looked up: the text that was found,
/// and `Invalid` where none was.
pub open spec fn name_or_invalid(found: Option<Seq<char>>) -> Seq<char> {
    match found {
        Some(t) => t,
        None => "Invalid"@,
    }
}

/// The first entry under a key stands after the entries that are under
/// other keys.
pub proof fn lemma_first_under(table: Seq<Translation>, key: Seq<char>, k: int)
    requires
        0 <= k <= table.len(),
        forall|j: int| 0 <= j < k ==> (#[trigger] table[j]).0@ != key,
        k < table.len() ==> table[k].0@ == key,
    ensures
        first_under(table, key) == k,
    decreases k,
{
    if k > 0 {
        assert(table[0].0@ != key);
        let rest = table.skip(1);
        assert forall|j: int| 0 <= j < k - 1 implies (#[trigger] rest[j]).0@ != key by {
            assert(table[j + 1].0@ != key);
        }
        lemma_first_under(rest, key, k - 1);
    }
}

/// Looks `key` up in the table and hands out its text in `language`: that of
/// the first entry under the key, or `None` where the table has no such
/// entry.
pub fn get_string(table: &Vec<Translation>, language: &Languages, key: &str) -> (r: Option<String>)
    ensures
        match r {
            Some(t) => looked_up(table@, *language, key@) == Some(t@),
            None => looked_up(table@, *language, key@) is None,
        },
{
    let mut i: usize = 0;
    while i < table.len()
        invariant
            0 <= i <= table.len(),
            forall|j: int| 0 <= j < i ==> (#[trigger] table@[j]).0@ != key@,
        decreases table.len() - i,
    {
        if same_text(table[i].0.as_str(), key) {
            proof {
                lemma_first_under(table@, key@, i as int);
            }
            let found = match language {
                Languages::English => table[i].1.clone(),
                Languages::German => table[i].2.clone(),
            };
            return Some(found);
        }
        i += 1;
    }
    proof {
        lemma_first_under(table@, key@, i as int);
    }
    None
}

/// The name to show for what a lookup gave: the text itself, or `Invalid`
/// where the lookup found nothing.
pub fn or_invalid(found: Option<String>) -> (name: String)
    ensures
        name@ == name_or_invalid(
            match found {
                Some(t) => Some(t@),
                None => None,
            },
        ),
{
    match found {
        Some(t) => t,
        None => String::from_str("Invalid"),
    }
}

/// The members of a parsed document: those of its object, and none where the
/// document is not an object.
pub open spec fn members_of(doc: serde_json::Value) -> Seq<(Seq<char>, serde_json::Value)> {
    match json_object(doc) {
        Some(m) => json_members(m),
        None => Seq::empty(),
    }
}

/// Whether a member's value is a list of at least two values, one for each
/// language.
pub open spec fn is_entry(v: serde_json::Value) -> bool {
    match json_array(v) {
        Some(a) => a.len() >= 2,
        None => false,
    }
}

/// The text of a value, and the empty text where the value is not a string.
pub open spec fn text_or_empty(v: serde_json::Value) -> Seq<char> {
    match json_text(v) {
        Some(t) => t,
        None => Seq::empty(),
    }
}

/// The entry that a member of the document gives: its key, and the texts of
/// the first two values of its list.
pub open spec fn entry_of(member: (Seq<char>, serde_json::Value)) -> (
    Seq<char>,
    Seq<char>,
    Seq<char>,
)
    recommends
        is_entry(member.1),
{
    let a = json_array(member.1).unwrap();
    (member.0, text_or_empty(a[0]), text_or_empty(a[1]))
}

/// What an entry holds, as three sequences of characters.
pub open spec fn entry_view(entry: Translation) -> (Seq<char>, Seq<char>, Seq<char>) {
    (entry.0@, entry.1@, entry.2@)
}

/// Whether `r` is what reading the members `ms` gives: their entries in
/// order, or an error with the key of the first member that is not a list of
/// at least two values.
pub open spec fn read_from(
    ms: Seq<(Seq<char>, serde_json::Value)>,
    r: Result<Vec<Translation>, TranslationError>,
) -> bool {
    match r {
        Ok(list) => {
            &&& list@.len() == ms.len()
            &&& forall|i: int|
                0 <= i < ms.len() ==> is_entry(ms[i].1) && entry_view(#[trigger] list@[i])
                    == entry_of(ms[i])
        },
        Err(TranslationError::Entry(key)) => exists|i: int|
            {
                &&& 0 <= i < ms.len()
                &&& !is_entry(#[trigger] ms[i].1)
                &&& key@ == ms[i].0
                &&& forall|j: int| 0 <= j < i ==> is_entry(#[trigger] ms[j].1)
            },
        Err(TranslationError::Syntax(_)) => false,
    }
}

/// The text of a value of the document, and the empty text where the value
/// is not a string.
fn text_of(v: &serde_json::Value) -> (t: String)
    ensures
        t@ == text_or_empty(*v),
{
    match v.as_str() {
        Some(t) => String::from_str(t),
        None => String::new(),
    }
}

/// Reads the entries of a parsed document. Each member of its object gives
/// one entry: the key, and the first two values of the member's list as the
/// English and the German text, where a value that is not a string counts as
/// the empty text. A document that is not an object gives no entry. A member
/// that is not a list of at least two values is an error.
pub fn translations_in(doc: &serde_json::Value) -> (r: Result<Vec<Translation>, TranslationError>)
    ensures
        read_from(members_of(*doc), r),
{
    let mut list: Vec<Translation> = Vec::new();
    let object = doc.as_object();
    match object {
        None => {
            assert(members_of(*doc).len() == 0);
            Ok(list)
        },
        Some(map) => {
            let all = members(map);
            let ghost ms = members_of(*doc);
            let mut i: usize = 0;
            while i < all.len()
                invariant
                    0 <= i <= all.len(),
                    ms == members_of(*doc),
                    all@.len() == ms.len(),
                    forall|k: int|
                        0 <= k < all@.len() ==> (#[trigger] all@[k]).0@ == ms[k].0 && *all@[k].1
                            == ms[k].1,
                    list@.len() == i,
                    forall|k: int| 0 <= k < i ==> is_entry(#[trigger] ms[k].1),
                    forall|k: int|
                        0 <= k < i ==> entry_view(#[trigger] list@[k]) == entry_of(ms[k]),
                decreases all.len() - i,
            {
                let key: &String = all[i].0;
                let value: &serde_json::Value = all[i].1;
                assert(key@ == ms[i as int].0 && *value == ms[i as int].1);
                let entry = match value.as_array() {
                    Some(a) => {
                        if a.len() >= 2 {
                            Some((key.clone(), text_of(&a[0]), text_of(&a[1])))
                        } else {
                            None
                        }
                    },
                    None => None,
                };
                match entry {
                    Some(e) => {
                        assert(is_entry(ms[i as int].1));
                        list.push(e);
                    },
                    None => {
                        assert(!is_entry(ms[i as int].1));
                        return Err(TranslationError::Entry(key.clone()));
                    },
                }
                i += 1;
            }
            Ok(list)
        },
    }
}

/// Reads the table of translations from the text of the bundled document: a
/// JSON object with one member for each key, whose value is the list of the
/// English and the German text.
pub fn get_all_translations(text: &str) -> (r: Result<Vec<Translation>, TranslationError>)
    ensures
        match json_parsed(text@) {
            Some(doc) => read_from(members_of(doc), r),
            None => r matches Err(TranslationError::Syntax(_)),
        },
{
    match parse_json(text) {
        Ok(doc) => translations_in(&doc),
        Err(e) => Err(TranslationError::Syntax(e)),
    }
}

/// The texts of the menus in a language, by key: each entry of the table
/// puts its text under its key, in place of what an earlier entry put there.
pub open spec fn menu_names(table: Seq<Translation>, language: Languages) -> Map<
    Seq<char>,
    Seq<char>,
>
    decreases table.len(),
{
    if table.len() == 0 {
        Map::empty()
    } else {
        menu_names(table.drop_last(), language).insert(
            table.last().0@,
            text_in(table.last(), language),
        )
    }
}

/// The place of the last entry of `table` under `key`, which is the one that
/// counts for the menus; it is negative where the table has no entry under
/// the key.
pub open spec fn last_under(table: Seq<Translation>, key: Seq<char>) -> int
    decreases table.len(),
{
    if table.len() == 0 {
        -1
    } else if table.last().0@ == key {
        table.len() - 1
    } else {
        last_under(table.drop_last(), key)
    }
}

/// Whether the table holds two different texts for `key`: the entry that
/// counts for the key has an English text that is not its German text.
pub open spec fn differs_between_languages(table: Seq<Translation>, key: Seq<char>) -> bool {
    let i = last_under(table, key);
    0 <= i < table.len() && table[i].1@ != table[i].2@
}

/// The menus hold a text for every key of the table and for no other, and
/// it is the text of the last entry under the key.
pub proof fn lemma_menu_names(table: Seq<Translation>, language: Languages, key: Seq<char>)
    ensures
        -1 <= last_under(table, key) < table.len(),
        menu_names(table, language).contains_key(key) <==> last_under(table, key) >= 0,
        last_under(table, key) >= 0 ==> table[last_under(table, key)].0@ == key && menu_names(
            table,
            language,
        )[key] == text_in(table[last_under(table, key)], language),
    decreases table.len(),
{
    if table.len() > 0 {
        lemma_menu_names(table.drop_last(), language, key);
    }
}

/// The text of a menu changes with the language exactly where the table
/// holds two different texts for its key: showing one key from the English
/// menus and from the German menus, with one fallback, gives two different
/// texts if and only if the entry that counts for the key has an English
/// text that is not its German text.
pub proof fn lemma_language_switch(table: Seq<Translation>, key: Seq<char>, fallback: Seq<char>)
    ensures
        shown(menu_names(table, Languages::English), key, fallback) != shown(
            menu_names(table, Languages::German),
            key,
            fallback,
        ) <==> differs_between_languages(table, key),
{
    lemma_menu_names(table, Languages::English, key);
    lemma_menu_names(table, Languages::German, key);
}

impl SkillHashtags {
    /// The display name of the tag in a language, as the table holds it, or
    /// `Invalid` where the table has no entry for the tag.
    pub fn get_translated_name(&self, table: &Vec<Translation>, language: &Languages) -> (name:
        String)
        ensures
            name@ == name_or_invalid(looked_up(table@, *language, self.key())),
    {
        or_invalid(get_string(table, language, self.translation_key()))
    }
}

impl Skill {
    /// The display name of the skill in a language, as the table holds it,
    /// or `Invalid` where the table has no entry for the skill.
    pub fn get_translated_name(&self, table: &Vec<Translation>, language: &Languages) -> (name:
        String)
        ensures
            name@ == name_or_invalid(looked_up(table@, *language, skill_key(self.name@))),
    {
        let key = self.translation_key();
        or_invalid(get_string(table, language, key.as_str()))
    }
}

/// Whether one of `skills` goes by `name`.
pub open spec fn is_skill_name(skills: Seq<Skill>, name: Seq<char>) -> bool {
    exists|i: int| 0 <= i < skills.len() && (#[trigger] skills[i]).name@ == name
}

/// Whether three caches hold the display names for a language: a name for
/// every skill of the list, under the skill's own name, and a name for every
/// tag, both as the stored table gives them, with `Invalid` for what it does
/// not hold; and the texts of the menus as the bundled table gives them, by
/// key.
pub open spec fn caches_hold(
    caches: (NameCache, HashtagNames, NameCache),
    all_skills: Seq<Skill>,
    stored: Seq<Translation>,
    all_menus: Seq<Translation>,
    language: Languages,
) -> bool {
    &&& forall|name: Seq<char>| caches.0@.contains_key(name) <==> is_skill_name(all_skills, name)
    &&& forall|name: Seq<char>| #[trigger]
        caches.0@.contains_key(name) ==> caches.0@[name] == name_or_invalid(
            looked_up(stored, language, skill_key(name)),
        )
    &&& forall|tag: SkillHashtags| #[trigger]
        caches.1@.contains_key(tag) && caches.1@[tag] == name_or_invalid(
            looked_up(stored, language, tag.key()),
        )
    &&& caches.2@ == menu_names(all_menus, language)
}

/// Makes the three caches of display names for a language. The names of the
/// skills, by the skills' own names, and those of the tags are looked up in
/// the stored table, with `Invalid` for what it does not hold. The texts of
/// the menus come from the bundled table, by key.
pub fn get_language_hashmaps(
    all_skills: &Vec<Skill>,
    stored: &Vec<Translation>,
    all_menus: &Vec<Translation>,
    target_language: Languages,
) -> (r: (NameCache, HashtagNames, NameCache))
    ensures
        caches_hold(r, all_skills@, stored@, all_menus@, target_language),
{
    let mut skill_names = NameCache::new();
    let mut i: usize = 0;
    while i < all_skills.len()
        invariant
            0 <= i <= all_skills.len(),
            forall|name: Seq<char>|
                skill_names@.contains_key(name) <==> is_skill_name(
                    all_skills@.take(i as int),
                    name,
                ),
            forall|name: Seq<char>| #[trigger]
                skill_names@.contains_key(name) ==> skill_names@[name] == name_or_invalid(
                    looked_up(stored@, target_language, skill_key(name)),
                ),
        decreases all_skills.len() - i,
    {
        let skill = &all_skills[i];
        let name = skill.get_translated_name(stored, &target_language);
        skill_names.insert(skill.name.clone(), name);
        proof {
            let now = all_skills@.take(i + 1);
            let was = all_skills@.take(i as int);
            assert(now[i as int].name@ == skill.name@);
            assert forall|n: Seq<char>| skill_names@.contains_key(n) <==> is_skill_name(
                now,
                n,
            ) by {
                if is_skill_name(was, n) {
                    let k = choose|k: int| 0 <= k < was.len() && (#[trigger] was[k]).name@ == n;
                    assert(now[k].name@ == n);
                }
                if is_skill_name(now, n) && n != skill.name@ {
                    let k = choose|k: int| 0 <= k < now.len() && (#[trigger] now[k]).name@ == n;
                    assert(was[k].name@ == n);
                }
            }
        }
        i += 1;
    }
    assert(all_skills@.take(i as int) =~= all_skills@);

    let all_hashtags = SkillHashtags::get_all_hashtags();
    let mut names: Vec<String> = Vec::new();
    let mut j: usize = 0;
    while j < all_hashtags.len()
        invariant
            0 <= j <= all_hashtags.len(),
            all_hashtags@ == SkillHashtags::all(),
            names@.len() == j,
            forall|k: int|
                0 <= k < j ==> (#[trigger] names@[k])@ == name_or_invalid(
                    looked_up(stored@, target_language, SkillHashtags::all()[k].key()),
                ),
        decreases all_hashtags.len() - j,
    {
        let name = all_hashtags[j].get_translated_name(stored, &target_language);
        names.push(name);
        j += 1;
    }
    let hashtag_names = HashtagNames { names };
    assert forall|tag: SkillHashtags| #[trigger]
        hashtag_names@.contains_key(tag) && hashtag_names@[tag] == name_or_invalid(
            looked_up(stored@, target_language, tag.key()),
        ) by {
        assert(SkillHashtags::all()[tag.ordinal()] == tag);
    }

    let mut menus = NameCache::new();
    let mut m: usize = 0;
    while m < all_menus.len()
        invariant
            0 <= m <= all_menus.len(),
            menus@ == menu_names(all_menus@.take(m as int), target_language),
        decreases all_menus.len() - m,
    {
        let text = match target_language {
            Languages::English => all_menus[m].1.clone(),
            Languages::German => all_menus[m].2.clone(),
        };
        menus.insert(all_menus[m].0.clone(), text);
        proof {
            let now = all_menus@.take(m + 1);
            assert(now.drop_last() =~= all_menus@.take(m as int));
            assert(now.last() == all_menus@[m as int]);
        }
        m += 1;
    }
    assert(all_menus@.take(m as int) =~= all_menus@);

    (skill_names, hashtag_names, menus)
}

impl std::str::FromStr for Languages {
    type Err = ();

    /// Reads the name of a language, as the method of the same name does.
    fn from_str(s: &str) -> (r: Result<Languages, ()>)
        ensures
            r == Languages::named(s@),
    {
        Languages::from_str(s)
    }
}

} // verus!

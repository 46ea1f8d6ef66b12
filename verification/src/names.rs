//! Display names kept in memory, so that nothing is looked up in the table of
//! translations while a screen is drawn.

use vstd::prelude::*;
use vstd::hash_map::StringHashMap;
use vstd::string::*;
use crate::skills::SkillHashtags;

verus! {

/// Display names by key: the names of the skills by the skills' own names,
/// or the texts of the menus by their keys.
pub struct NameCache {
    pub names: StringHashMap<String>,
}

impl View for NameCache {
    type V = Map<Seq<char>, Seq<char>>;

    open spec fn view(&self) -> Map<Seq<char>, Seq<char>> {
        Map::new(|k: Seq<char>| self.names@.contains_key(k), |k: Seq<char>| self.names@[k]@)
    }
}

/// The text to show for `key`: the name kept under it, or `fallback` where
/// none is kept.
pub open spec fn shown(
    names: Map<Seq<char>, Seq<char>>,
    key: Seq<char>,
    fallback: Seq<char>,
) -> Seq<char> {
    if names.contains_key(key) {
        names[key]
    } else {
        fallback
    }
}

impl NameCache {
    /// A cache that holds no name.
    pub fn new() -> (c: NameCache)
        ensures
            c@ == Map::<Seq<char>, Seq<char>>::empty(),
    {
        let c = NameCache { names: StringHashMap::new() };
        assert(c@ =~= Map::<Seq<char>, Seq<char>>::empty());
        c
    }

    /// Keeps `name` under `key`, in place of what was kept under it before.
    pub fn insert(&mut self, key: String, name: String)
        ensures
            final(self)@ == old(self)@.insert(key@, name@),
    {
        let ghost before = self@;
        let ghost k = key@;
        let ghost n = name@;
        self.names.insert(key, name);
        assert(self@ =~= before.insert(k, n));
    }

    /// The name kept under `key`, if there is one.
    pub fn get(&self, key: &str) -> (r: Option<&String>)
        ensures
            match r {
                Some(name) => self@.contains_key(key@) && name@ == self@[key@],
                None => !self@.contains_key(key@),
            },
    {
        self.names.get(key)
    }

    /// The text to show for `key`: the name kept under it, or `fallback`
    /// where none is kept.
    pub fn get_or(&self, key: &str, fallback: &str) -> (name: String)
        ensures
            name@ == shown(self@, key@, fallback@),
    {
        match self.names.get(key) {
            Some(name) => name.clone(),
            None => String::from_str(fallback),
        }
    }
}

/// The display names of the tags, one for each tag.
pub struct HashtagNames {
    pub names: Vec<String>,
}

impl View for HashtagNames {
    type V = Map<SkillHashtags, Seq<char>>;

    open spec fn view(&self) -> Map<SkillHashtags, Seq<char>> {
        Map::new(
            |t: SkillHashtags| t.ordinal() < self.names@.len(),
            |t: SkillHashtags| self.names@[t.ordinal()]@,
        )
    }
}

/// The text that is shown for a tag: nothing for `Empty`, and for any other
/// tag the name kept for it, or `Invalid` where none is kept.
pub open spec fn tag_label(names: Map<SkillHashtags, Seq<char>>, tag: SkillHashtags) -> Seq<char> {
    if tag == SkillHashtags::Empty {
        Seq::empty()
    } else if names.contains_key(tag) {
        names[tag]
    } else {
        "Invalid"@
    }
}

impl HashtagNames {
    /// The name kept for `tag`, if there is one.
    pub fn get(&self, tag: &SkillHashtags) -> (r: Option<&String>)
        ensures
            match r {
                Some(name) => self@.contains_key(*tag) && name@ == self@[*tag],
                None => !self@.contains_key(*tag),
            },
    {
        let i = tag.index();
        if i < self.names.len() {
            Some(&self.names[i])
        } else {
            None
        }
    }

    /// The text to show for `tag` in the list of skills: nothing for
    /// `Empty`, and for any other tag its name, or `Invalid` where none is
    /// kept.
    pub fn label(&self, tag: &SkillHashtags) -> (name: String)
        ensures
            name@ == tag_label(self@, *tag),
    {
        match tag {
            SkillHashtags::Empty => String::new(),
            _ => match self.get(tag) {
                Some(name) => name.clone(),
                None => String::from_str("Invalid"),
            },
        }
    }
}

} // verus!

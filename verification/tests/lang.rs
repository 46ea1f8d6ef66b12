use rfa_tracker::catalog::all_skills_default;
use rfa_tracker::lang::{
    get_all_translations, get_language_hashmaps, get_string, or_invalid, translations_in,
    Languages, Translation, TranslationError,
};
use rfa_tracker::names::NameCache;
use rfa_tracker::skills::SkillHashtags;

fn entry(key: &str, en: &str, de: &str) -> Translation {
    (key.to_string(), en.to_string(), de.to_string())
}

fn table() -> Vec<Translation> {
    vec![
        entry("back", "Back", "Zurück"),
        entry("skill_squat", "Squat", "Kniebeuge"),
        entry("skill_plank", "Plank", "Plank"),
        entry("hashtag_chest", "Chest", "Brust"),
        entry("hashtag_empty", "", ""),
        entry("back", "Return", "Rückwärts"),
    ]
}

#[test]
fn the_bundled_document_is_read() {
    let text = r#"{ "back": ["Back", "Zurück"], "cancel": ["Cancel", "Abbrechen"] }"#;
    let all = get_all_translations(text).unwrap();
    assert_eq!(
        all,
        vec![entry("back", "Back", "Zurück"), entry("cancel", "Cancel", "Abbrechen")]
    );
}

#[test]
fn values_that_are_no_text_read_as_empty() {
    let text = r#"{ "a": [1, "x"], "b": ["y", null], "c": [["z"], {}, "more"] }"#;
    let all = get_all_translations(text).unwrap();
    assert_eq!(all, vec![entry("a", "", "x"), entry("b", "y", ""), entry("c", "", "")]);
}

#[test]
fn a_document_that_is_no_object_gives_no_entry() {
    assert_eq!(get_all_translations("[]").unwrap(), Vec::<Translation>::new());
    assert_eq!(get_all_translations("12").unwrap(), Vec::<Translation>::new());
    assert_eq!(get_all_translations("\"text\"").unwrap(), Vec::<Translation>::new());
    assert_eq!(get_all_translations("{}").unwrap(), Vec::<Translation>::new());
    assert_eq!(get_all_translations("null").unwrap(), Vec::<Translation>::new());
}

#[test]
fn text_that_is_not_json_is_a_syntax_error() {
    for text in ["", "{", "{ \"a\": [\"x\", \"y\"] ", "{ a: 1 }", "not json"] {
        match get_all_translations(text) {
            Err(TranslationError::Syntax(_)) => {}
            other => panic!("{:?} gave {:?}", text, other),
        }
    }
}

#[test]
fn a_member_that_is_no_pair_is_an_entry_error() {
    let cases = [
        (r#"{ "a": "x" }"#, "a"),
        (r#"{ "a": ["x", "y"], "b": ["only one"] }"#, "b"),
        (r#"{ "a": [], "b": 3 }"#, "a"),
        (r#"{ "k": { "en": "x", "de": "y" } }"#, "k"),
    ];
    for (text, key) in cases {
        match get_all_translations(text) {
            Err(TranslationError::Entry(k)) => assert_eq!(k, key),
            other => panic!("{:?} gave {:?}", text, other),
        }
    }
}

#[test]
fn a_parsed_document_is_walked() {
    let doc: serde_json::Value =
        serde_json::from_str(r#"{ "name": ["Name", "Name"], "reps": ["Reps", "Wdh."] }"#).unwrap();
    let all = translations_in(&doc).unwrap();
    assert_eq!(all, vec![entry("name", "Name", "Name"), entry("reps", "Reps", "Wdh.")]);
    let doc = serde_json::Value::Array(vec![serde_json::Value::String("x".to_string())]);
    assert!(translations_in(&doc).unwrap().is_empty());
    let mut members = serde_json::Map::new();
    members.insert("k".to_string(), serde_json::Value::Bool(true));
    match translations_in(&serde_json::Value::Object(members)) {
        Err(TranslationError::Entry(k)) => assert_eq!(k, "k"),
        other => panic!("{:?}", other),
    }
}

#[test]
fn the_first_entry_under_a_key_is_looked_up() {
    let t = table();
    assert_eq!(get_string(&t, &Languages::English, "back"), Some("Back".to_string()));
    assert_eq!(get_string(&t, &Languages::German, "back"), Some("Zurück".to_string()));
    assert_eq!(get_string(&t, &Languages::German, "skill_squat"), Some("Kniebeuge".to_string()));
    assert_eq!(get_string(&t, &Languages::English, "hashtag_empty"), Some(String::new()));
    assert_eq!(get_string(&t, &Languages::English, "Back"), None);
    assert_eq!(get_string(&t, &Languages::English, ""), None);
    assert_eq!(get_string(&Vec::new(), &Languages::English, "back"), None);
}

#[test]
fn what_is_not_found_is_invalid() {
    assert_eq!(or_invalid(None), "Invalid");
    assert_eq!(or_invalid(Some("Kniebeuge".to_string())), "Kniebeuge");
    assert_eq!(or_invalid(Some(String::new())), "");
}

#[test]
fn translated_names() {
    let t = table();
    let all = all_skills_default();
    let squat = all.iter().find(|s| s.name == "Squat").unwrap();
    let plank = all.iter().find(|s| s.name == "Plank").unwrap();
    let tree = all.iter().find(|s| s.name == "Tree Pose").unwrap();
    assert_eq!(squat.get_translated_name(&t, &Languages::German), "Kniebeuge");
    assert_eq!(squat.get_translated_name(&t, &Languages::English), "Squat");
    assert_eq!(plank.get_translated_name(&t, &Languages::German), "Plank");
    assert_eq!(tree.get_translated_name(&t, &Languages::German), "Invalid");
    assert_eq!(SkillHashtags::Chest.get_translated_name(&t, &Languages::German), "Brust");
    assert_eq!(SkillHashtags::Empty.get_translated_name(&t, &Languages::German), "");
    assert_eq!(SkillHashtags::Abs.get_translated_name(&t, &Languages::English), "Invalid");
}

#[test]
fn the_three_caches() {
    let t = table();
    let all = all_skills_default();
    let (skills, hashtags, menus) = get_language_hashmaps(&all, &t, &t, Languages::German);
    for s in &all {
        let expected = match s.name.as_str() {
            "Squat" => "Kniebeuge",
            "Plank" => "Plank",
            _ => "Invalid",
        };
        assert_eq!(skills.get(&s.name).unwrap(), expected);
    }
    assert!(skills.get("Handstand").is_none());
    assert!(skills.get("skill_squat").is_none());
    for tag in SkillHashtags::get_all_hashtags() {
        let expected = match tag {
            SkillHashtags::Chest => "Brust",
            SkillHashtags::Empty => "",
            _ => "Invalid",
        };
        assert_eq!(hashtags.get(&tag).unwrap(), expected);
    }
    assert_eq!(menus.get("back").unwrap(), "Rückwärts");
    assert_eq!(menus.get("skill_squat").unwrap(), "Kniebeuge");
    assert!(menus.get("cancel").is_none());
    assert_eq!(menus.get_or("cancel", "Cancel"), "Cancel");
    assert_eq!(menus.get_or("back", "Back"), "Rückwärts");
}

#[test]
fn switching_the_language_changes_what_differs() {
    let t = table();
    let all = all_skills_default();
    let (_, _, english) = get_language_hashmaps(&all, &t, &t, Languages::English);
    let (_, _, german) = get_language_hashmaps(&all, &t, &t, Languages::German);
    assert_ne!(english.get_or("back", "?"), german.get_or("back", "?"));
    assert_ne!(english.get_or("skill_squat", "?"), german.get_or("skill_squat", "?"));
    assert_eq!(english.get_or("skill_plank", "?"), german.get_or("skill_plank", "?"));
    assert_eq!(english.get_or("hashtag_empty", "?"), german.get_or("hashtag_empty", "?"));
    assert_eq!(english.get_or("missing", "?"), german.get_or("missing", "?"));
    assert_eq!(english.get_or("back", "?"), "Return");
}

#[test]
fn a_name_cache_keeps_the_last_name() {
    let mut cache = NameCache::new();
    assert!(cache.get("a").is_none());
    cache.insert("a".to_string(), "one".to_string());
    cache.insert("b".to_string(), "two".to_string());
    cache.insert("a".to_string(), "three".to_string());
    assert_eq!(cache.get("a").unwrap(), "three");
    assert_eq!(cache.get("b").unwrap(), "two");
    assert_eq!(cache.get_or("c", "none"), "none");
}

#[test]
fn labels_of_hashtags() {
    let t = table();
    let (_, hashtags, _) = get_language_hashmaps(&Vec::new(), &t, &t, Languages::German);
    assert_eq!(hashtags.label(&SkillHashtags::Chest), "Brust");
    assert_eq!(hashtags.label(&SkillHashtags::Empty), "");
    assert_eq!(hashtags.label(&SkillHashtags::Waist), "Invalid");
}

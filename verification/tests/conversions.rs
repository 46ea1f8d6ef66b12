use rfa_tracker::lang::Languages;
use rfa_tracker::skills::{SkillHashtags, SkillHits, SkillTypes};

#[test]
fn test_lang_string_conv() {
    let german_string = "Deutsch";
    let english_string = "English";
    let invalid_string = "Something else";

    assert_eq!(german_string, &Languages::German.to_string());
    assert_eq!(english_string, &Languages::English.to_string());

    assert_eq!(
        Languages::from_str(german_string).unwrap(),
        Languages::German
    );
    assert_eq!(
        Languages::from_str(english_string).unwrap(),
        Languages::English
    );
    assert_eq!(Languages::from_str(invalid_string), Err(()));
}

#[test]
fn test_hashtag_string_conv() {
    let glutes_string = "#Glutes";
    let lower_body_string = "#Lower Body";
    let invalid_string = "Something else";

    assert_eq!(
        SkillHashtags::from_str(glutes_string),
        Ok(SkillHashtags::Glutes)
    );
    assert_eq!(
        SkillHashtags::from_str(lower_body_string),
        Ok(SkillHashtags::LowerBody)
    );
    assert_eq!(SkillHashtags::from_str(invalid_string), Err(()));

    assert_eq!(SkillHashtags::Glutes.to_string(), glutes_string);
}

#[test]
fn test_type_string_conv() {
    let arms_string = "Arms";
    let invalid_string = "Something else";

    assert_eq!(SkillTypes::from_str(arms_string), Ok(SkillTypes::Arms));
    assert_eq!(SkillTypes::from_str(invalid_string), Err(()));
    assert_eq!(SkillTypes::Arms.to_string(), arms_string);
}

#[test]
fn test_hit_string_conv() {
    let five_string = "Five";
    let invalid_string = "Something else";

    assert_eq!(SkillHits::from_str(five_string), Ok(SkillHits::Five));
    assert_eq!(SkillHits::from_str(invalid_string), Err(()));
    assert_eq!(SkillHits::Five.to_string(), five_string);
}

#[test]
fn german_goes_by_two_names() {
    assert_eq!(Languages::from_str("German"), Ok(Languages::German));
    assert_eq!(Languages::from_str("Deutsch"), Ok(Languages::German));
    assert_eq!(Languages::from_str("german"), Err(()));
    assert_eq!(Languages::from_str(""), Err(()));
}

#[test]
fn language_columns() {
    assert_eq!(Languages::English.column(), "en");
    assert_eq!(Languages::German.column(), "de");
}

#[test]
fn every_hashtag_reads_back() {
    let all = SkillHashtags::get_all_hashtags();
    assert_eq!(all.len(), 16);
    assert_eq!(all[0], SkillHashtags::Empty);
    assert_eq!(all[15], SkillHashtags::Aerobic);
    for (i, tag) in all.iter().enumerate() {
        assert_eq!(SkillHashtags::from_str(&tag.to_string()), Ok(*tag));
        assert_eq!(SkillHashtags::from_stored(&tag.to_string()), *tag);
        assert_eq!(tag.index(), i);
    }
}

#[test]
fn hashtags_with_spaces() {
    assert_eq!(SkillHashtags::UpperArms.to_string(), "#Upper Arms");
    assert_eq!(SkillHashtags::LowerBody.to_string(), "#Lower Body");
    assert_eq!(SkillHashtags::Empty.to_string(), "#Empty");
    assert_eq!(SkillHashtags::from_str("#UpperArms"), Err(()));
}

#[test]
fn empty_text_is_the_empty_hashtag() {
    assert_eq!(SkillHashtags::from_str(""), Ok(SkillHashtags::Empty));
    assert_eq!(SkillHashtags::from_str("#Empty"), Ok(SkillHashtags::Empty));
    assert_eq!(SkillHashtags::from_str("Glutes"), Err(()));
    assert_eq!(SkillHashtags::from_stored("Glutes"), SkillHashtags::Empty);
}

#[test]
fn hashtag_translation_keys() {
    assert_eq!(SkillHashtags::Empty.translation_key(), "hashtag_empty");
    assert_eq!(SkillHashtags::UpperArms.translation_key(), "hashtag_upper_arms");
    assert_eq!(SkillHashtags::LowerBody.translation_key(), "hashtag_lower_body");
    assert_eq!(SkillHashtags::Aerobic.translation_key(), "hashtag_aerobic");
}

#[test]
fn every_type_and_hit_reads_back() {
    for t in [SkillTypes::Arms, SkillTypes::Core, SkillTypes::Legs, SkillTypes::Yoga] {
        assert_eq!(SkillTypes::from_str(&t.to_string()), Ok(t));
        assert_eq!(SkillTypes::from_stored(&t.to_string()), t);
    }
    for h in [SkillHits::One, SkillHits::Three, SkillHits::Five, SkillHits::Heal] {
        assert_eq!(SkillHits::from_str(&h.to_string()), Ok(h));
        assert_eq!(SkillHits::from_stored(&h.to_string()), h);
    }
}

#[test]
fn unknown_stored_kinds_fall_back() {
    assert_eq!(SkillTypes::from_stored("Something else"), SkillTypes::Yoga);
    assert_eq!(SkillTypes::from_stored(""), SkillTypes::Yoga);
    assert_eq!(SkillHits::from_stored("Something else"), SkillHits::Heal);
    assert_eq!(SkillHits::from_stored("one"), SkillHits::Heal);
}

#[test]
fn names_parse_through_the_standard_trait() {
    assert_eq!("Deutsch".parse::<Languages>(), Ok(Languages::German));
    assert_eq!("Legs".parse::<SkillTypes>(), Ok(SkillTypes::Legs));
    assert_eq!("Heal".parse::<SkillHits>(), Ok(SkillHits::Heal));
    assert_eq!("#Back".parse::<SkillHashtags>(), Ok(SkillHashtags::Back));
    assert_eq!("Back".parse::<SkillHashtags>(), Err(()));
}

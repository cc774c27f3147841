use opentartarus::error::ErrorCode;
use opentartarus::profile::{Bindings, Profile, ProfileFile};
use opentartarus::types::{
    Action, DeviceModel, GameId, KeyId, KeyToken, Lighting, LightingEffect, Modifier,
};
use opentartarus::validate::{profile_id_for_name, valid_id, PROFILE_ID_MAX_LEN, SLUG_FALLBACK};

fn taken(ids: &[&str]) -> Vec<String> {
    ids.iter().map(|id| (*id).to_owned()).collect()
}

/// The shipped League of Legends sample as its file spells it.
fn lol_file(binding_key: &str) -> ProfileFile {
    ProfileFile {
        id: "league-of-legends".into(),
        name: "League of Legends".into(),
        game: GameId::LeagueOfLegends,
        device_models: vec![DeviceModel::V2, DeviceModel::Pro],
        bindings: vec![(
            binding_key.into(),
            Action::Key {
                key: KeyToken::Q,
                modifiers: vec![],
            },
        )],
        lighting: Lighting {
            effect: LightingEffect::Static,
            brightness: 80,
            color: Some([0, 180, 255]),
        },
        setup_note: None,
    }
}

#[test]
fn a_plain_name_slugs_to_lowercase_hyphens() {
    assert_eq!(profile_id_for_name("My Raid Layout", &[]), "my-raid-layout");
}

#[test]
fn punctuation_and_repeated_spaces_collapse_to_one_separator() {
    assert_eq!(profile_id_for_name("  My  Raid / Layout!! ", &[]), "my-raid-layout");
}

#[test]
fn a_leading_symbol_does_not_produce_a_leading_separator() {
    assert_eq!(profile_id_for_name("#1 Setup", &[]), "1-setup");
}

#[test]
fn a_name_with_nothing_usable_still_gets_a_valid_id() {
    assert_eq!(profile_id_for_name("!!!", &[]), SLUG_FALLBACK);
    assert!(valid_id(&profile_id_for_name("!!!", &[])));
}

#[test]
fn a_collision_gets_a_numbered_suffix_starting_at_two() {
    assert_eq!(profile_id_for_name("Layout", &taken(&["layout"])), "layout-2");
    assert_eq!(
        profile_id_for_name("Layout", &taken(&["layout", "layout-2"])),
        "layout-3"
    );
}

#[test]
fn a_suffix_never_pushes_an_id_over_the_length_limit() {
    let long = "x".repeat(PROFILE_ID_MAX_LEN * 2);
    let first = profile_id_for_name(&long, &[]);
    assert!(valid_id(&first), "trimmed base must be a valid id");
    let second = profile_id_for_name(&long, std::slice::from_ref(&first));
    assert!(valid_id(&second), "suffixed id must still be valid: {second}");
    assert!(second.ends_with("-2"));
    assert!(second.len() <= PROFILE_ID_MAX_LEN);
}

#[test]
fn every_generated_id_passes_the_same_rule_profiles_are_validated_by() {
    for name in ["Default", "Über Setup", "123", "a-b-c", "Trailing-", "-Leading"] {
        let id = profile_id_for_name(name, &[]);
        assert!(valid_id(&id), "{name:?} produced invalid id {id:?}");
    }
}

#[test]
fn accepts_league_of_legends_json() {
    let p = Profile::from_file(lol_file("kp01"));
    p.validate().unwrap();
    assert_eq!(p.id, "league-of-legends");
}

#[test]
fn rejects_unknown_key_id() {
    let p = Profile::from_file(lol_file("kp99"));
    assert_eq!(p.validate().unwrap_err(), ErrorCode::InvalidProfile);
}

#[test]
fn rejects_bad_id_empty_name_brightness_and_hold_repeat_macro() {
    let mut p = Profile::from_file(lol_file("kp01"));
    p.id = "Nope".into();
    assert_eq!(p.validate().unwrap_err(), ErrorCode::InvalidProfile);
    p.id = "ok".into();
    p.name = "   ".into();
    assert_eq!(p.validate().unwrap_err(), ErrorCode::InvalidProfile);
    p.name = "Ok".into();
    p.lighting.brightness = 101;
    assert_eq!(p.validate().unwrap_err(), ErrorCode::InvalidProfile);
    p.lighting.brightness = 80;
    p.bindings.insert(
        KeyId::Kp01,
        Action::HoldRepeat {
            inner: Box::new(Action::Macro { steps: vec![] }),
            rate_ms: 40,
        },
    );
    assert_eq!(p.validate().unwrap_err(), ErrorCode::InvalidProfile);
}

#[test]
fn v2_drops_analog_keeps_thumb_pro_drops_thumb_keeps_analog() {
    let mut p = Profile::from_file(lol_file("kp01"));
    p.bindings.insert(KeyId::AnalogUp, Action::Key { key: KeyToken::W, modifiers: vec![] });
    p.bindings.insert(KeyId::ThumbN, Action::Key { key: KeyToken::W, modifiers: vec![] });
    let v2 = p.bindings_for_model(DeviceModel::V2);
    assert!(v2.contains_key(KeyId::ThumbN));
    assert!(!v2.contains_key(KeyId::AnalogUp));
    let pro = p.bindings_for_model(DeviceModel::Pro);
    assert!(pro.contains_key(KeyId::AnalogUp));
    assert!(!pro.contains_key(KeyId::ThumbN));
}

#[test]
fn error_sentences_match_spec() {
    assert_eq!(ErrorCode::Permission.user_message(), "OpenTartarus can’t talk to your keypad yet.");
    assert_eq!(ErrorCode::Disconnect.user_message(), "Tartarus disconnected.");
    assert_eq!(ErrorCode::Lighting.user_message(), "Lighting needs OpenRazer or OpenRGB.");
    assert_eq!(
        ErrorCode::GrabConflict.user_message(),
        "Something else is using the Tartarus. Quit that app and reopen OpenTartarus."
    );
    assert_eq!(
        ErrorCode::InvalidProfile.user_message(),
        "That profile file is damaged. Revert to shipped or pick another."
    );
    assert_eq!(ErrorCode::UnknownKey.user_message(), "That key isn’t on this keypad.");
    assert_eq!(
        ErrorCode::RecordBusy.user_message(),
        "Already recording. Press a key or click Cancel."
    );
    assert_eq!(ErrorCode::NotFound.user_message(), "That profile isn’t installed.");
    assert_eq!(ErrorCode::Io.user_message(), "OpenTartarus couldn’t save. Try again.");
}

#[test]
fn a_later_binding_for_the_same_key_replaces_the_earlier_one() {
    let mut file = lol_file("kp01");
    file.bindings.push((
        "kp01".into(),
        Action::Key {
            key: KeyToken::E,
            modifiers: vec![Modifier::Alt],
        },
    ));
    let p = Profile::from_file(file);
    assert_eq!(p.bindings.len(), 1);
    assert_eq!(
        p.bindings.get(KeyId::Kp01),
        Some(&Action::Key {
            key: KeyToken::E,
            modifiers: vec![Modifier::Alt]
        })
    );
    let empty = Bindings::new();
    assert!(empty.is_empty());
}

#[test]
fn a_three_digit_suffix_still_fits_the_limit() {
    let long = "a".repeat(200);
    let base = "a".repeat(61);
    let mut ids = vec![base.clone()];
    for n in 2..100 {
        ids.push(format!("{base}-{n}"));
    }
    let id = profile_id_for_name(&long, &ids);
    assert_eq!(id, format!("{}-100", "a".repeat(60)));
    assert_eq!(id.len(), PROFILE_ID_MAX_LEN);
    assert!(valid_id(&id));
    assert!(!ids.contains(&id));
}

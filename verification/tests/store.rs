use opentartarus::requests::{edit_is_live, fallback_after_delete};
use opentartarus::daemon::Capture;
use opentartarus::error::ErrorCode;
use opentartarus::profile::{Bindings, Profile};
use opentartarus::record::Recorder;
use opentartarus::requests::{
    copy_as_custom, create_source, delete_check, listed_profile_ids, profile_row_flags,
    soft_lighting_result, start_record, submit_capture, taken_profile_ids, user_copy_source,
    CopySource,
};
use opentartarus::pack::SHIPPED_IDS;
use opentartarus::store::{profile_file_name, profile_id_from_file_name, sort_ids, user_profile_ids};
use opentartarus::types::{
    Action, DeviceModel, GameId, KeyId, KeyToken, Lighting, LightingEffect, MouseButton,
    MouseTarget,
};

fn sample_profile() -> Profile {
    let mut b = Bindings::new();
    b.insert(
        KeyId::Kp01,
        Action::Key {
            key: KeyToken::A,
            modifiers: vec![],
        },
    );
    Profile {
        id: "default".into(),
        name: "Default".into(),
        game: GameId::Default,
        device_models: vec![DeviceModel::V2],
        bindings: b,
        lighting: Lighting {
            effect: LightingEffect::Static,
            brightness: 60,
            color: Some([1, 2, 3]),
        },
        setup_note: None,
        unknown_key_ids: false,
    }
}

#[test]
fn create_copies_the_named_then_active_then_default() {
    assert_eq!(create_source(Some("wow".into()), Some("poe".into())), "wow");
    assert_eq!(create_source(None, Some("poe".into())), "poe");
    assert_eq!(create_source(None, None), "default");
}

#[test]
fn a_custom_copy_keeps_bindings_and_lighting() {
    let src = sample_profile();
    let lighting = src.lighting;
    let p = copy_as_custom(src, "my-setup".into(), "  My Setup  ");
    assert_eq!(p.id, "my-setup");
    assert_eq!(p.name, "My Setup");
    assert_eq!(p.game, GameId::Custom);
    assert_eq!(p.bindings.len(), 1);
    assert_eq!(p.lighting, lighting);
    assert_eq!(p.device_models, vec![DeviceModel::V2]);
}

#[test]
fn shipped_profiles_cannot_be_deleted() {
    assert_eq!(delete_check("default", true), Err(ErrorCode::InvalidProfile));
    assert_eq!(delete_check("my-setup", false), Err(ErrorCode::NotFound));
    assert_eq!(delete_check("my-setup", true), Ok(()));
}

#[test]
fn editable_copy_source_follows_the_id_kind() {
    assert_eq!(user_copy_source(true, false), Ok(CopySource::FromShipped));
    assert_eq!(user_copy_source(false, true), Ok(CopySource::UserFile));
    assert_eq!(user_copy_source(false, false), Err(ErrorCode::NotFound));
}

#[test]
fn lighting_failures_do_not_fail_requests() {
    assert_eq!(soft_lighting_result(Ok(())), (Ok(()), false));
    assert_eq!(soft_lighting_result(Err(ErrorCode::Lighting)), (Ok(()), true));
    assert_eq!(
        soft_lighting_result(Err(ErrorCode::NotFound)),
        (Err(ErrorCode::NotFound), false)
    );
}

#[test]
fn row_flags_tell_shipped_from_custom() {
    let f = profile_row_flags("default", Some("default"));
    assert!(f.is_active && f.can_revert && !f.can_delete);
    let g = profile_row_flags("my-setup", Some("default"));
    assert!(!g.is_active && !g.can_revert && g.can_delete);
    let h = profile_row_flags("my-setup", None);
    assert!(!h.is_active);
}

#[test]
fn a_second_recording_is_busy() {
    let mut r = Recorder::new();
    assert_eq!(start_record(&mut r, KeyId::Kp05, None, 100), Ok((KeyId::Kp05, 10_000)));
    assert_eq!(
        start_record(&mut r, KeyId::Kp06, Some(5), 200),
        Err(ErrorCode::RecordBusy)
    );
    assert_eq!(r.session().unwrap().key_id, KeyId::Kp05);
}

#[test]
fn record_timeout_is_capped() {
    let mut r = Recorder::new();
    assert_eq!(
        start_record(&mut r, KeyId::Kp01, Some(999_999), 0),
        Ok((KeyId::Kp01, 60_000))
    );
    assert_eq!(r.session().unwrap().deadline_ms, 60_000);
}

#[test]
fn a_capture_binds_the_recorded_key() {
    let mut r = Recorder::new();
    assert_eq!(
        submit_capture(&mut r, Some("default"), Capture::Key(KeyToken::B), vec![]),
        Err(ErrorCode::NotFound)
    );
    start_record(&mut r, KeyId::Kp03, None, 0).unwrap();
    assert_eq!(
        submit_capture(&mut r, None, Capture::Key(KeyToken::B), vec![]),
        Err(ErrorCode::NotFound)
    );
    assert!(r.is_active());
    let got = submit_capture(
        &mut r,
        Some("default"),
        Capture::Mouse(MouseTarget::Button {
            button: MouseButton::Left,
        }),
        vec![],
    );
    assert_eq!(
        got,
        Ok((
            KeyId::Kp03,
            Action::Mouse {
                target: MouseTarget::Button {
                    button: MouseButton::Left
                }
            }
        ))
    );
    assert!(!r.is_active());
}

#[test]
fn profile_files_are_named_by_id() {
    assert_eq!(profile_file_name("my-setup"), "my-setup.json");
    assert_eq!(profile_id_from_file_name("my-setup.json"), Some("my-setup".to_string()));
    assert_eq!(profile_id_from_file_name("a.b.json"), Some("a.b".to_string()));
    assert_eq!(profile_id_from_file_name("notes.txt"), None);
    assert_eq!(profile_id_from_file_name(".json"), None);
    assert_eq!(profile_id_from_file_name(".."), None);
    assert_eq!(profile_id_from_file_name("json"), None);
}

#[test]
fn ids_sort_in_text_order() {
    let v = sort_ids(vec!["b".into(), "a".into(), "ab".into(), "B".into()]);
    assert_eq!(v, vec!["B", "a", "ab", "b"]);
}

#[test]
fn user_ids_come_from_json_files_sorted() {
    let names: Vec<String> = vec![
        "zeta.json".into(),
        "readme.md".into(),
        "alpha.json".into(),
        ".json".into(),
    ];
    assert_eq!(user_profile_ids(&names), vec!["alpha", "zeta"]);
}

#[test]
fn the_list_puts_the_pack_first_and_skips_user_copies_of_it() {
    let user: Vec<String> = vec!["default".into(), "mine".into(), "zz".into()];
    let listed = listed_profile_ids(&user);
    assert_eq!(listed.len(), SHIPPED_IDS.len() + 2);
    for (i, id) in SHIPPED_IDS.iter().enumerate() {
        assert_eq!(listed[i], *id);
    }
    assert_eq!(listed[SHIPPED_IDS.len()], "mine");
    assert_eq!(listed[SHIPPED_IDS.len() + 1], "zz");
}

#[test]
fn a_new_id_avoids_the_pack_and_the_users_ids() {
    let user: Vec<String> = vec!["mine".into()];
    let taken = taken_profile_ids(&user);
    assert_eq!(taken.len(), SHIPPED_IDS.len() + 1);
    assert_eq!(taken[0], SHIPPED_IDS[0]);
    assert_eq!(taken.last().unwrap(), "mine");
}

#[test]
fn deleting_the_active_profile_falls_back_to_the_default() {
    assert_eq!(fallback_after_delete("my-raid", Some("my-raid")), Some("default"));
    assert_eq!(fallback_after_delete("my-raid", Some("dota-2")), None);
    assert_eq!(fallback_after_delete("my-raid", None), None);
    assert!(edit_is_live("dota-2", Some("dota-2")));
    assert!(!edit_is_live("dota-2", Some("default")));
    assert!(!edit_is_live("dota-2", None));
}

use opentartarus::fix_permissions::{
    checked_pkexec_uid, helper_steps, user_from_id_output, HelperError, HelperStep, GROUP_NAME,
    UDEV_RULES,
};

#[test]
fn udev_rule_allow_list_only() {
    let text = UDEV_RULES;
    assert!(text.contains("idProduct}==\"022b\""));
    assert!(text.contains("idProduct}==\"0244\""));
    assert!(text.contains("GROUP=\"opentartarus\""));
    assert!(text.contains("KERNEL==\"uinput\""));
    assert!(!text.contains("008f"));
    assert!(!text.contains("0090"));
}

#[test]
fn the_pkexec_uid_must_be_set_and_numeric() {
    assert_eq!(checked_pkexec_uid(None), Err(HelperError::MissingPkexecUid));
    assert_eq!(checked_pkexec_uid(Some("1000".into())), Ok("1000".to_string()));
    assert_eq!(checked_pkexec_uid(Some("alice".into())), Err(HelperError::InvalidPkexecUid));
    assert_eq!(checked_pkexec_uid(Some(String::new())), Err(HelperError::InvalidPkexecUid));
    assert_eq!(checked_pkexec_uid(Some("4294967296".into())), Err(HelperError::InvalidPkexecUid));
}

#[test]
fn the_user_name_is_trimmed_and_must_not_be_blank() {
    assert_eq!(user_from_id_output(true, Some("alice\n".into())), Ok("alice".to_string()));
    assert_eq!(user_from_id_output(false, Some("alice\n".into())), Err(HelperError::UserLookup));
    assert_eq!(user_from_id_output(true, None), Err(HelperError::UserLookup));
    assert_eq!(user_from_id_output(true, Some(" \n".into())), Err(HelperError::UserLookup));
}

#[test]
fn the_helper_makes_the_group_then_adds_the_user_then_reloads_udev() {
    let steps = helper_steps("alice");
    assert_eq!(steps.len(), 5);
    assert_eq!(
        steps[0],
        HelperStep::Run {
            program: "groupadd",
            args: vec!["-f".into(), GROUP_NAME.into()],
            on_fail: HelperError::GroupAdd,
        }
    );
    assert_eq!(
        steps[1],
        HelperStep::Run {
            program: "usermod",
            args: vec!["-aG".into(), GROUP_NAME.into(), "alice".into()],
            on_fail: HelperError::UserMod,
        }
    );
    assert_eq!(steps[2], HelperStep::WriteRulesIfMissing);
    assert_eq!(
        steps[3],
        HelperStep::Run {
            program: "udevadm",
            args: vec!["control".into(), "--reload-rules".into()],
            on_fail: HelperError::UdevReload,
        }
    );
    assert_eq!(
        steps[4],
        HelperStep::Run {
            program: "udevadm",
            args: vec!["trigger".into()],
            on_fail: HelperError::UdevTrigger,
        }
    );
}

#[test]
fn each_helper_error_has_its_line() {
    assert_eq!(HelperError::MissingPkexecUid.message(), "PKEXEC_UID is not set");
    assert_eq!(HelperError::WriteRules.message(), "could not write udev rules");
    assert_eq!(HelperError::UdevTrigger.message(), "udevadm trigger failed");
}

use iconic::workflow::{drop_acceptance, regeneration_step, DropAcceptance, RegenerationAction, RegenerationRun};
use iconic::icon_name::{drag_file_name, PropertiesText};
use iconic::properties::{BottomImageType, IconRegeneratable, MaskOption, MaskType, PropertiesError};
use iconic::workflow::{
    check_icon_update, error_popup_heading, error_popup_message, file_name_parts, folder_icon_source,
    get_mask_path, is_busy_dialog, is_image_content_type, mask_switch_state, regeneration_candidate,
    regeneration_failure_message, save_choice, store_top_image_action, toggle_mask, top_image_cache_name,
    CacheAction, FolderIconSource, IconUpdate, SaveChoice, SkipReason,
};

#[test]
fn mask_switch_toggles() {
    assert_eq!(toggle_mask(Some(true)), (MaskType::Disabled, false));
    assert_eq!(toggle_mask(Some(false)), (MaskType::Automatic, true));
    assert_eq!(toggle_mask(None), (MaskType::Automatic, true));
    assert!(!mask_switch_state(&MaskType::Disabled));
    assert!(mask_switch_state(&MaskType::Automatic));
    assert!(mask_switch_state(&MaskType::Custom("m".to_string())));
}

#[test]
fn mask_path_for_folder_images() {
    assert_eq!(
        get_mask_path(&BottomImageType::FolderSystem),
        MaskOption::Custom("/app/share/folder_icon/folders/mask.svg".to_string())
    );
    assert_eq!(
        get_mask_path(&BottomImageType::Folder("Red".to_string())),
        MaskOption::Custom("/app/share/folder_icon/folders/mask.svg".to_string())
    );
    assert_eq!(get_mask_path(&BottomImageType::Custom), MaskOption::Automatic);
}

#[test]
fn what_to_show_after_loading() {
    assert_eq!(check_icon_update(Some(10), true), IconUpdate::ShowIcon { enable_top_controls: true });
    assert_eq!(check_icon_update(Some(1), true), IconUpdate::ShowIcon { enable_top_controls: false });
    assert_eq!(check_icon_update(None, true), IconUpdate::LoadPlaceholderTop);
    assert_eq!(check_icon_update(Some(10), false), IconUpdate::Nothing);
    assert_eq!(check_icon_update(None, false), IconUpdate::Nothing);
}

#[test]
fn error_texts() {
    assert_eq!(error_popup_message("Failed", Some("io")), "Failed");
    assert_eq!(error_popup_message("", Some("io")), "io");
    assert_eq!(error_popup_message("", None), "unknown error");
    assert_eq!(error_popup_heading("Error"), "<span foreground=\"red\"><b>\u{26a0} Error</b></span>");
    assert_eq!(regeneration_failure_message(3, "files failed"), "3 files failed");
}

#[test]
fn content_types() {
    assert!(is_image_content_type(Some("image/png")));
    assert!(is_image_content_type(Some("image")));
    assert!(!is_image_content_type(Some("text/plain")));
    assert!(!is_image_content_type(None));
}

#[test]
fn top_image_cache_decisions() {
    assert_eq!(store_top_image_action(IconRegeneratable::No, false, true, false), CacheAction::Skip);
    assert_eq!(store_top_image_action(IconRegeneratable::Yes, true, true, false), CacheAction::Skip);
    assert_eq!(store_top_image_action(IconRegeneratable::Yes, false, true, false), CacheAction::SaveOriginal);
    assert_eq!(store_top_image_action(IconRegeneratable::NotStrictOnly, false, true, true), CacheAction::SaveImage);
    assert_eq!(store_top_image_action(IconRegeneratable::Yes, false, false, false), CacheAction::SaveImage);
    assert_eq!(top_image_cache_name(18446744073709551615), "18446744073709551615");
    assert_eq!(folder_icon_source(true, true), FolderIconSource::Cache);
    assert_eq!(folder_icon_source(false, true), FolderIconSource::CopyToCache);
    assert_eq!(folder_icon_source(false, false), FolderIconSource::AskUser);
}

#[test]
fn regeneration_candidates() {
    let text = PropertiesText {
        regeneratable: IconRegeneratable::Yes,
        x_val: "0".to_string(),
        y_val: "0".to_string(),
        zoom_val: "0".to_string(),
        monochrome: false,
        threshold: "0".to_string(),
        red: "0".to_string(),
        green: "0".to_string(),
        blue: "0".to_string(),
        inverted: false,
        default_monochrome: true,
    };
    let name = drag_file_name(&text.create_image_properties_string(), 9);
    let candidate = regeneration_candidate(&name).ok().unwrap();
    assert_eq!(candidate.top_image_hash, 9);
    let loose = PropertiesText { regeneratable: IconRegeneratable::NotStrictOnly, ..text };
    let name = drag_file_name(&loose.create_image_properties_string(), 9);
    assert!(matches!(regeneration_candidate(&name), Err(SkipReason::NeverCompatible)));
    assert!(matches!(
        regeneration_candidate("folder_new-1-2.png"),
        Err(SkipReason::Unreadable(PropertiesError::InvalidField(_)))
    ));
    assert!(matches!(
        regeneration_candidate("notes.txt"),
        Err(SkipReason::Unreadable(PropertiesError::Incompatible))
    ));
}

#[test]
fn file_name_and_extension() {
    assert_eq!(file_name_parts("cat.png"), ("cat".to_string(), ".png".to_string()));
    assert_eq!(file_name_parts("my.cat.svg"), ("my.cat".to_string(), ".svg".to_string()));
    assert_eq!(file_name_parts("png.png.png"), ("png".to_string(), ".png".to_string()));
    assert_eq!(file_name_parts(".png.png"), (String::new(), ".png".to_string()));
    assert_eq!(file_name_parts("README"), ("README".to_string(), ".README".to_string()));
}

#[test]
fn dialog_answers() {
    assert!(is_busy_dialog(Some("WAIT_QUIT")));
    assert!(!is_busy_dialog(Some("OK")));
    assert!(!is_busy_dialog(None));
    assert_eq!(save_choice("cancel"), SaveChoice::Cancel);
    assert_eq!(save_choice("discard"), SaveChoice::Discard);
    assert_eq!(save_choice("save"), SaveChoice::Save);
    assert_eq!(save_choice("close"), SaveChoice::Close);
}

#[test]
fn drops_are_answered_by_kind_and_drag_state() {
    assert_eq!(drop_acceptance(true, false, false), DropAcceptance { file_first: true, copy: true });
    assert_eq!(drop_acceptance(false, false, false), DropAcceptance { file_first: false, copy: true });
    assert_eq!(drop_acceptance(false, true, false), DropAcceptance { file_first: false, copy: false });
    assert_eq!(drop_acceptance(true, true, false), DropAcceptance { file_first: true, copy: false });
    assert_eq!(drop_acceptance(false, true, true), DropAcceptance { file_first: true, copy: true });
}

#[test]
fn regeneration_runs_item_by_item() {
    let run = RegenerationRun::new(7, 0);
    assert_eq!(regeneration_step(run, 7, None).1, RegenerationAction::NothingToRegenerate);

    let run = RegenerationRun::new(7, 2);
    let (run, action) = regeneration_step(run, 7, None);
    assert_eq!(action, RegenerationAction::Regenerate(0));
    let (run, action) = regeneration_step(run, 7, Some(false));
    assert_eq!(action, RegenerationAction::Regenerate(1));
    assert_eq!((run.done, run.failures), (1, 1));
    let (run, action) = regeneration_step(run, 7, Some(true));
    assert_eq!(action, RegenerationAction::Finish { stopped: false, failures: 1, show_failure_message: true });
    assert_eq!((run.done, run.failures), (2, 1));

    let run = RegenerationRun::new(7, 1);
    let (_, action) = regeneration_step(run, 7, None);
    assert_eq!(action, RegenerationAction::Regenerate(0));
    let (_, action) = regeneration_step(RegenerationRun { done: 0, ..run }, 8, None);
    assert_eq!(action, RegenerationAction::Finish { stopped: true, failures: 0, show_failure_message: false });
    let (_, action) = regeneration_step(run, 7, Some(true));
    assert_eq!(action, RegenerationAction::Finish { stopped: false, failures: 0, show_failure_message: false });
}

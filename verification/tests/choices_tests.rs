use iconic::choices::{
    accent_color, bottom_image_for_settings, check_if_regeneration_needed, default_color_name,
    default_mask_path, default_primary_folder_color, default_secondary_folder_color, dnd_radio_state,
    get_default_color, get_selected_accent_color, layer_from_response, load_built_in_bottom_icon,
    menu_folder_value, random_drag_file_name, regeneration_current_file_uses_compatible_bottom_image,
    save_file_name, cache_file_name, show_color_options, show_regeneration_hint, temp_folder_choice,
    top_or_bottom_default, LayerChoice,
};
use iconic::color::Rgb8;
use iconic::properties::{BottomImageType, IconRegeneratable};

#[test]
fn bottom_image_follows_settings() {
    assert_eq!(bottom_image_for_settings(true, "Blue", "a", "b"), BottomImageType::Custom);
    assert_eq!(
        bottom_image_for_settings(false, "Custom", "a4caee", "438de6"),
        BottomImageType::FolderCustom("a4caee".to_string(), "438de6".to_string())
    );
    assert_eq!(bottom_image_for_settings(false, "None", "a", "b"), BottomImageType::FolderSystem);
    assert_eq!(
        bottom_image_for_settings(false, "Teal", "a", "b"),
        BottomImageType::Folder("Teal".to_string())
    );
}

#[test]
fn built_in_folder_paths() {
    assert_eq!(load_built_in_bottom_icon("None", "Purple"), "/app/share/folder_icon/folders/folder_Purple.svg");
    assert_eq!(load_built_in_bottom_icon("Red", "Purple"), "/app/share/folder_icon/folders/folder_Red.svg");
    assert_eq!(default_mask_path(), "/app/share/folder_icon/folders/mask.svg");
}

#[test]
fn default_monochrome_colour() {
    assert_eq!(get_default_color("None", false, "Green"), Some(Rgb8 { r: 38, g: 162, b: 105 }));
    assert_eq!(get_default_color("None", true, "Slate"), Some(Rgb8 { r: 111, g: 131, b: 150 }));
    assert_eq!(get_default_color("Red", true, "Slate"), Some(Rgb8 { r: 67, g: 141, b: 230 }));
    assert_eq!(get_default_color("Orange", false, "Slate"), Some(Rgb8 { r: 237, g: 91, b: 0 }));
    assert_eq!(get_default_color("Custom", false, "Slate"), None);
    assert_eq!(default_color_name("Custom", true, "Slate"), "Blue");
}

#[test]
fn accent_colour_table() {
    assert_eq!(accent_color("Blue"), Some(Rgb8 { r: 67, g: 141, b: 230 }));
    assert_eq!(accent_color("Teal"), Some(Rgb8 { r: 33, g: 144, b: 164 }));
    assert_eq!(accent_color("Yellow"), Some(Rgb8 { r: 200, g: 136, b: 0 }));
    assert_eq!(accent_color("Pink"), Some(Rgb8 { r: 212, g: 95, b: 151 }));
    assert_eq!(accent_color("Purple"), Some(Rgb8 { r: 145, g: 65, b: 172 }));
    assert_eq!(accent_color("blue"), None);
    assert_eq!(default_primary_folder_color(), Rgb8 { r: 164, g: 202, b: 238 });
    assert_eq!(default_secondary_folder_color(), Rgb8 { r: 67, g: 141, b: 230 });
}

#[test]
fn drop_down_names() {
    assert_eq!(get_selected_accent_color(0), "Blue");
    assert_eq!(get_selected_accent_color(4), "Orange");
    assert_eq!(get_selected_accent_color(9), "Custom");
}

#[test]
fn colour_rows_and_radio_state() {
    assert!(show_color_options("Custom", false));
    assert!(!show_color_options("Custom", true));
    assert!(!show_color_options("Blue", false));
    assert_eq!(dnd_radio_state(true), "top");
    assert_eq!(dnd_radio_state(false), "bottom");
}

#[test]
fn layer_for_dropped_images() {
    assert_eq!(top_or_bottom_default(false, "top"), LayerChoice::Ask);
    assert_eq!(top_or_bottom_default(true, "top"), LayerChoice::Top);
    assert_eq!(top_or_bottom_default(true, "bottom"), LayerChoice::Bottom);
    assert_eq!(top_or_bottom_default(true, "middle"), LayerChoice::Nowhere);
    assert_eq!(layer_from_response("TOP"), Some(true));
    assert_eq!(layer_from_response("BOTTOM"), Some(false));
    assert_eq!(layer_from_response("close"), None);
}

#[test]
fn regeneratable_from_settings() {
    assert_eq!(regeneration_current_file_uses_compatible_bottom_image(false, false, "None"), IconRegeneratable::Yes);
    assert_eq!(regeneration_current_file_uses_compatible_bottom_image(false, false, "Blue"), IconRegeneratable::NotStrictOnly);
    assert_eq!(regeneration_current_file_uses_compatible_bottom_image(true, false, "None"), IconRegeneratable::No);
    assert_eq!(regeneration_current_file_uses_compatible_bottom_image(false, true, "None"), IconRegeneratable::No);
}

#[test]
fn temporary_folder_menu() {
    assert_eq!(temp_folder_choice("", "p", "s"), None);
    assert_eq!(
        temp_folder_choice("Custom", "p", "s"),
        Some(BottomImageType::FolderCustom("p".to_string(), "s".to_string()))
    );
    assert_eq!(temp_folder_choice("Red", "p", "s"), Some(BottomImageType::Folder("Red".to_string())));
    assert_eq!(menu_folder_value(&BottomImageType::FolderSystem, "Teal"), "Teal");
    assert_eq!(menu_folder_value(&BottomImageType::Folder("Red".to_string()), "Teal"), "Red");
    assert_eq!(
        menu_folder_value(&BottomImageType::FolderCustom("p".to_string(), "s".to_string()), "Teal"),
        "Custom"
    );
    assert_eq!(menu_folder_value(&BottomImageType::Custom, "Teal"), "");
}

#[test]
fn menu_choice_selects_the_same_folder_again() {
    let folder = BottomImageType::Folder("Green".to_string());
    assert_eq!(temp_folder_choice(&menu_folder_value(&folder, "Blue"), "p", "s"), Some(folder));
    let custom = BottomImageType::FolderCustom("p".to_string(), "s".to_string());
    assert_eq!(temp_folder_choice(&menu_folder_value(&custom, "Blue"), "p", "s"), Some(custom));
}

#[test]
fn regeneration_hint_and_start() {
    assert!(show_regeneration_hint(false, &BottomImageType::FolderSystem));
    assert!(!show_regeneration_hint(true, &BottomImageType::FolderSystem));
    assert!(!show_regeneration_hint(false, &BottomImageType::Folder("Red".to_string())));
    assert!(check_if_regeneration_needed("Blue", "Red", true));
    assert!(!check_if_regeneration_needed("Blue", "Red", false));
    assert!(!check_if_regeneration_needed("Blue", "Blue", true));
}

#[test]
fn file_names_for_cache_save_and_drag() {
    assert_eq!(cache_file_name("svg"), "folder.svg");
    assert_eq!(save_file_name("cat"), "folder-cat.png");
    assert_eq!(random_drag_file_name("aB3dE6gH9j", false), "folder-aB3dE6gH9j.png");
    assert_eq!(random_drag_file_name("aB3dE6gH9j", true), "folder-aB3dE6gH9j-temp.png");
}

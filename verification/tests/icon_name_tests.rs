use iconic::icon_name::{drag_file_name, FilenameProperties, PropertiesText};
use iconic::properties::{BottomImageType, FilenameProperty, IconRegeneratable, PropertiesError};

fn sample_text(regeneratable: IconRegeneratable, default_monochrome: bool) -> PropertiesText {
    PropertiesText {
        regeneratable,
        x_val: "0".to_string(),
        y_val: "9.447".to_string(),
        zoom_val: "24".to_string(),
        monochrome: true,
        threshold: "128".to_string(),
        red: "0.2627451".to_string(),
        green: "0.5529412".to_string(),
        blue: "0.9019608".to_string(),
        inverted: false,
        default_monochrome,
    }
}

#[test]
fn properties_string_joins_fields_with_dashes() {
    let text = sample_text(IconRegeneratable::NotStrictOnly, false);
    assert_eq!(
        text.create_image_properties_string(),
        "0-0-9.447-24-1-128-0.2627451-0.5529412-0.9019608-0-false"
    );
    let text = sample_text(IconRegeneratable::Yes, true);
    assert_eq!(
        text.create_image_properties_string(),
        "1-0-9.447-24-1-128-0.2627451-0.5529412-0.9019608-0-true"
    );
}

#[test]
fn drag_file_name_wraps_properties_and_hash() {
    assert_eq!(drag_file_name("1-2-3", 42), "folder_new-1-2-3-42.png");
    assert_eq!(drag_file_name("", 0), "folder_new--0.png");
}

#[test]
fn from_filename_reads_every_field() {
    let name = "folder_new-2-0-9.447-24-1-128-0.2627451-0.5529412-0.9019608-0-false-12345.png";
    let p = FilenameProperties::from_filename(name).unwrap();
    assert!(p.default_bottom_image);
    assert_eq!(p.bottom_image_type(), BottomImageType::FolderSystem);
    assert_eq!(p.x_val, "0");
    assert_eq!(p.y_val, "9.447");
    assert_eq!(p.zoom_val, "24");
    assert!(p.monochrome_toggle);
    assert_eq!(p.monochrome_threshold_val, 128);
    assert!(!p.monochrome_invert);
    assert!(!p.monochrome_default);
    assert_eq!(
        p.monochrome_color,
        Some(("0.2627451".to_string(), "0.5529412".to_string(), "0.9019608".to_string()))
    );
    assert_eq!(p.top_image_hash, 12345);
}

#[test]
fn from_filename_without_colour_when_default() {
    let name = "folder_new-0-1.5-2.5-3-0-+7-1-1-1-1-true-0.png";
    let p = FilenameProperties::from_filename(name).unwrap();
    assert!(!p.default_bottom_image);
    assert_eq!(p.bottom_image_type(), BottomImageType::Unknown);
    assert_eq!(p.monochrome_threshold_val, 7);
    assert!(p.monochrome_invert);
    assert!(p.monochrome_default);
    assert_eq!(p.monochrome_color, None);
    assert_eq!(p.top_image_hash, 0);
}

#[test]
fn from_filename_rejects_other_names() {
    let r = FilenameProperties::from_filename("folder-abcdefghij.png");
    assert!(matches!(r, Err(PropertiesError::Incompatible)));
    let r = FilenameProperties::from_filename("picture.png");
    assert!(matches!(r, Err(PropertiesError::Incompatible)));
}

#[test]
fn from_filename_reports_the_first_bad_field() {
    let bad_switch = "folder_new-1-0-0-0-yes-128-0-0-0-0-false-1.png";
    assert!(matches!(
        FilenameProperties::from_filename(bad_switch),
        Err(PropertiesError::InvalidField(FilenameProperty::MonochromeSelected))
    ));
    let bad_threshold = "folder_new-1-0-0-0-1-256-0-0-0-0-false-1.png";
    assert!(matches!(
        FilenameProperties::from_filename(bad_threshold),
        Err(PropertiesError::InvalidField(FilenameProperty::MonochromeThreshold))
    ));
    let fractional_threshold = "folder_new-1-0-0-0-1-127.5-0-0-0-0-false-1.png";
    assert!(matches!(
        FilenameProperties::from_filename(fractional_threshold),
        Err(PropertiesError::InvalidField(FilenameProperty::MonochromeThreshold))
    ));
    let bad_default = "folder_new-1-0-0-0-1-128-0-0-0-0-True-1.png";
    assert!(matches!(
        FilenameProperties::from_filename(bad_default),
        Err(PropertiesError::InvalidField(FilenameProperty::DefaultMonochromeColor))
    ));
    let bad_hash = "folder_new-1-0-0-0-1-128-0-0-0-0-false-18446744073709551616.png";
    assert!(matches!(
        FilenameProperties::from_filename(bad_hash),
        Err(PropertiesError::InvalidField(FilenameProperty::Hash))
    ));
    let bad_bottom = "folder_new-x-0-0-0-1-128-0-0-0-0-false-1.png";
    assert!(matches!(
        FilenameProperties::from_filename(bad_bottom),
        Err(PropertiesError::InvalidField(FilenameProperty::DefaultBottomImage))
    ));
    let bad_invert = "folder_new-1-0-0-0-1-128-0-0-0-2x-false-1.png";
    assert!(matches!(
        FilenameProperties::from_filename(bad_invert),
        Err(PropertiesError::InvalidField(FilenameProperty::MonochromeInverted))
    ));
}

#[test]
fn generated_name_reads_back() {
    let text = sample_text(IconRegeneratable::No, false);
    let name = drag_file_name(&text.create_image_properties_string(), 987654321);
    let p = FilenameProperties::from_filename(&name).unwrap();
    assert!(!p.default_bottom_image);
    assert_eq!(p.x_val, text.x_val);
    assert_eq!(p.y_val, text.y_val);
    assert_eq!(p.zoom_val, text.zoom_val);
    assert_eq!(p.monochrome_toggle, text.monochrome);
    assert_eq!(p.monochrome_invert, text.inverted);
    assert_eq!(p.monochrome_default, text.default_monochrome);
    assert_eq!(p.monochrome_threshold_val, 128);
    assert_eq!(
        p.monochrome_color,
        Some((text.red.clone(), text.green.clone(), text.blue.clone()))
    );
    assert_eq!(p.top_image_hash, 987654321);
}

#[test]
fn strictly_regeneratable_icon_reads_back_as_system_folder() {
    let text = sample_text(IconRegeneratable::Yes, true);
    let name = drag_file_name(&text.create_image_properties_string(), 5);
    let p = FilenameProperties::from_filename(&name).unwrap();
    assert!(p.default_bottom_image);
    assert_eq!(p.bottom_image_type(), BottomImageType::FolderSystem);
    let text = sample_text(IconRegeneratable::NotStrictOnly, true);
    let name = drag_file_name(&text.create_image_properties_string(), 5);
    let p = FilenameProperties::from_filename(&name).unwrap();
    assert_eq!(p.bottom_image_type(), BottomImageType::Unknown);
}

#[test]
fn from_filename_reports_missing_fields() {
    let cases = [
        ("folder_new.png", FilenameProperty::XScale),
        ("folder_new-1.png", FilenameProperty::XScale),
        ("folder_new-1-2.png", FilenameProperty::YScale),
        ("folder_new-1-2-3.png", FilenameProperty::ZoomVal),
        ("folder_new-1-2-3-4.png", FilenameProperty::MonochromeSelected),
        ("folder_new-1-2-3-4-x.png", FilenameProperty::MonochromeSelected),
        ("folder_new-1-2-3-4-1-128-0-0-0.png", FilenameProperty::MonochromeInverted),
        ("folder_new-1-2-3-4-1-128-0-0-0-0.png", FilenameProperty::DefaultMonochromeColor),
        ("folder_new-1-2-3-4-1-x-0-0-0-0-true.png", FilenameProperty::MonochromeThreshold),
        ("folder_new-1-2-3-4-1-128-0-0-0-0-true.png", FilenameProperty::Hash),
    ];
    for (name, field) in cases {
        assert_eq!(FilenameProperties::from_filename(name).err(), Some(PropertiesError::InvalidField(field)), "{}", name);
    }
}

#[test]
fn filename_property_positions() {
    assert_eq!(FilenameProperty::FileName.index(), 0);
    assert_eq!(FilenameProperty::DefaultBottomImage.index(), 1);
    assert_eq!(FilenameProperty::MonochromeThreshold.index(), 6);
    assert_eq!(FilenameProperty::DefaultMonochromeColor.index(), 11);
    assert_eq!(FilenameProperty::Hash.index(), 12);
}

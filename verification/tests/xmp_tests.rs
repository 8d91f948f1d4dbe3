use iconic::color::Rgb8;
use iconic::properties::{PropertiesError, XmpProperty};
use iconic::xmp::{add_image_metadata, XmpProperties};

fn sample() -> XmpProperties {
    XmpProperties {
        x_val: "1.5".to_string(),
        y_val: "-3".to_string(),
        zoom_val: "24".to_string(),
        monochrome_toggle: true,
        monochrome_color: Some(Rgb8 { r: 10, g: 20, b: 30 }),
        monochrome_default: false,
        monochrome_invert: true,
        monochrome_threshold_val: 99,
        top_image_hash: Some(77),
        bottom_image_type: "\"FolderSystem\"".to_string(),
        default: false,
    }
}

fn entry(k: &str, v: &str) -> (String, String) {
    (k.to_string(), v.to_string())
}

#[test]
fn metadata_entries_in_order() {
    let entries = add_image_metadata(&sample());
    assert_eq!(
        entries,
        vec![
            entry("x_val", "1.5"),
            entry("y_val", "-3"),
            entry("zoom_val", "24"),
            entry("monochrome_toggle", "true"),
            entry("monochrome_red", "10"),
            entry("monochrome_blue", "20"),
            entry("monochrome_green", "30"),
            entry("monochrome_default", "false"),
            entry("monochrome_invert", "true"),
            entry("monochrome_threshold", "99"),
            entry("top_image_hash", "77"),
            entry("bottom_image_type", "\"FolderSystem\""),
        ]
    );
}

#[test]
fn metadata_reads_back_with_green_and_blue_swapped() {
    let entries = add_image_metadata(&sample());
    let p = XmpProperties::from_xmp_data(&entries).unwrap();
    assert_eq!(p.x_val, "1.5");
    assert_eq!(p.y_val, "-3");
    assert_eq!(p.zoom_val, "24");
    assert!(p.monochrome_toggle);
    assert_eq!(p.monochrome_color, Some(Rgb8 { r: 10, g: 30, b: 20 }));
    assert!(!p.monochrome_default);
    assert!(p.monochrome_invert);
    assert_eq!(p.monochrome_threshold_val, 99);
    assert_eq!(p.top_image_hash, Some(77));
    assert_eq!(p.bottom_image_type, "\"FolderSystem\"");
    assert!(p.default);
}

#[test]
fn metadata_without_colour_or_hash() {
    let mut props = sample();
    props.monochrome_toggle = false;
    props.monochrome_color = None;
    props.top_image_hash = None;
    let entries = add_image_metadata(&props);
    assert_eq!(entries.len(), 8);
    let p = XmpProperties::from_xmp_data(&entries).unwrap();
    assert_eq!(p.monochrome_color, None);
    assert_eq!(p.top_image_hash, None);
}

#[test]
fn metadata_errors_name_the_property() {
    let r = XmpProperties::from_xmp_data(&vec![]);
    assert!(matches!(r, Err(PropertiesError::MissingProperty(XmpProperty::XVal))));
    let mut entries = add_image_metadata(&sample());
    entries.retain(|(k, _)| k != "monochrome_green");
    let r = XmpProperties::from_xmp_data(&entries);
    assert!(matches!(r, Err(PropertiesError::MissingProperty(XmpProperty::MonochromeGreen))));
    let mut entries = add_image_metadata(&sample());
    entries[3].1 = "1".to_string();
    let r = XmpProperties::from_xmp_data(&entries);
    assert!(matches!(r, Err(PropertiesError::InvalidProperty(XmpProperty::MonochromeToggle))));
    let mut entries = add_image_metadata(&sample());
    entries.push(entry("default", "yes"));
    let r = XmpProperties::from_xmp_data(&entries);
    assert!(matches!(r, Err(PropertiesError::InvalidProperty(XmpProperty::Default))));
}

#[test]
fn metadata_hash_and_default_flag() {
    let mut entries = add_image_metadata(&sample());
    entries[10].1 = "not a number".to_string();
    entries.push(entry("default", "false"));
    let p = XmpProperties::from_xmp_data(&entries).unwrap();
    assert_eq!(p.top_image_hash, Some(0));
    assert!(!p.default);
}

#[test]
fn property_names() {
    assert_eq!(XmpProperty::XVal.name(), "x_val");
    assert_eq!(XmpProperty::MonochromeThreshold.name(), "monochrome_threshold");
    assert_eq!(XmpProperty::BottomImageType.name(), "bottom_image_type");
    assert_eq!(XmpProperty::Default.name(), "default");
}

use iconic::properties::{BottomImageType, PropertiesSource};

#[test]
fn strict_compatibility_of_folder_images() {
    assert_eq!(BottomImageType::FolderSystem.is_strict_compatible(), Some(true));
    assert_eq!(
        BottomImageType::FolderCustom("a4caee".to_string(), "438de6".to_string()).is_strict_compatible(),
        Some(false)
    );
    assert_eq!(BottomImageType::Folder("Blue".to_string()).is_strict_compatible(), Some(false));
    assert_eq!(BottomImageType::Folder("Unknown".to_string()).is_strict_compatible(), None);
    assert_eq!(BottomImageType::Unknown.is_strict_compatible(), None);
    assert_eq!(BottomImageType::Custom.is_strict_compatible(), None);
    assert_eq!(BottomImageType::Temporary.is_strict_compatible(), None);
}

#[test]
fn properties_sources_differ() {
    assert_ne!(PropertiesSource::XMP, PropertiesSource::Filename);
}

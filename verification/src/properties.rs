//! What an icon was made with: the kind of folder image under it, and the
//! placement and monochrome settings that are written into a generated icon's
//! file name so that the icon can be made again later.
use vstd::prelude::*;
use crate::text::{chars_eq, chars_of, lit};

verus! {

/// Where the properties of an icon were read from.
#[derive(Debug, Clone, Copy, PartialEq, Eq, Structural)]
pub enum PropertiesSource {
    XMP,
    Filename,
}

/// The folder image that lies under the top image.
#[derive(Debug, Clone, PartialEq, Eq)]
pub enum BottomImageType {
    Unknown,
    FolderSystem,
    Folder(String),
    /// The custom folder colours: foreground, then background.
    FolderCustom(String, String),
    Custom,
    Temporary,
}

/// The folder image as plain values: the kind of image and the texts it carries.
pub enum BottomImageView {
    Unknown,
    FolderSystem,
    Folder(Seq<char>),
    FolderCustom(Seq<char>, Seq<char>),
    Custom,
    Temporary,
}

impl View for BottomImageType {
    type V = BottomImageView;

    open spec fn view(&self) -> BottomImageView {
        match self {
            BottomImageType::Unknown => BottomImageView::Unknown,
            BottomImageType::FolderSystem => BottomImageView::FolderSystem,
            BottomImageType::Folder(v) => BottomImageView::Folder(v@),
            BottomImageType::FolderCustom(f, b) => BottomImageView::FolderCustom(f@, b@),
            BottomImageType::Custom => BottomImageView::Custom,
            BottomImageType::Temporary => BottomImageView::Temporary,
        }
    }
}

impl BottomImageView {
    /// Whether an icon on this folder image can be regenerated in strict mode
    /// (`Some(true)`), only outside strict mode (`Some(false)`), or never (`None`).
    pub open spec fn strict_compatibility(self) -> Option<bool> {
        match self {
            BottomImageView::FolderSystem => Some(true),
            BottomImageView::FolderCustom(_, _) => Some(false),
            BottomImageView::Folder(value) => if value != unknown_text() {
                Some(false)
            } else {
                None
            },
            _ => None,
        }
    }
}

/// The fields of a generated icon's file name, in the order in which they stand
/// between the `-` separators.
#[derive(Debug, Clone, Copy, PartialEq, Eq, Structural)]
pub enum FilenameProperty {
    FileName,
    DefaultBottomImage,
    XScale,
    YScale,
    ZoomVal,
    MonochromeSelected,
    MonochromeThreshold,
    MonochromeRed,
    MonochromeGreen,
    MonochromeBlue,
    MonochromeInverted,
    DefaultMonochromeColor,
    Hash,
}

/// Which mask shapes the top image: one made from the folder image, none, or a
/// custom mask stored under the given name.
#[derive(Debug, Clone, PartialEq, Eq)]
pub enum MaskType {
    Automatic,
    Disabled,
    Custom(String),
}

/// The mask that goes with a folder image: a mask file at the given path, or one
/// made from the folder image itself.
#[derive(Debug, Clone, PartialEq, Eq)]
pub enum MaskOption {
    Custom(String),
    Automatic,
}

/// Whether the current icon can be regenerated when the accent colour changes.
#[derive(Debug, Clone, Copy, PartialEq, Eq, Structural)]
pub enum IconRegeneratable {
    Yes,
    No,
    NotStrictOnly,
}

/// Why the properties of an icon could not be read.
#[derive(Debug, Clone, Copy, PartialEq, Eq, Structural)]
pub enum PropertiesError {
    /// The file name does not belong to an icon that Iconic generated.
    Incompatible,
    /// A field of the file name does not hold a value of its kind.
    InvalidField(FilenameProperty),
    /// A property that the image's metadata must hold is missing.
    MissingProperty(XmpProperty),
    /// A property of the image's metadata does not hold a value of its kind.
    InvalidProperty(XmpProperty),
}

/// The properties that Iconic writes into the XMP metadata of a generated icon.
#[derive(Debug, Clone, Copy, PartialEq, Eq, Structural)]
pub enum XmpProperty {
    XVal,
    YVal,
    ZoomVal,
    MonochromeToggle,
    MonochromeRed,
    MonochromeGreen,
    MonochromeBlue,
    MonochromeDefault,
    MonochromeInvert,
    MonochromeThreshold,
    TopImageHash,
    BottomImageType,
    Default,
}

pub open spec fn unknown_text() -> Seq<char> {
    seq!['U', 'n', 'k', 'n', 'o', 'w', 'n']
}

impl BottomImageType {
    /// Whether this image is able to be regenerated with strict mode enabled.
    /// By returning none, the image is not at all compatible for regeneration.
    pub fn is_strict_compatible(&self) -> (r: Option<bool>)
        ensures
            r == self@.strict_compatibility(),
    {
        match self {
            BottomImageType::FolderSystem => Some(true),
            BottomImageType::FolderCustom(_, _) => Some(false),
            BottomImageType::Folder(value) => {
                let v = chars_of(value.as_str());
                let u = lit("Unknown");
                proof {
                    reveal_strlit("Unknown");
                }
                assert(u@ =~= unknown_text());
                if !chars_eq(&v, &u) {
                    Some(false)
                } else {
                    None
                }
            },
            _ => None,
        }
    }
}

impl FilenameProperty {
    /// The position of this field among the `-`-separated fields of a file name.
    pub open spec fn spec_index(self) -> nat {
        match self {
            FilenameProperty::FileName => 0,
            FilenameProperty::DefaultBottomImage => 1,
            FilenameProperty::XScale => 2,
            FilenameProperty::YScale => 3,
            FilenameProperty::ZoomVal => 4,
            FilenameProperty::MonochromeSelected => 5,
            FilenameProperty::MonochromeThreshold => 6,
            FilenameProperty::MonochromeRed => 7,
            FilenameProperty::MonochromeGreen => 8,
            FilenameProperty::MonochromeBlue => 9,
            FilenameProperty::MonochromeInverted => 10,
            FilenameProperty::DefaultMonochromeColor => 11,
            FilenameProperty::Hash => 12,
        }
    }

    /// The position of this field among the `-`-separated fields of a file name.
    pub fn index(&self) -> (i: usize)
        ensures
            i == self.spec_index(),
    {
        match self {
            FilenameProperty::FileName => 0,
            FilenameProperty::DefaultBottomImage => 1,
            FilenameProperty::XScale => 2,
            FilenameProperty::YScale => 3,
            FilenameProperty::ZoomVal => 4,
            FilenameProperty::MonochromeSelected => 5,
            FilenameProperty::MonochromeThreshold => 6,
            FilenameProperty::MonochromeRed => 7,
            FilenameProperty::MonochromeGreen => 8,
            FilenameProperty::MonochromeBlue => 9,
            FilenameProperty::MonochromeInverted => 10,
            FilenameProperty::DefaultMonochromeColor => 11,
            FilenameProperty::Hash => 12,
        }
    }
}

} // verus!

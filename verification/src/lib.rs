//! The rules behind Iconic, a tool that lays an image over a folder icon:
//! how generated icons are named and read back, how settings choose the folder
//! image, colours and their hex form, and the pixel work of masks and monochrome.
use vstd::prelude::*;

pub mod choices;
pub mod color;
pub mod decimal;
pub mod folder_svg;
pub mod icon_name;
pub mod properties;
pub mod raster;
pub mod svg;
pub mod text;
pub mod workflow;
pub mod xmp;

verus! {

} // verus!

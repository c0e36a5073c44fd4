//! Reading and editing the EXIF metadata of one image: its capture date,
//! description, recorded dimensions and camera attributes, with tracking of
//! what was modified and a commit that may rename the file after its date.

pub mod add_extention;
pub mod camera_info;
pub mod date;
pub mod exif_store;
pub mod file_name;
pub mod metadata;
pub mod rational;
pub mod tag;
pub mod text;

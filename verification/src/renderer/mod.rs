pub mod cursor;
pub mod packer;
pub mod selection;

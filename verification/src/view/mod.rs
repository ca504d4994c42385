//! The pages of the window, as markup.

pub mod home;

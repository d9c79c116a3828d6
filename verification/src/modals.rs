//! The dialogs of the application.

pub mod city_picker;
pub mod preferences;

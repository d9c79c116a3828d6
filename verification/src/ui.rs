//! Pieces of the main window.

pub mod city_search_result_row;
pub mod labels;

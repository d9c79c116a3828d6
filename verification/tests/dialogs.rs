use drizzle::binary64::Binary64;
use drizzle::modals::city_picker::{CityPickerCommand, CityPickerDialog, CityPickerDialogMsg};
use drizzle::modals::preferences::PreferencesDialog;
use drizzle::ui::city_search_result_row::{CityRowMsg, CitySearchResultRow};
use drizzle::weather_api::find_city::GeoResponse;

fn place(name: &str) -> GeoResponse {
    GeoResponse {
        name: name.to_string(),
        country: "Country".to_string(),
        admin1: "Region".to_string(),
        latitude: Binary64::from_bits(1.5f64.to_bits()),
        longitude: Binary64::from_bits(2.5f64.to_bits()),
    }
}

fn names(list: &[GeoResponse]) -> Vec<String> {
    list.iter().map(|c| c.name.clone()).collect()
}

#[test]
fn a_blank_query_lists_the_recent_cities() {
    let mut picker = CityPickerDialog::new();
    let command = picker.update(CityPickerDialogMsg::SetRecentCities(vec![place("A"), place("B")]));
    assert!(matches!(command, CityPickerCommand::Nothing));
    assert_eq!(names(&picker.search_results), vec!["A", "B"]);
    picker.update(CityPickerDialogMsg::SearchQueryChanged("Par".to_string()));
    assert_eq!(names(&picker.search_results), vec!["A", "B"]);
    picker.show_search_results(vec![place("Paris")]);
    assert_eq!(names(&picker.search_results), vec!["Paris"]);
    picker.update(CityPickerDialogMsg::SearchQueryChanged(" \t\u{3000}".to_string()));
    assert_eq!(names(&picker.search_results), vec!["A", "B"]);
    picker.update(CityPickerDialogMsg::SetRecentCities(vec![place("C")]));
    assert_eq!(names(&picker.search_results), vec!["C"]);
}

#[test]
fn searching() {
    let mut picker = CityPickerDialog::new();
    picker.update(CityPickerDialogMsg::SetRecentCities(vec![place("A")]));
    let command = picker.update(CityPickerDialogMsg::SearchCities);
    assert!(matches!(command, CityPickerCommand::Nothing));
    assert!(picker.search_results.is_empty());
    picker.update(CityPickerDialogMsg::SearchQueryChanged("  Rome ".to_string()));
    match picker.update(CityPickerDialogMsg::SearchCities) {
        CityPickerCommand::Search(query) => assert_eq!(query, "  Rome "),
        _ => panic!("expected a search"),
    }
    picker.update(CityPickerDialogMsg::SetRecentCities(vec![place("Z")]));
    assert!(picker.search_results.is_empty());
}

#[test]
fn choosing_from_a_row() {
    let row = CitySearchResultRow::init_model(place("Lima"));
    let message = row.update(CityRowMsg::Clicked);
    let mut picker = CityPickerDialog::new();
    match picker.update(message) {
        CityPickerCommand::Choose(city) => assert_eq!(city.name, "Lima"),
        _ => panic!("expected a choice"),
    }
}

#[test]
fn unit_toggles() {
    assert_eq!(PreferencesDialog::active_unit_toggle(true), "metric");
    assert_eq!(PreferencesDialog::active_unit_toggle(false), "imperial");
    assert!(PreferencesDialog::use_metric_for(Some("metric")));
    assert!(!PreferencesDialog::use_metric_for(Some("imperial")));
    assert!(!PreferencesDialog::use_metric_for(None));
    for metric in [true, false] {
        let name = PreferencesDialog::active_unit_toggle(metric);
        assert_eq!(PreferencesDialog::use_metric_for(Some(name)), metric);
    }
}

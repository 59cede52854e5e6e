use std::collections::HashSet;

use sniffnet::filters::PortFilter;
use sniffnet::translations::{
    interval_translation, port_translation, ports_translation, single_translation,
    well_known_translation, Language,
};

#[test]
fn english_labels() {
    assert_eq!(ports_translation(Language::EN), "Ports");
    assert_eq!(port_translation(Language::EN), "Port");
    assert_eq!(interval_translation(Language::EN), "Interval");
    assert_eq!(single_translation(Language::EN), "Single");
    assert_eq!(well_known_translation(Language::EN), "Well known");
}

#[test]
fn italian_labels() {
    assert_eq!(ports_translation(Language::IT), "Porte");
    assert_eq!(port_translation(Language::IT), "Porta");
    assert_eq!(interval_translation(Language::IT), "Intervallo");
    assert_eq!(single_translation(Language::IT), "Singola");
    assert_eq!(well_known_translation(Language::IT), "Note");
}

#[test]
fn untranslated_languages_fall_back_to_english() {
    for language in [Language::FR, Language::DE, Language::ES, Language::PL, Language::PT, Language::RU] {
        assert_eq!(ports_translation(language), "Ports");
        assert_eq!(port_translation(language), "Port");
        assert_eq!(interval_translation(language), "Interval");
        assert_eq!(single_translation(language), "Single");
        assert_eq!(well_known_translation(language), "Well known");
    }
}

#[test]
fn all_strings_lists_the_three_kinds_in_order() {
    assert_eq!(PortFilter::all_strings(Language::EN), vec!["Interval", "Single", "Well known"]);
    assert_eq!(PortFilter::all_strings(Language::IT), vec!["Intervallo", "Singola", "Note"]);
}

#[test]
fn picklist_label_names_the_active_kind() {
    assert_eq!(PortFilter::Interval([0, 65535]).get_picklist_label(Language::EN), "Interval");
    assert_eq!(PortFilter::Single(80).get_picklist_label(Language::EN), "Single");
    assert_eq!(
        PortFilter::WellKnown(HashSet::new()).get_picklist_label(Language::IT),
        "Note"
    );
}

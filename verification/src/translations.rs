//! User-facing labels of the port-filter controls, in the languages the
//! application is translated to; languages without a translation fall back
//! to English.

use vstd::prelude::*;

verus! {

/// Language of the user interface.
#[derive(Clone, Copy, Debug, PartialEq, Eq, Structural)]
pub enum Language {
    /// English
    EN,
    /// Italian
    IT,
    /// French
    FR,
    /// German
    DE,
    /// Spanish
    ES,
    /// Polish
    PL,
    /// Portuguese
    PT,
    /// Russian
    RU,
}

/// The label of the ports section.
pub open spec fn ports_label(language: Language) -> Seq<char> {
    if language == Language::IT {
        "Porte"@
    } else {
        "Ports"@
    }
}

/// The label of a single port input.
pub open spec fn port_label(language: Language) -> Seq<char> {
    if language == Language::IT {
        "Porta"@
    } else {
        "Port"@
    }
}

/// The label of the interval port-filter kind.
pub open spec fn interval_label(language: Language) -> Seq<char> {
    if language == Language::IT {
        "Intervallo"@
    } else {
        "Interval"@
    }
}

/// The label of the single-port filter kind.
pub open spec fn single_label(language: Language) -> Seq<char> {
    if language == Language::IT {
        "Singola"@
    } else {
        "Single"@
    }
}

/// The label of the well-known-ports filter kind.
pub open spec fn well_known_label(language: Language) -> Seq<char> {
    if language == Language::IT {
        "Note"@
    } else {
        "Well known"@
    }
}

pub fn ports_translation(language: Language) -> (r: &'static str)
    ensures
        r@ == ports_label(language),
{
    match language {
        Language::EN => "Ports",
        Language::IT => "Porte",
        _ => "Ports",
    }
}

pub fn port_translation(language: Language) -> (r: &'static str)
    ensures
        r@ == port_label(language),
{
    match language {
        Language::EN => "Port",
        Language::IT => "Porta",
        _ => "Port",
    }
}

pub fn interval_translation(language: Language) -> (r: &'static str)
    ensures
        r@ == interval_label(language),
{
    match language {
        Language::EN => "Interval",
        Language::IT => "Intervallo",
        _ => "Interval",
    }
}

pub fn single_translation(language: Language) -> (r: &'static str)
    ensures
        r@ == single_label(language),
{
    match language {
        Language::EN => "Single",
        Language::IT => "Singola",
        _ => "Single",
    }
}

pub fn well_known_translation(language: Language) -> (r: &'static str)
    ensures
        r@ == well_known_label(language),
{
    match language {
        Language::EN => "Well known",
        Language::IT => "Note",
        _ => "Well known",
    }
}

} // verus!

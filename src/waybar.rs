//! The record that a custom module of the Waybar status bar reads, one JSON
//! object per line.
use vstd::prelude::*;

verus! {

/// One line for the bar. Absent optional fields are left out of the JSON
/// object rather than written as null.
#[derive(Clone, Debug, PartialEq, Eq)]
pub struct WaybarData {
    pub class: String,
    pub text: String,
    pub alt: Option<String>,
    pub tooltip: Option<String>,
    pub percentage: Option<usize>,
}

/// The contents of a record, as text.
pub struct WaybarView {
    pub class: Seq<char>,
    pub text: Seq<char>,
    pub alt: Option<Seq<char>>,
    pub tooltip: Option<Seq<char>>,
    pub percentage: Option<usize>,
}

pub open spec fn text_of(s: Option<String>) -> Option<Seq<char>> {
    match s {
        Some(t) => Some(t@),
        None => None,
    }
}

impl View for WaybarData {
    type V = WaybarView;

    open spec fn view(&self) -> WaybarView {
        WaybarView {
            class: self.class@,
            text: self.text@,
            alt: text_of(self.alt),
            tooltip: text_of(self.tooltip),
            percentage: self.percentage,
        }
    }
}

/// A record with only a class and a text.
pub open spec fn plain_record(class: Seq<char>, text: Seq<char>) -> WaybarView {
    WaybarView { class, text, alt: None, tooltip: None, percentage: None }
}

impl WaybarData {
    /// A record with only a class and a text.
    pub fn plain(class: String, text: String) -> (r: WaybarData)
        ensures
            r@ == plain_record(class@, text@),
    {
        WaybarData { class, text, alt: None, tooltip: None, percentage: None }
    }
}

} // verus!

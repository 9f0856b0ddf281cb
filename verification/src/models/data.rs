//! Records of the store, grouped by category.

use vstd::prelude::*;

verus! {

/// One stored record. Records are grouped by `category_slug`.
#[derive(Clone, Debug, PartialEq, Eq)]
pub struct Row {
    pub id: u32,
    pub category_slug: String,
    pub name: String,
    pub title: String,
}

/// A record as plain mathematical values.
pub struct RowView {
    pub id: u32,
    pub category_slug: Seq<char>,
    pub name: Seq<char>,
    pub title: Seq<char>,
}

impl View for Row {
    type V = RowView;

    open spec fn view(&self) -> RowView {
        RowView {
            id: self.id,
            category_slug: self.category_slug@,
            name: self.name@,
            title: self.title@,
        }
    }
}

} // verus!

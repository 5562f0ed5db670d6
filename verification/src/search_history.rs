//! The search history: what a stored record of past lookups holds.

use crate::text::{parse_u64, spec_parse_u64};
use vstd::prelude::*;

verus! {

/// One line of a user's search history: who looked up whom, how often, and
/// when last, in seconds since the Unix epoch.
#[derive(Debug, PartialEq, Eq)]
pub struct SearchedDetails {
    pub discord_id: String,
    pub searched_name: String,
    pub times: u64,
    pub last_search: u64,
}

/// The mathematical content of a [`SearchedDetails`].
pub struct SearchedDetailsView {
    pub discord_id: Seq<char>,
    pub searched_name: Seq<char>,
    pub times: u64,
    pub last_search: u64,
}

impl View for SearchedDetails {
    type V = SearchedDetailsView;

    open spec fn view(&self) -> SearchedDetailsView {
        SearchedDetailsView {
            discord_id: self.discord_id@,
            searched_name: self.searched_name@,
            times: self.times,
            last_search: self.last_search,
        }
    }
}

/// The content of each line of a history.
pub open spec fn history_view(history: Seq<SearchedDetails>) -> Seq<SearchedDetailsView> {
    history.map_values(|line: SearchedDetails| line@)
}

/// An attribute of a stored record, as far as the history reads it: text,
/// a number written as text, or anything else.
#[derive(Debug, PartialEq, Eq)]
pub enum StoredAttribute {
    Text(String),
    Number(String),
    Other,
}

/// The mathematical content of a [`StoredAttribute`].
pub enum StoredAttributeView {
    Text(Seq<char>),
    Number(Seq<char>),
    Other,
}

impl View for StoredAttribute {
    type V = StoredAttributeView;

    open spec fn view(&self) -> StoredAttributeView {
        match self {
            StoredAttribute::Text(text) => StoredAttributeView::Text(text@),
            StoredAttribute::Number(text) => StoredAttributeView::Number(text@),
            StoredAttribute::Other => StoredAttributeView::Other,
        }
    }
}

/// The content of an attribute that a record may lack.
pub open spec fn opt_attribute_view(attribute: Option<StoredAttribute>) -> Option<
    StoredAttributeView,
> {
    match attribute {
        Some(attribute) => Some(attribute@),
        None => None,
    }
}

/// The text of an attribute that is there and is text.
pub open spec fn attribute_text(attribute: Option<StoredAttributeView>) -> Option<Seq<char>> {
    match attribute {
        Some(StoredAttributeView::Text(text)) => Some(text),
        _ => None,
    }
}

/// The value of an attribute that is there and is an unsigned number.
pub open spec fn attribute_number(attribute: Option<StoredAttributeView>) -> Option<u64> {
    match attribute {
        Some(StoredAttributeView::Number(text)) => spec_parse_u64(text),
        _ => None,
    }
}

/// The history line that a stored record holds: its partition key names
/// the user, its sort key the player looked up, and two numbers count the
/// lookups and date the last one. A record that lacks one of the four, or
/// holds it in another form, is no history line.
pub open spec fn spec_searched_details(
    partition_key: Option<StoredAttributeView>,
    sort_key: Option<StoredAttributeView>,
    times: Option<StoredAttributeView>,
    last_search: Option<StoredAttributeView>,
) -> Option<SearchedDetailsView> {
    match (
        attribute_text(partition_key),
        attribute_text(sort_key),
        attribute_number(times),
        attribute_number(last_search),
    ) {
        (Some(discord_id), Some(searched_name), Some(times), Some(last_search)) => Some(
            SearchedDetailsView { discord_id, searched_name, times, last_search },
        ),
        _ => None,
    }
}

/// The content of a history line that may be absent.
pub open spec fn opt_details_view(details: Option<SearchedDetails>) -> Option<
    SearchedDetailsView,
> {
    match details {
        Some(details) => Some(details@),
        None => None,
    }
}

fn text_of(attribute: Option<StoredAttribute>) -> (text: Option<String>)
    ensures
        crate::text::opt_text(text) == attribute_text(opt_attribute_view(attribute)),
{
    match attribute {
        Some(StoredAttribute::Text(text)) => Some(text),
        _ => None,
    }
}

fn number_of(attribute: Option<StoredAttribute>) -> (number: Option<u64>)
    ensures
        number == attribute_number(opt_attribute_view(attribute)),
{
    match attribute {
        Some(StoredAttribute::Number(text)) => parse_u64(text.as_str()),
        _ => None,
    }
}

/// Reads a history line out of the four attributes of a stored record.
pub fn get_searched_details(
    partition_key: Option<StoredAttribute>,
    sort_key: Option<StoredAttribute>,
    times: Option<StoredAttribute>,
    last_search: Option<StoredAttribute>,
) -> (details: Option<SearchedDetails>)
    ensures
        opt_details_view(details) == spec_searched_details(
            opt_attribute_view(partition_key),
            opt_attribute_view(sort_key),
            opt_attribute_view(times),
            opt_attribute_view(last_search),
        ),
{
    match (text_of(partition_key), text_of(sort_key), number_of(times), number_of(last_search)) {
        (Some(discord_id), Some(searched_name), Some(times), Some(last_search)) => Some(
            SearchedDetails { discord_id, searched_name, times, last_search },
        ),
        _ => None,
    }
}

} // verus!

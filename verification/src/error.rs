//! The ways in which the arguments of a call can be unacceptable.

use vstd::prelude::*;

use crate::host::{pretty_debug, pretty_list};
use crate::text::string_views;

verus! {

/// An unacceptable argument.
#[derive(Debug)]
pub enum ValueError {
    /// The three time arguments are neither a total alone nor the two parts alone.
    TimeArguments,
    /// Two items of an instance share an identifier; `ids` lists them all.
    ItemIdsNotUnique { ids: Vec<String> },
    /// A layout to start from places an item that the instance does not have.
    UnknownItemId { id: String },
}

/// The mathematical content of a `ValueError`.
#[verifier::ext_equal]
pub enum ValueErrorView {
    TimeArguments,
    ItemIdsNotUnique { ids: Seq<Seq<char>> },
    UnknownItemId { id: Seq<char> },
}

impl View for ValueError {
    type V = ValueErrorView;

    open spec fn view(&self) -> ValueErrorView {
        match self {
            ValueError::TimeArguments => ValueErrorView::TimeArguments,
            ValueError::ItemIdsNotUnique { ids } => ValueErrorView::ItemIdsNotUnique {
                ids: string_views(ids@),
            },
            ValueError::UnknownItemId { id } => ValueErrorView::UnknownItemId { id: id@ },
        }
    }
}

/// The message for an instance whose identifiers, printed as `listing`, are not unique.
pub open spec fn not_unique_text(listing: Seq<char>) -> Seq<char> {
    "The item ids are not uniques: "@ + listing
}

/// The message for a layout that places an item of the unknown identifier `id`.
pub open spec fn unknown_item_text(id: Seq<char>) -> Seq<char> {
    "initial_solution references unknown item id '"@ + id + "'"@
}

/// The message for an unusable combination of time arguments.
pub open spec fn time_arguments_text() -> Seq<char> {
    "Either total_computation_time or both exploration_time and compression_time should be provided, not all 3 or some other combination"@
}

impl ValueErrorView {
    /// The message that a user reads.
    pub open spec fn text(self) -> Seq<char> {
        match self {
            ValueErrorView::TimeArguments => time_arguments_text(),
            ValueErrorView::ItemIdsNotUnique { ids } => not_unique_text(pretty_debug(ids)),
            ValueErrorView::UnknownItemId { id } => unknown_item_text(id),
        }
    }
}

/// Completes the message about identifiers that are not unique with their listing.
pub fn not_unique_message(listing: &str) -> (message: String)
    ensures
        message@ == not_unique_text(listing@),
        message@ == "The item ids are not uniques: "@ + listing@,
{
    String::from_str("The item ids are not uniques: ").concat(listing)
}

impl ValueError {
    /// The message that a user reads.
    pub fn message(&self) -> (message: String)
        ensures
            message@ == self@.text(),
            self matches ValueError::TimeArguments ==> message@
                == "Either total_computation_time or both exploration_time and compression_time should be provided, not all 3 or some other combination"@,
            self matches ValueError::ItemIdsNotUnique { ids } ==> message@
                == "The item ids are not uniques: "@ + pretty_debug(string_views(ids@)),
            self matches ValueError::UnknownItemId { id } ==> message@
                == "initial_solution references unknown item id '"@ + id@ + "'"@,
    {
        match self {
            ValueError::TimeArguments => String::from_str(
                "Either total_computation_time or both exploration_time and compression_time should be provided, not all 3 or some other combination",
            ),
            ValueError::ItemIdsNotUnique { ids } => {
                let listing = pretty_list(ids);
                not_unique_message(listing.as_str())
            },
            ValueError::UnknownItemId { id } => String::from_str(
                "initial_solution references unknown item id '",
            ).concat(id.as_str()).concat("'"),
        }
    }
}

} // verus!

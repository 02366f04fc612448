use vstd::prelude::*;
use crate::html::context::Flash;
use crate::stack::model::{ListStackModel, StackModel};
use crate::text::{join2, owned, signed_decimal, with_number};
use crate::timestamp::{timestamp_shown, timestamp_text};

verus! {

/// Where the recorded-error pages are mounted.
pub const STACK_ROUTE: &'static str = "/stack";

/// The list of recorded errors, where the browser goes after clearing.
pub fn stack_list_location() -> (r: String)
    ensures
        r@ == "/stack/"@,
{
    proof {
        reveal_strlit("/stack");
        reveal_strlit("/");
        reveal_strlit("/stack/");
    }
    let r = join2(STACK_ROUTE, "/");
    assert(r@ =~= "/stack/"@);
    r
}

/// The request that clears old records.
pub fn stack_clear_href() -> (r: String)
    ensures
        r@ == "/stack/clear"@,
{
    proof {
        reveal_strlit("/stack");
        reveal_strlit("/clear");
        reveal_strlit("/stack/clear");
    }
    let r = join2(STACK_ROUTE, "/clear");
    assert(r@ =~= "/stack/clear"@);
    r
}

/// The page that shows recorded error `id`.
pub fn stack_view_href(id: i64) -> (r: String)
    ensures
        r@ == "/stack/view/"@ + signed_decimal(id as int),
{
    with_number("/stack/view/", id)
}

/// One recorded error as the list page shows it.
#[derive(Debug)]
pub struct StackListRow {
    pub id: i64,
    pub error_name: String,
    pub error_summary: String,
    pub reported_at: String,
    pub view_href: String,
}

/// `row` shows `item`.
pub open spec fn stack_row_shows(row: StackListRow, item: ListStackModel) -> bool {
    &&& row.id == item.id
    &&& row.error_name@ == item.error_name@
    &&& row.error_summary@ == item.error_summary@
    &&& row.reported_at@ == timestamp_shown(item.reported_at)
    &&& row.view_href@ == "/stack/view/"@ + signed_decimal(item.id as int)
}

/// The rows of the list of recorded errors, one per record and in the same order.
pub fn stack_list_rows(items: &Vec<ListStackModel>) -> (r: Vec<StackListRow>)
    ensures
        r@.len() == items@.len(),
        forall|i: int| 0 <= i < items@.len() ==> stack_row_shows(#[trigger] r@[i], items@[i]),
{
    let mut rows: Vec<StackListRow> = Vec::new();
    let mut i: usize = 0;
    while i < items.len()
        invariant
            i <= items@.len(),
            rows@.len() == i,
            forall|k: int| 0 <= k < i ==> stack_row_shows(#[trigger] rows@[k], items@[k]),
        decreases items@.len() - i,
    {
        let item = &items[i];
        rows.push(StackListRow {
            id: item.id,
            error_name: item.error_name.clone(),
            error_summary: item.error_summary.clone(),
            reported_at: timestamp_text(item.reported_at),
            view_href: stack_view_href(item.id),
        });
        i = i + 1;
    }
    rows
}

/// The details page of one recorded error.
#[derive(Debug)]
pub struct StackDetail {
    pub reported_at: String,
    pub error_summary: String,
    pub error_stack: String,
}

/// What the details page shows of a recorded error.
pub fn stack_detail(item: &StackModel) -> (r: StackDetail)
    ensures
        r.reported_at@ == timestamp_shown(item.reported_at),
        r.error_summary@ == item.error_summary@,
        r.error_stack@ == item.error_stack@,
{
    StackDetail {
        reported_at: timestamp_text(item.reported_at),
        error_summary: item.error_summary.clone(),
        error_stack: item.error_stack.clone(),
    }
}

/// The message shown after old records were cleared.
pub fn stack_cleared_flash() -> (r: Flash)
    ensures
        r matches Flash::Success { msg } && msg@ == "Successfully clear records older than 30 days"@,
{
    Flash::Success { msg: owned("Successfully clear records older than 30 days") }
}

} // verus!

use vstd::prelude::*;
use crate::locale::{text_or, Locale};
use crate::text::join2;

verus! {

/// The texts of the list of recorded errors.
#[derive(Debug)]
pub struct StackLocale {
    pub title: String,
    pub head_id: String,
    pub head_name: String,
    pub head_summary: String,
    pub head_reported: String,
    pub head_action: String,
    pub action_details: String,
    pub action_clear: String,
}

impl StackLocale {
    pub fn new(l: &Locale) -> (r: StackLocale)
        ensures
            r.title@ == text_or(l.entries@, "stack-list-error-stack-title"@, "List Error Stack"@),
            r.head_id@ == text_or(l.entries@, "stack-list-error-stack-head-id"@, "ID"@),
            r.head_name@ == text_or(l.entries@, "stack-list-error-stack-head-name"@, "Name"@),
            r.head_summary@ == text_or(l.entries@, "stack-list-error-stack-head-summary"@, "Summary"@),
            r.head_reported@ == text_or(l.entries@, "stack-list-error-stack-head-reported"@, "Reported At"@),
            r.head_action@ == text_or(l.entries@, "stack-list-error-stack-head-action"@, "Action"@),
            r.action_details@ == text_or(l.entries@, "stack-list-error-stack-action-details"@, "View Error Details"@),
            r.action_clear@ == text_or(l.entries@, "stack-list-error-stack-action-clear"@, "Clear Older than 30 days"@),
    {
        StackLocale {
            title: l.text_with_default("stack-list-error-stack-title", "List Error Stack"),
            head_id: l.text_with_default("stack-list-error-stack-head-id", "ID"),
            head_name: l.text_with_default("stack-list-error-stack-head-name", "Name"),
            head_summary: l.text_with_default("stack-list-error-stack-head-summary", "Summary"),
            head_reported: l.text_with_default("stack-list-error-stack-head-reported", "Reported At"),
            head_action: l.text_with_default("stack-list-error-stack-head-action", "Action"),
            action_details: l.text_with_default("stack-list-error-stack-action-details", "View Error Details"),
            action_clear: l.text_with_default("stack-list-error-stack-action-clear", "Clear Older than 30 days"),
        }
    }
}

/// The texts of the page of one recorded error.
#[derive(Debug)]
pub struct StackFetchLocale {
    pub title: String,
    pub head_reported: String,
    pub head_summary: String,
    pub head_stack: String,
}

impl StackFetchLocale {
    /// `title` is the translation of `stack-list-error-stack-fetch-title` for
    /// this error's name, when the caller found one.
    pub fn new(l: &Locale, name: &str, title: Option<String>) -> (r: StackFetchLocale)
        ensures
            match title {
                Some(t) => r.title@ == t@,
                None => r.title@ == "Error Stack: "@ + name@,
            },
            r.head_reported@ == text_or(l.entries@, "stack-list-error-stack-fetch-head-reported"@, "Reported At"@),
            r.head_summary@ == text_or(l.entries@, "stack-list-error-stack-fetch-head-summary"@, "Summary"@),
            r.head_stack@ == text_or(l.entries@, "stack-list-error-stack-fetch-head-stack"@, "Stack"@),
    {
        let title = match title {
            Some(t) => t,
            None => join2("Error Stack: ", name),
        };
        StackFetchLocale {
            title,
            head_reported: l.text_with_default("stack-list-error-stack-fetch-head-reported", "Reported At"),
            head_summary: l.text_with_default("stack-list-error-stack-fetch-head-summary", "Summary"),
            head_stack: l.text_with_default("stack-list-error-stack-fetch-head-stack", "Stack"),
        }
    }
}

/// The question asked before old recorded errors are cleared.
pub fn stack_clear_confirm_message(l: &Locale) -> (r: String)
    ensures
        r@ == text_or(
            l.entries@,
            "stack-route-logout-confirm-message"@,
            "Are you sure you want to clear all error stacks older than 30 days?"@,
        ),
{
    l.text_with_default(
        "stack-route-logout-confirm-message",
        "Are you sure you want to clear all error stacks older than 30 days?",
    )
}

} // verus!

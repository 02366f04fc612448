use vstd::prelude::*;
use crate::locale::{text_or, Locale};

verus! {

/// The texts of the back office's home page: its title and its paragraph.
pub fn home_page_texts(l: &Locale) -> (r: (String, String))
    ensures
        r.0@ == text_or(l.entries@, "home-hello"@, "Welcome"@),
        r.1@ == text_or(l.entries@, "home-paragraph"@, "Check out the navigation above"@),
{
    (
        l.text_with_default("home-hello", "Welcome"),
        l.text_with_default("home-paragraph", "Check out the navigation above"),
    )
}

} // verus!

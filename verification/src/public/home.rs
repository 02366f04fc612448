use vstd::prelude::*;
use crate::locale::{text_or, Locale};

verus! {

/// The texts of the public home page.
#[derive(Debug)]
pub struct PublicHomeTexts {
    pub title: String,
    pub hello: String,
    pub note: String,
}

/// The public home page's title, greeting and note.
pub fn public_home_texts(l: &Locale) -> (r: PublicHomeTexts)
    ensures
        r.title@ == text_or(l.entries@, "home-title"@, "Welcome"@),
        r.hello@ == text_or(l.entries@, "home-hello"@, "Hello"@),
        r.note@ == text_or(l.entries@, "home-note"@, "Welcome to the beginning of the journey"@),
{
    PublicHomeTexts {
        title: l.text_with_default("home-title", "Welcome"),
        hello: l.text_with_default("home-hello", "Hello"),
        note: l.text_with_default("home-note", "Welcome to the beginning of the journey"),
    }
}

} // verus!

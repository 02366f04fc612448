use vstd::prelude::*;
use crate::text::{owned, str_eq};
use crate::validation::{MessageView, ValidationMessage};

verus! {

/// The translations available to one request: each message key with its text
/// in the visitor's language, already resolved.
#[derive(Debug)]
pub struct Locale {
    pub entries: Vec<(String, String)>,
}

/// The first translation of `key` among `entries`, if any.
pub open spec fn lookup(entries: Seq<(String, String)>, key: Seq<char>) -> Option<Seq<char>>
    decreases entries.len(),
{
    if entries.len() == 0 {
        None
    } else if entries[0].0@ == key {
        Some(entries[0].1@)
    } else {
        lookup(entries.drop_first(), key)
    }
}

/// The translation of `key`, or `default` when there is none.
pub open spec fn text_or(entries: Seq<(String, String)>, key: Seq<char>, default: Seq<char>) -> Seq<char> {
    match lookup(entries, key) {
        Some(t) => t,
        None => default,
    }
}

/// The translated texts of a list of validation messages: each message's key
/// looked up, its English text kept where there is no translation.
pub open spec fn translated(entries: Seq<(String, String)>, messages: Seq<MessageView>) -> Seq<Seq<char>> {
    messages.map_values(|m: MessageView| text_or(entries, m.key, m.text))
}

impl Locale {
    /// The translation of `key`, if this locale has one.
    pub fn text(&self, key: &str) -> (r: Option<String>)
        ensures
            match r {
                Some(t) => lookup(self.entries@, key@) == Some(t@),
                None => lookup(self.entries@, key@) is None,
            },
    {
        let mut i: usize = 0;
        assert(self.entries@.subrange(0, self.entries@.len() as int) =~= self.entries@);
        while i < self.entries.len()
            invariant
                i <= self.entries@.len(),
                lookup(self.entries@, key@) == lookup(self.entries@.subrange(i as int, self.entries@.len() as int), key@),
            decreases self.entries@.len() - i,
        {
            let ghost rest = self.entries@.subrange(i as int, self.entries@.len() as int);
            assert(rest.drop_first() =~= self.entries@.subrange(i + 1, self.entries@.len() as int));
            if str_eq(self.entries[i].0.as_str(), key) {
                return Some(self.entries[i].1.clone());
            }
            i = i + 1;
        }
        None
    }

    /// The translation of `key`, or `default` when this locale has none.
    pub fn text_with_default(&self, key: &str, default: &str) -> (r: String)
        ensures
            r@ == text_or(self.entries@, key@, default@),
    {
        match self.text(key) {
            Some(t) => t,
            None => owned(default),
        }
    }

    /// The translated texts of validation messages.
    pub fn translate_messages(&self, messages: &Vec<ValidationMessage>) -> (r: Vec<String>)
        ensures
            r@.len() == messages@.len(),
            forall|i: int| 0 <= i < r@.len() ==>
                #[trigger] r@[i]@ == text_or(self.entries@, messages@[i].key@, messages@[i].text@),
    {
        let mut out: Vec<String> = Vec::new();
        let mut i: usize = 0;
        while i < messages.len()
            invariant
                i <= messages@.len(),
                out@.len() == i,
                forall|k: int| 0 <= k < i ==>
                    #[trigger] out@[k]@ == text_or(self.entries@, messages@[k].key@, messages@[k].text@),
            decreases messages@.len() - i,
        {
            let t = self.text_with_default(messages[i].key.as_str(), messages[i].text.as_str());
            out.push(t);
            i = i + 1;
        }
        out
    }
}

} // verus!

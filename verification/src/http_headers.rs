//! HTTP response headers as plain values.

use crate::text::{parse_u64_spec, parse_u64_str, str_eq, trim, trim_str};
use vstd::prelude::*;

verus! {

/// HTTP headers in arrival order. Names are lower case (as `http` keeps
/// them); a value is `Some(text)` when it is visible ASCII text and `None`
/// otherwise (what `HeaderValue::to_str` accepts).
#[derive(Debug, PartialEq)]
pub struct HeaderList {
    pub entries: Vec<(String, Option<String>)>,
}

/// The text of the first header named `name` (`HeaderMap::get` followed by
/// `to_str().ok()`): `None` when the header is absent or not text.
pub open spec fn first_header_text(entries: Seq<(String, Option<String>)>, name: Seq<char>) -> Option<Seq<char>>
    decreases entries.len(),
{
    if entries.len() == 0 {
        None
    } else if entries[0].0@ == name {
        match entries[0].1 {
            Some(t) => Some(t@),
            None => None,
        }
    } else {
        first_header_text(entries.drop_first(), name)
    }
}

/// The header's text, trimmed.
pub open spec fn header_trimmed_spec(headers: HeaderList, name: Seq<char>) -> Option<Seq<char>> {
    match first_header_text(headers.entries@, name) {
        Some(t) => Some(trim(t)),
        None => None,
    }
}

/// The header's text, trimmed and parsed as a `u64`.
pub open spec fn header_u64_spec(headers: HeaderList, name: Seq<char>) -> Option<u64> {
    match first_header_text(headers.entries@, name) {
        Some(t) => parse_u64_spec(trim(t)),
        None => None,
    }
}

impl HeaderList {
    /// An empty header list.
    pub fn new() -> (r: HeaderList)
        ensures
            r.entries@.len() == 0,
    {
        HeaderList { entries: Vec::new() }
    }

    /// The text of the first header named `name`.
    pub fn get_text(&self, name: &str) -> (r: Option<&String>)
        ensures
            match first_header_text(self.entries@, name@) {
                Some(t) => r matches Some(s) && s@ == t,
                None => r is None,
            },
    {
        let mut i: usize = 0;
        assert(self.entries@.subrange(0, self.entries@.len() as int) =~= self.entries@);
        while i < self.entries.len()
            invariant
                i <= self.entries@.len(),
                first_header_text(self.entries@, name@) == first_header_text(
                    self.entries@.subrange(i as int, self.entries@.len() as int),
                    name@,
                ),
            decreases self.entries.len() - i,
        {
            let ghost rest = self.entries@.subrange(i as int, self.entries@.len() as int);
            assert(rest[0] == self.entries@[i as int]);
            if str_eq(self.entries[i].0.as_str(), name) {
                return match &self.entries[i].1 {
                    Some(t) => Some(t),
                    None => None,
                };
            }
            assert(rest.drop_first() =~= self.entries@.subrange(i + 1, self.entries@.len() as int));
            i = i + 1;
        }
        None
    }

    /// The header's text, trimmed (`to_str().ok()?.trim()`).
    pub fn get_trimmed(&self, name: &str) -> (r: Option<String>)
        ensures
            match header_trimmed_spec(*self, name@) {
                Some(t) => r matches Some(s) && s@ == t,
                None => r is None,
            },
    {
        match self.get_text(name) {
            Some(t) => Some(trim_str(t.as_str())),
            None => None,
        }
    }

    /// The header's text, trimmed and parsed as a `u64`.
    pub fn get_u64(&self, name: &str) -> (r: Option<u64>)
        ensures
            r == header_u64_spec(*self, name@),
    {
        match self.get_text(name) {
            Some(t) => {
                let trimmed = trim_str(t.as_str());
                parse_u64_str(trimmed.as_str())
            },
            None => None,
        }
    }
}

} // verus!

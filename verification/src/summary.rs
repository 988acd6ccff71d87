//! A trait for summarizing a piece of content, with a generic teaser for
//! types that do not compose their own summary.

use vstd::prelude::*;
use vstd::string::StringExecFns;

verus! {

/// Something that can present itself as a one-line summary.
///
/// `summary_spec` states, per implementing type, what the summary is;
/// `summarize` is proved to return exactly that.  A type content with the
/// generic teaser says so in its `summary_spec`, as [`Article`] does.
pub trait Summary {
    spec fn summary_spec(&self) -> Seq<char>;

    fn summarize(&self) -> (s: String)
        ensures
            s@ == self.summary_spec(),
    ;
}

pub struct Article {
    pub headline: String,
    pub content: String,
}

/// `Article` keeps the generic teaser as its summary.
impl Summary for Article {
    open spec fn summary_spec(&self) -> Seq<char> {
        "(Read more...)"@
    }

    fn summarize(&self) -> (s: String) {
        "(Read more...)".to_owned()
    }
}

pub struct Tweet {
    pub username: String,
    pub content: String,
}

impl Summary for Tweet {
    open spec fn summary_spec(&self) -> Seq<char> {
        self.content@ + " @"@ + self.username@
    }

    fn summarize(&self) -> (s: String) {
        let mut s = self.content.clone();
        s.append(" @");
        s.append(self.username.as_str());
        s
    }
}

} // verus!

//! The snippet: a stored code fragment, as the search reads it.

use vstd::prelude::*;
use crate::text::{decimal, decimal_string, join, joined};

verus! {

/// A stored code fragment. The store owns the record; a search works on a
/// copy of it.
#[derive(Debug)]
pub struct Snippet {
    index: usize,
    description: String,
    language: String,
    tags: Vec<String>,
    code: String,
    date: i64,
}

/// What a `Snippet` holds, as plain values.
pub struct SnippetView {
    /// The identifier: given once, when the snippet is added, and kept.
    pub index: nat,
    /// What the snippet is for.
    pub description: Seq<char>,
    /// The name of the language it is written in.
    pub language: Seq<char>,
    /// Its tags, in the order in which they are shown.
    pub tags: Seq<Seq<char>>,
    /// The code itself.
    pub code: Seq<char>,
    /// When it was last written, in seconds since the Unix epoch.
    pub date: int,
}

impl View for Snippet {
    type V = SnippetView;

    closed spec fn view(&self) -> SnippetView {
        SnippetView {
            index: self.index as nat,
            description: self.description@,
            language: self.language@,
            tags: self.tags.deep_view(),
            code: self.code@,
            date: self.date as int,
        }
    }
}

/// The header of a snippet as plain text: `#`, the index, `. `, the
/// description, ` | `, the language, and the tags between colons, as in
/// `#2. http server | go :net:web:`. This is the text that a query is
/// matched against.
pub open spec fn header_text(snippet: SnippetView) -> Seq<char> {
    "#"@ + decimal(snippet.index) + ". "@ + snippet.description + " | "@ + snippet.language
        + " :"@ + joined(snippet.tags, ":"@) + ":"@
}

impl Clone for Snippet {
    /// A copy that holds the same values.
    fn clone(&self) -> (copy: Snippet)
        ensures
            copy@ == self@,
    {
        let mut tags: Vec<String> = Vec::new();
        let mut i: usize = 0;
        while i < self.tags.len()
            invariant
                i <= self.tags.len(),
                tags.len() == i,
                forall|k: int| 0 <= k < i ==> tags[k]@ == self.tags[k]@,
            decreases self.tags.len() - i,
        {
            tags.push(self.tags[i].clone());
            i += 1;
        }
        assert(tags.deep_view() =~= self.tags.deep_view());
        Snippet {
            index: self.index,
            description: self.description.clone(),
            language: self.language.clone(),
            tags,
            code: self.code.clone(),
            date: self.date,
        }
    }
}

impl Snippet {
    /// A snippet with the given attributes.
    pub fn new(
        index: usize,
        description: String,
        language: String,
        tags: Vec<String>,
        code: String,
        date: i64,
    ) -> (snippet: Snippet)
        ensures
            snippet@ == (SnippetView {
                index: index as nat,
                description: description@,
                language: language@,
                tags: tags.deep_view(),
                code: code@,
                date: date as int,
            }),
    {
        Snippet { index, description, language, tags, code, date }
    }

    /// The identifier.
    pub fn index(&self) -> (index: usize)
        ensures
            index == self@.index,
    {
        self.index
    }

    /// What the snippet is for.
    pub fn description(&self) -> (description: &str)
        ensures
            description@ == self@.description,
    {
        self.description.as_str()
    }

    /// The name of the language it is written in.
    pub fn language(&self) -> (language: &str)
        ensures
            language@ == self@.language,
    {
        self.language.as_str()
    }

    /// Its tags, in the order in which they are shown.
    pub fn tags(&self) -> (tags: &Vec<String>)
        ensures
            tags.deep_view() == self@.tags,
    {
        &self.tags
    }

    /// The code itself.
    pub fn code(&self) -> (code: &str)
        ensures
            code@ == self@.code,
    {
        self.code.as_str()
    }

    /// When it was last written, in seconds since the Unix epoch.
    pub fn date(&self) -> (date: i64)
        ensures
            date == self@.date,
    {
        self.date
    }

    /// The header as plain text, without any styling.
    pub fn get_header(&self) -> (header: String)
        ensures
            header@ == header_text(self@),
    {
        let number = decimal_string(self.index);
        let tags = join(&self.tags, ":");
        let mut header = String::from_str("#");
        header.append(number.as_str());
        header.append(". ");
        header.append(self.description.as_str());
        header.append(" | ");
        header.append(self.language.as_str());
        header.append(" :");
        header.append(tags.as_str());
        header.append(":");
        header
    }
}

} // verus!

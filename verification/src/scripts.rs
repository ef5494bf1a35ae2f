//! Script library records: categories of canned content and their items.

use vstd::prelude::*;

verus! {

/// The kind of content a script item carries. Stored as the codes 1, 2
/// and 3.
#[derive(Clone, Copy, PartialEq, Eq, Structural, Debug)]
pub enum ScriptContentType {
    Text,
    Image,
    Mixed,
}

impl ScriptContentType {
    /// The stored code of the content type.
    pub fn code(&self) -> (r: i32)
        ensures
            self is Text ==> r == 1,
            self is Image ==> r == 2,
            self is Mixed ==> r == 3,
    {
        match self {
            ScriptContentType::Text => 1,
            ScriptContentType::Image => 2,
            ScriptContentType::Mixed => 3,
        }
    }
}

impl Default for ScriptContentType {
    /// Plain text.
    fn default() -> (r: ScriptContentType)
        ensures
            r is Text,
    {
        ScriptContentType::Text
    }
}

/// One piece of content inside a script: a typed value with an optional
/// display name.
#[derive(Clone, Debug)]
pub struct ScriptContentItem {
    pub content_type: i32,
    pub value: String,
    pub name: String,
}

impl ScriptContentItem {
    /// A text content item.
    pub fn text(value: &String) -> (r: ScriptContentItem)
        ensures
            r.content_type == 1,
            r.value@ == value@,
            r.name@ == Seq::<char>::empty(),
    {
        ScriptContentItem { content_type: 1, value: value.clone(), name: String::new() }
    }

    /// An image content item: a path and a display name.
    pub fn image(path: &String, name: &String) -> (r: ScriptContentItem)
        ensures
            r.content_type == 2,
            r.value@ == path@,
            r.name@ == name@,
    {
        ScriptContentItem { content_type: 2, value: path.clone(), name: name.clone() }
    }
}

/// A script category: a named group of script items, ordered by position.
#[derive(Clone, Debug)]
pub struct ScriptCategory {
    pub id: i64,
    pub parent_sign: Option<String>,
    pub sign: String,
    pub label: String,
    pub position: i32,
    pub is_group: bool,
    pub created_at: String,
}

/// A script item: a labelled list of content pieces under a category.
#[derive(Clone, Debug)]
pub struct ScriptItem {
    pub id: i64,
    pub parent_sign: String,
    pub sign: String,
    pub label: String,
    pub content: Vec<ScriptContentItem>,
    pub position: i32,
    pub script_type: i32,
    pub created_at: String,
}

} // verus!

//! Hot-swappable selector and component-path definitions.
//!
//! The set maps names to element selectors and to component-tree paths; it
//! ships with defaults and can be replaced wholesale from outside without
//! recompiling. Reading and writing definition files is the embedding
//! process's concern; this module owns the data and the lookups.

use vstd::prelude::*;

use crate::runtime::now_rfc3339;

verus! {

/// Selectors for one named element: a primary and ordered fallbacks.
#[derive(Clone, Debug)]
pub struct SelectorDef {
    pub primary: String,
    pub fallbacks: Vec<String>,
    pub description: String,
}

/// A component-tree traversal: the component to find and the property paths
/// to read from it.
#[derive(Clone, Debug)]
pub struct FiberPathDef {
    pub component_name: String,
    pub prop_paths: Vec<String>,
    pub description: String,
}

/// A complete definition set: versioned, with named selectors and named
/// component paths.
#[derive(Clone, Debug)]
pub struct DefinitionSet {
    pub version: String,
    pub updated_at: String,
    pub selectors: Vec<(String, SelectorDef)>,
    pub fiber_paths: Vec<(String, FiberPathDef)>,
}

/// The first selector entry under the name, in entry order.
pub open spec fn selector_lookup(entries: Seq<(String, SelectorDef)>, name: Seq<char>) -> Option<
    SelectorDef,
>
    decreases entries.len(),
{
    if entries.len() == 0 {
        None
    } else if entries[0].0@ == name {
        Some(entries[0].1)
    } else {
        selector_lookup(entries.drop_first(), name)
    }
}

/// The first component-path entry under the name, in entry order.
pub open spec fn fiber_lookup(entries: Seq<(String, FiberPathDef)>, name: Seq<char>) -> Option<
    FiberPathDef,
>
    decreases entries.len(),
{
    if entries.len() == 0 {
        None
    } else if entries[0].0@ == name {
        Some(entries[0].1)
    } else {
        fiber_lookup(entries.drop_first(), name)
    }
}

/// The definitions the loader starts from: the three stock selectors and the
/// two stock component paths.
pub fn default_definition_set() -> (r: DefinitionSet)
    ensures
        r.version@ == "1.0.0"@,
        r.selectors@.len() == 3,
        r.selectors@[0].0@ == "chat_list"@,
        r.selectors@[0].1.primary@ == "#chat-folders + div"@,
        r.selectors@[1].0@ == "message_input"@,
        r.selectors@[1].1.primary@ == ".composer-wrapper .input-message"@,
        r.selectors@[2].0@ == "message_bubble"@,
        r.selectors@[2].1.primary@ == ".message"@,
        r.fiber_paths@.len() == 2,
        r.fiber_paths@[0].0@ == "message_content"@,
        r.fiber_paths@[0].1.component_name@ == "Message"@,
        r.fiber_paths@[1].0@ == "chat_info"@,
        r.fiber_paths@[1].1.component_name@ == "Chat"@,
{
    let mut selectors: Vec<(String, SelectorDef)> = Vec::new();
    let mut chat_list_fallbacks: Vec<String> = Vec::new();
    chat_list_fallbacks.push(".chat-list".to_owned());
    selectors.push(
        (
            "chat_list".to_owned(),
            SelectorDef {
                primary: "#chat-folders + div".to_owned(),
                fallbacks: chat_list_fallbacks,
                description: "Chat list container".to_owned(),
            },
        ),
    );
    let mut input_fallbacks: Vec<String> = Vec::new();
    input_fallbacks.push("[contenteditable='true']".to_owned());
    selectors.push(
        (
            "message_input".to_owned(),
            SelectorDef {
                primary: ".composer-wrapper .input-message".to_owned(),
                fallbacks: input_fallbacks,
                description: "Message input field".to_owned(),
            },
        ),
    );
    let mut bubble_fallbacks: Vec<String> = Vec::new();
    bubble_fallbacks.push(".Message".to_owned());
    selectors.push(
        (
            "message_bubble".to_owned(),
            SelectorDef {
                primary: ".message".to_owned(),
                fallbacks: bubble_fallbacks,
                description: "Individual message bubble".to_owned(),
            },
        ),
    );
    let mut fiber_paths: Vec<(String, FiberPathDef)> = Vec::new();
    let mut message_paths: Vec<String> = Vec::new();
    message_paths.push("memoizedProps.message.content".to_owned());
    message_paths.push("memoizedProps.message.id".to_owned());
    fiber_paths.push(
        (
            "message_content".to_owned(),
            FiberPathDef {
                component_name: "Message".to_owned(),
                prop_paths: message_paths,
                description: "Message content from component state".to_owned(),
            },
        ),
    );
    let mut chat_paths: Vec<String> = Vec::new();
    chat_paths.push("memoizedProps.chat.id".to_owned());
    chat_paths.push("memoizedProps.chat.title".to_owned());
    fiber_paths.push(
        (
            "chat_info".to_owned(),
            FiberPathDef {
                component_name: "Chat".to_owned(),
                prop_paths: chat_paths,
                description: "Chat info from component state".to_owned(),
            },
        ),
    );
    DefinitionSet {
        version: "1.0.0".to_owned(),
        updated_at: now_rfc3339(),
        selectors,
        fiber_paths,
    }
}

/// Loader of definition sets, with the current set and, when it was read
/// from a file, the path to reload from.
pub struct DefinitionLoader {
    definitions: DefinitionSet,
    file_path: Option<String>,
}

impl DefinitionLoader {
    /// The current definitions.
    pub closed spec fn spec_definitions(self) -> DefinitionSet {
        self.definitions
    }

    /// The path the definitions were read from, if any.
    pub closed spec fn spec_file_path(self) -> Option<String> {
        self.file_path
    }

    /// A loader holding the stock definitions, with no file bound.
    pub fn new() -> (r: DefinitionLoader)
        ensures
            r.spec_file_path() is None,
            r.spec_definitions().version@ == "1.0.0"@,
            selector_lookup(r.spec_definitions().selectors@, "chat_list"@) is Some,
            selector_lookup(r.spec_definitions().selectors@, "message_input"@) is Some,
            selector_lookup(r.spec_definitions().selectors@, "message_bubble"@) is Some,
            fiber_lookup(r.spec_definitions().fiber_paths@, "message_content"@) is Some,
            fiber_lookup(r.spec_definitions().fiber_paths@, "chat_info"@) is Some,
    {
        let definitions = default_definition_set();
        proof {
            reveal_strlit("chat_list");
            reveal_strlit("message_input");
            reveal_strlit("message_bubble");
            reveal_strlit("message_content");
            reveal_strlit("chat_info");
            assert("chat_list"@.len() == 9 && "message_input"@.len() == 13 && "message_bubble"@.len()
                == 14);
            assert("chat_list"@ != "message_input"@ && "chat_list"@ != "message_bubble"@
                && "message_input"@ != "message_bubble"@);
            assert("message_content"@.len() == 15 && "chat_info"@.len() == 9);
            assert("message_content"@ != "chat_info"@);
            let s = definitions.selectors@;
            assert(s.drop_first()[0] == s[1]);
            assert(s.drop_first().drop_first()[0] == s[2]);
            assert(s.drop_first().len() == 2 && s.drop_first().drop_first().len() == 1);
            assert(selector_lookup(s, "message_input"@) == selector_lookup(
                s.drop_first(),
                "message_input"@,
            ));
            assert(selector_lookup(s.drop_first(), "message_input"@) is Some);
            assert(selector_lookup(s, "message_bubble"@) == selector_lookup(
                s.drop_first(),
                "message_bubble"@,
            ));
            assert(selector_lookup(s.drop_first(), "message_bubble"@) == selector_lookup(
                s.drop_first().drop_first(),
                "message_bubble"@,
            ));
            assert(selector_lookup(s.drop_first().drop_first(), "message_bubble"@) is Some);
            let f = definitions.fiber_paths@;
            assert(f.drop_first()[0] == f[1]);
            assert(f.drop_first().len() == 1);
            assert(fiber_lookup(f, "chat_info"@) == fiber_lookup(f.drop_first(), "chat_info"@));
            assert(fiber_lookup(f.drop_first(), "chat_info"@) is Some);
        }
        DefinitionLoader { definitions, file_path: None }
    }

    /// Adopt a definition set read from a file, remembering the path.
    pub fn with_definitions(definitions: DefinitionSet, file_path: Option<String>) -> (r:
        DefinitionLoader)
        ensures
            r.spec_definitions() == definitions,
            r.spec_file_path() == file_path,
    {
        DefinitionLoader { definitions, file_path }
    }

    /// The selector registered under the name, if any.
    pub fn get_selector(&self, name: &String) -> (r: Option<&SelectorDef>)
        ensures
            match r {
                Some(d) => selector_lookup(self.spec_definitions().selectors@, name@) == Some(*d),
                None => selector_lookup(self.spec_definitions().selectors@, name@) is None,
            },
    {
        let entries = &self.definitions.selectors;
        let n = entries.len();
        proof {
            assert(entries@.skip(0) =~= entries@);
        }
        let mut i: usize = 0;
        while i < n
            invariant
                n == entries@.len(),
                i <= n,
                selector_lookup(self.spec_definitions().selectors@, name@) == selector_lookup(
                    entries@.skip(i as int),
                    name@,
                ),
                entries@ == self.spec_definitions().selectors@,
            decreases n - i,
        {
            proof {
                assert(entries@.skip(i as int)[0] == entries@[i as int]);
                assert(entries@.skip(i as int).drop_first() =~= entries@.skip(i + 1));
            }
            if entries[i].0 == *name {
                return Some(&entries[i].1);
            }
            i = i + 1;
        }
        None
    }

    /// The component path registered under the name, if any.
    pub fn get_fiber_path(&self, name: &String) -> (r: Option<&FiberPathDef>)
        ensures
            match r {
                Some(d) => fiber_lookup(self.spec_definitions().fiber_paths@, name@) == Some(*d),
                None => fiber_lookup(self.spec_definitions().fiber_paths@, name@) is None,
            },
    {
        let entries = &self.definitions.fiber_paths;
        let n = entries.len();
        proof {
            assert(entries@.skip(0) =~= entries@);
        }
        let mut i: usize = 0;
        while i < n
            invariant
                n == entries@.len(),
                i <= n,
                fiber_lookup(self.spec_definitions().fiber_paths@, name@) == fiber_lookup(
                    entries@.skip(i as int),
                    name@,
                ),
                entries@ == self.spec_definitions().fiber_paths@,
            decreases n - i,
        {
            proof {
                assert(entries@.skip(i as int)[0] == entries@[i as int]);
                assert(entries@.skip(i as int).drop_first() =~= entries@.skip(i + 1));
            }
            if entries[i].0 == *name {
                return Some(&entries[i].1);
            }
            i = i + 1;
        }
        None
    }

    /// The current definition set.
    pub fn definitions(&self) -> (r: &DefinitionSet)
        ensures
            *r == self.spec_definitions(),
    {
        &self.definitions
    }
}

impl Default for DefinitionLoader {
    /// A loader holding the stock definitions.
    fn default() -> (r: DefinitionLoader)
        ensures
            r.spec_file_path() is None,
    {
        DefinitionLoader::new()
    }
}

} // verus!

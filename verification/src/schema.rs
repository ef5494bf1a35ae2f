//! Workflow definitions: immutable graphs of nodes and edges.
//!
//! A definition is an arena: a list of nodes addressed by identifier plus an
//! ordered edge list referencing those identifiers. Graphs may be cyclic by
//! design; the engine bounds its traversal instead. Every structural fault
//! (duplicate node, dangling edge, uncompilable pattern) is found when the
//! definition is validated, never during a run.

use vstd::prelude::*;

use crate::error::DefinitionError;
use crate::pattern::{CompiledRegex, compile, regex_accepts};

verus! {

/// The kind of a node.
#[derive(Clone, Copy, PartialEq, Eq, Structural, Debug)]
pub enum NodeType {
    Start,
    SendMessage,
    WaitForResponse,
    ConditionalBranch,
    AddTag,
    End,
}

/// Kind-specific configuration of a node.
#[derive(Clone, Debug)]
pub enum NodeConfig {
    Start,
    SendMessage { content: String },
    WaitForResponse { timeout_seconds: Option<u64> },
    ConditionalBranch,
    AddTag { tag: String },
    End,
}

/// One node of a definition graph.
#[derive(Clone, Debug)]
pub struct Node {
    pub id: String,
    pub kind: NodeType,
    pub config: NodeConfig,
}

/// The condition under which an edge is taken.
#[derive(Clone, Debug)]
pub enum EdgeCondition {
    /// Matches when the event content contains the keyword.
    KeywordMatch { keyword: String },
    /// Matches when the compiled pattern matches the event content.
    RegexMatch { pattern: String },
    /// Reserved for the timer path; never matches an inbound event.
    Timeout,
    /// Taken only when no other edge matched.
    Fallback,
    /// Always matches.
    Always,
}

/// A directed edge between two nodes.
#[derive(Clone, Debug)]
pub struct Edge {
    pub id: String,
    pub source: String,
    pub target: String,
    pub condition: Option<EdgeCondition>,
}

/// An immutable workflow definition.
#[derive(Clone, Debug)]
pub struct WorkflowDefinition {
    pub id: String,
    pub name: String,
    pub version: String,
    pub nodes: Vec<Node>,
    pub edges: Vec<Edge>,
    pub created_at: String,
    pub updated_at: String,
}

/// Some node carries the identifier.
pub open spec fn has_node(nodes: Seq<Node>, id: Seq<char>) -> bool {
    exists|i: int| 0 <= i < nodes.len() && nodes[i].id@ == id
}

/// The node carrying the identifier. Meaningful when the identifiers are
/// unique and `has_node` holds.
pub open spec fn node_of(nodes: Seq<Node>, id: Seq<char>) -> Node {
    nodes[choose|i: int| 0 <= i < nodes.len() && nodes[i].id@ == id]
}

/// No two nodes share an identifier.
pub open spec fn nodes_unique(nodes: Seq<Node>) -> bool {
    forall|i: int, j: int|
        0 <= i < j < nodes.len() ==> nodes[i].id@ != nodes[j].id@
}

/// How many nodes are of the Start kind.
pub open spec fn start_count(nodes: Seq<Node>) -> nat
    decreases nodes.len(),
{
    if nodes.len() == 0 {
        0
    } else {
        start_count(nodes.drop_last()) + (if nodes.last().kind is Start {
            1nat
        } else {
            0nat
        })
    }
}

/// Both endpoints of every edge name a node of the definition.
pub open spec fn edges_wf(def: WorkflowDefinition) -> bool {
    forall|i: int|
        0 <= i < def.edges@.len() ==> #[trigger] has_node(def.nodes@, def.edges@[i].source@)
            && has_node(def.nodes@, def.edges@[i].target@)
}

/// Every regular-expression condition of the definition is accepted by the
/// pattern compiler.
pub open spec fn patterns_ok(def: WorkflowDefinition) -> bool {
    forall|i: int|
        0 <= i < def.edges@.len() ==> match #[trigger] def.edges@[i].condition {
            Some(EdgeCondition::RegexMatch { pattern }) => regex_accepts(pattern@),
            _ => true,
        }
}

/// Structural well-formedness of a definition.
pub open spec fn def_wf(def: WorkflowDefinition) -> bool {
    &&& nodes_unique(def.nodes@)
    &&& edges_wf(def)
    &&& patterns_ok(def)
}

/// A start node exists among `nodes` at index `i`, so the count is positive.
proof fn lemma_start_at_index(nodes: Seq<Node>, i: int)
    requires
        0 <= i < nodes.len(),
        nodes[i].kind is Start,
    ensures
        start_count(nodes) >= 1,
    decreases nodes.len(),
{
    if i < nodes.len() - 1 {
        lemma_start_at_index(nodes.drop_last(), i);
    }
}

/// Two distinct start nodes force a count of at least two.
proof fn lemma_two_starts(nodes: Seq<Node>, i: int, j: int)
    requires
        0 <= i < j < nodes.len(),
        nodes[i].kind is Start,
        nodes[j].kind is Start,
    ensures
        start_count(nodes) >= 2,
    decreases nodes.len(),
{
    if j == nodes.len() - 1 {
        lemma_start_at_index(nodes.drop_last(), i);
    } else {
        lemma_two_starts(nodes.drop_last(), i, j);
    }
}

/// When exactly one start node is counted, all start indices coincide.
pub proof fn lemma_start_unique(nodes: Seq<Node>, i: int, j: int)
    requires
        start_count(nodes) == 1,
        0 <= i < nodes.len(),
        0 <= j < nodes.len(),
        nodes[i].kind is Start,
        nodes[j].kind is Start,
    ensures
        i == j,
{
    if i < j {
        lemma_two_starts(nodes, i, j);
    } else if j < i {
        lemma_two_starts(nodes, j, i);
    }
}

/// Look a node up by identifier.
pub fn find_node<'a>(nodes: &'a Vec<Node>, id: &String) -> (r: Option<&'a Node>)
    requires
        nodes_unique(nodes@),
    ensures
        r is Some <==> has_node(nodes@, id@),
        r matches Some(n) ==> *n == node_of(nodes@, id@),
{
    let n = nodes.len();
    let mut i: usize = 0;
    while i < n
        invariant
            nodes_unique(nodes@),
            n == nodes@.len(),
            i <= n,
            forall|k: int| 0 <= k < i ==> nodes@[k].id@ != id@,
        decreases n - i,
    {
        if nodes[i].id == *id {
            proof {
                assert(0 <= i < nodes@.len() && nodes@[i as int].id@ == id@);
                let w = choose|k: int| 0 <= k < nodes@.len() && nodes@[k].id@ == id@;
                assert(nodes@[w].id@ == id@);
                assert(w == i as int);
            }
            return Some(&nodes[i]);
        }
        i = i + 1;
    }
    None
}

/// The unique start node of the definition, when one exists.
pub open spec fn spec_start_node(nodes: Seq<Node>) -> Node {
    nodes[choose|i: int| 0 <= i < nodes.len() && nodes[i].kind is Start]
}

/// Locate the unique start node: an error when none or more than one exists.
pub fn find_start_node<'a>(nodes: &'a Vec<Node>) -> (r: Result<&'a Node, DefinitionError>)
    ensures
        r is Ok <==> start_count(nodes@) == 1,
        r matches Ok(n) ==> *n == spec_start_node(nodes@) && n.kind is Start,
        r matches Err(e) ==> (e == DefinitionError::NoStartNode <==> start_count(nodes@) == 0),
        r matches Err(e) ==> (e == DefinitionError::AmbiguousStart <==> start_count(nodes@) > 1),
{
    let n = nodes.len();
    let mut count: usize = 0;
    let mut found: usize = 0;
    let mut i: usize = 0;
    while i < n
        invariant
            n == nodes@.len(),
            i <= n,
            count == start_count(nodes@.take(i as int)),
            count <= i,
            count >= 1 ==> found < i && nodes@[found as int].kind is Start,
        decreases n - i,
    {
        proof {
            assert(nodes@.take(i + 1).drop_last() =~= nodes@.take(i as int));
            assert(nodes@.take(i + 1).last() == nodes@[i as int]);
        }
        if matches!(nodes[i].kind, NodeType::Start) {
            count = count + 1;
            found = i;
        }
        i = i + 1;
    }
    proof {
        assert(nodes@.take(n as int) =~= nodes@);
    }
    if count == 0 {
        Err(DefinitionError::NoStartNode)
    } else if count > 1 {
        Err(DefinitionError::AmbiguousStart)
    } else {
        proof {
            let w = choose|k: int| 0 <= k < nodes@.len() && nodes@[k].kind is Start;
            assert(nodes@[found as int].kind is Start);
            lemma_start_unique(nodes@, w, found as int);
        }
        Ok(&nodes[found])
    }
}

/// Each regular-expression condition of the definition has a compiled form
/// in the table.
pub open spec fn regex_cover(def: WorkflowDefinition, regexes: Seq<CompiledRegex>) -> bool {
    forall|i: int|
        0 <= i < def.edges@.len() ==> match #[trigger] def.edges@[i].condition {
            Some(EdgeCondition::RegexMatch { pattern }) => exists|j: int|
                0 <= j < regexes.len() && regexes[j].spec_pattern() == pattern@,
            _ => true,
        }
}

/// A definition that passed validation, together with the compiled forms of
/// its regular-expression conditions.
pub struct ValidatedDefinition {
    pub def: WorkflowDefinition,
    pub regexes: Vec<CompiledRegex>,
}

impl ValidatedDefinition {
    /// The definition is structurally sound and every pattern it names has a
    /// compiled form at hand.
    pub open spec fn wf(self) -> bool {
        &&& def_wf(self.def)
        &&& regex_cover(self.def, self.regexes@)
    }
}

/// Look the compiled form of a pattern up in the table.
pub fn find_regex<'a>(regexes: &'a Vec<CompiledRegex>, pattern: &String) -> (r: Option<
    &'a CompiledRegex,
>)
    ensures
        r is Some <==> exists|j: int|
            0 <= j < regexes@.len() && regexes@[j].spec_pattern() == pattern@,
        r matches Some(c) ==> c.spec_pattern() == pattern@,
{
    let n = regexes.len();
    let mut i: usize = 0;
    while i < n
        invariant
            n == regexes@.len(),
            i <= n,
            forall|k: int| 0 <= k < i ==> regexes@[k].spec_pattern() != pattern@,
        decreases n - i,
    {
        if *regexes[i].pattern() == *pattern {
            return Some(&regexes[i]);
        }
        i = i + 1;
    }
    None
}

/// Check that no two nodes share an identifier.
fn check_nodes_unique(nodes: &Vec<Node>) -> (r: bool)
    ensures
        r == nodes_unique(nodes@),
{
    let n = nodes.len();
    let mut i: usize = 0;
    while i < n
        invariant
            n == nodes@.len(),
            i <= n,
            forall|p: int, q: int| 0 <= p < q < nodes@.len() && p < i ==> nodes@[p].id@ != nodes@[q].id@,
        decreases n - i,
    {
        let mut j: usize = i + 1;
        while j < n
            invariant
                n == nodes@.len(),
                i < j || (i + 1 == j && j > n - 1),
                i < n,
                j <= n,
                forall|q: int| i < q < j ==> nodes@[i as int].id@ != nodes@[q].id@,
            decreases n - j,
        {
            if nodes[i].id == nodes[j].id {
                return false;
            }
            j = j + 1;
        }
        i = i + 1;
    }
    true
}

/// Check that both endpoints of every edge name a node.
fn check_edges(def: &WorkflowDefinition) -> (r: bool)
    requires
        nodes_unique(def.nodes@),
    ensures
        r == edges_wf(*def),
{
    let n = def.edges.len();
    let mut i: usize = 0;
    while i < n
        invariant
            nodes_unique(def.nodes@),
            n == def.edges@.len(),
            i <= n,
            forall|k: int|
                0 <= k < i ==> #[trigger] has_node(def.nodes@, def.edges@[k].source@) && has_node(
                    def.nodes@,
                    def.edges@[k].target@,
                ),
        decreases n - i,
    {
        let src = find_node(&def.nodes, &def.edges[i].source);
        if src.is_none() {
            return false;
        }
        let tgt = find_node(&def.nodes, &def.edges[i].target);
        if tgt.is_none() {
            return false;
        }
        proof {
            assert(has_node(def.nodes@, def.edges@[i as int].source@));
            assert(has_node(def.nodes@, def.edges@[i as int].target@));
            assert forall|k: int| 0 <= k < i + 1 implies #[trigger] has_node(
                def.nodes@,
                def.edges@[k].source@,
            ) && has_node(def.nodes@, def.edges@[k].target@) by {
                if k < i {
                    assert(has_node(def.nodes@, def.edges@[k].source@));
                    assert(has_node(def.nodes@, def.edges@[k].target@));
                }
            }
        }
        i = i + 1;
    }
    true
}

/// Compile every regular-expression condition of the definition.
fn compile_patterns(def: &WorkflowDefinition) -> (r: Option<Vec<CompiledRegex>>)
    ensures
        r is Some <==> patterns_ok(*def),
        r matches Some(v) ==> regex_cover(*def, v@),
{
    let n = def.edges.len();
    let mut regexes: Vec<CompiledRegex> = Vec::new();
    let mut i: usize = 0;
    while i < n
        invariant
            n == def.edges@.len(),
            i <= n,
            forall|k: int|
                0 <= k < i ==> match #[trigger] def.edges@[k].condition {
                    Some(EdgeCondition::RegexMatch { pattern }) => regex_accepts(pattern@)
                        && exists|j: int|
                        0 <= j < regexes@.len() && regexes@[j].spec_pattern() == pattern@,
                    _ => true,
                },
        decreases n - i,
    {
        match &def.edges[i].condition {
            Some(EdgeCondition::RegexMatch { pattern }) => {
                match compile(pattern) {
                    Some(c) => {
                        let ghost pre = regexes@;
                        let ghost pat = pattern@;
                        regexes.push(c);
                        proof {
                            assert(regexes@.len() == pre.len() + 1);
                            assert(forall|j: int| 0 <= j < pre.len() ==> regexes@[j] == pre[j]);
                            assert(regexes@[pre.len() as int].spec_pattern() == pat);
                        }
                    },
                    None => {
                        return None;
                    },
                }
            },
            _ => {},
        }
        i = i + 1;
    }
    Some(regexes)
}

/// Validate a definition: unique node identifiers, no dangling edge, every
/// pattern compilable. The checks run in that order and the first fault is
/// reported.
pub fn validate(def: WorkflowDefinition) -> (r: Result<ValidatedDefinition, DefinitionError>)
    ensures
        r is Ok <==> def_wf(def),
        r matches Ok(v) ==> v.def == def && v.wf(),
        r matches Err(e) ==> (e == DefinitionError::DuplicateNode <==> !nodes_unique(def.nodes@)),
        r matches Err(e) ==> (e == DefinitionError::DanglingEdge <==> nodes_unique(def.nodes@)
            && !edges_wf(def)),
        r matches Err(e) ==> (e == DefinitionError::InvalidPattern <==> nodes_unique(def.nodes@)
            && edges_wf(def) && !patterns_ok(def)),
{
    if !check_nodes_unique(&def.nodes) {
        return Err(DefinitionError::DuplicateNode);
    }
    if !check_edges(&def) {
        return Err(DefinitionError::DanglingEdge);
    }
    match compile_patterns(&def) {
        Some(regexes) => Ok(ValidatedDefinition { def, regexes }),
        None => Err(DefinitionError::InvalidPattern),
    }
}

} // verus!

//! The workflow engine: a graph-evaluation coordinator.
//!
//! Given a validated definition, a persisted instance and an inbound event,
//! the engine computes the next instance state and the side-effecting
//! actions to dispatch, persisting through the tracker. Suspension is pure
//! data: a waiting instance has no live stack, only its stored current node,
//! to be resumed by the next event or timeout.

use vstd::prelude::*;

use crate::error::{DefinitionError, EngineError};
use crate::instance::{InstanceStatus, WorkflowInstance};
use crate::models::Message;
use crate::runtime::{fresh_instance_id, now_rfc3339, now_seconds};
use crate::pattern::{CompiledRegex, regex_matches};
use crate::schema::{
    Edge, EdgeCondition, Node, NodeConfig, ValidatedDefinition, WorkflowDefinition, def_wf, find_node,
    find_regex, find_start_node, has_node, node_of, spec_start_node, start_count, validate,
};
use crate::text::{str_contains, text_contains};
use crate::tracker::{
    InstanceStateTracker, active_for, active_match, has_row, lemma_active_for_found_index,
    lemma_active_for_none_inv, lemma_complete_clears_active, lemma_save_keeps_rows_wf,
    lemma_saved_row_is_active_lookup, rows_wf, save_admissible, upsert,
};

verus! {

/// A side effect the engine asks its caller to perform. Actions are
/// dispatched only after the instance transition they belong to has been
/// persisted; they are at-least-once, never rolled back.
#[derive(Clone, PartialEq, Eq, Debug)]
pub enum Action {
    /// Send a message to the subject.
    Send { content: String },
    /// Apply a tag to the subject.
    Tag { tag: String },
}

/// Which rule an edge is tested under.
#[derive(Clone, Copy, PartialEq, Eq, Structural, Debug)]
pub enum MatchKind {
    /// Unconditional advance: no condition, or `Always`.
    Auto,
    /// First pass over an inbound event; `Fallback` edges are skipped.
    Event,
    /// Second pass over an inbound event: the first `Fallback` edge wins.
    Fallback,
    /// The timer path: only `Timeout` edges.
    Timeout,
}

/// An edge advances automatically when it has no condition or `Always`.
pub open spec fn auto_cond(cond: Option<EdgeCondition>) -> bool {
    cond is None || cond matches Some(EdgeCondition::Always)
}

/// Whether the condition accepts the event content in the first pass.
/// `Timeout` is reserved for the timer path and `Fallback` for the second
/// pass; an unconditional edge does not consume an event.
pub open spec fn event_cond(cond: Option<EdgeCondition>, content: Seq<char>) -> bool {
    match cond {
        Some(EdgeCondition::KeywordMatch { keyword }) => text_contains(content, keyword@),
        Some(EdgeCondition::RegexMatch { pattern }) => regex_matches(pattern@, content),
        Some(EdgeCondition::Always) => true,
        _ => false,
    }
}

/// Whether the edge is tested positive under the given rule.
pub open spec fn edge_hit(kind: MatchKind, cond: Option<EdgeCondition>, content: Seq<char>) -> bool {
    match kind {
        MatchKind::Auto => auto_cond(cond),
        MatchKind::Event => event_cond(cond, content),
        MatchKind::Fallback => cond matches Some(EdgeCondition::Fallback),
        MatchKind::Timeout => cond matches Some(EdgeCondition::Timeout),
    }
}

/// The first edge leaving `src`, in edge-list order, that tests positive
/// under the rule. Edge-list order is the deterministic tie-break.
pub open spec fn find_edge(
    edges: Seq<Edge>,
    src: Seq<char>,
    kind: MatchKind,
    content: Seq<char>,
) -> Option<Edge>
    decreases edges.len(),
{
    if edges.len() == 0 {
        None
    } else if edges[0].source@ == src && edge_hit(kind, edges[0].condition, content) {
        Some(edges[0])
    } else {
        find_edge(edges.drop_first(), src, kind, content)
    }
}

/// When no edge tests positive, the selection yields nothing.
proof fn lemma_find_edge_none(edges: Seq<Edge>, src: Seq<char>, kind: MatchKind, content: Seq<char>)
    requires
        forall|k: int|
            0 <= k < edges.len() ==> !((#[trigger] edges[k]).source@ == src && edge_hit(
                kind,
                edges[k].condition,
                content,
            )),
    ensures
        find_edge(edges, src, kind, content) is None,
    decreases edges.len(),
{
    if edges.len() > 0 {
        lemma_find_edge_none(edges.drop_first(), src, kind, content);
    }
}

/// The selection yields the first positive edge.
proof fn lemma_find_edge_first(
    edges: Seq<Edge>,
    src: Seq<char>,
    kind: MatchKind,
    content: Seq<char>,
    i: int,
)
    requires
        0 <= i < edges.len(),
        edges[i].source@ == src && edge_hit(kind, edges[i].condition, content),
        forall|k: int|
            0 <= k < i ==> !((#[trigger] edges[k]).source@ == src && edge_hit(
                kind,
                edges[k].condition,
                content,
            )),
    ensures
        find_edge(edges, src, kind, content) == Some(edges[i]),
    decreases edges.len(),
{
    if i > 0 {
        lemma_find_edge_first(edges.drop_first(), src, kind, content, i - 1);
    }
}

/// Whether one edge condition tests positive under the given rule.
fn cond_hit(
    kind: MatchKind,
    cond: &Option<EdgeCondition>,
    content: &str,
    regexes: &Vec<CompiledRegex>,
) -> (r: bool)
    requires
        match *cond {
            Some(EdgeCondition::RegexMatch { pattern }) => exists|j: int|
                0 <= j < regexes@.len() && (#[trigger] regexes@[j]).spec_pattern() == pattern@,
            _ => true,
        },
    ensures
        r == edge_hit(kind, *cond, content@),
{
    match kind {
        MatchKind::Auto => match cond {
            None => true,
            Some(EdgeCondition::Always) => true,
            Some(_) => false,
        },
        MatchKind::Event => match cond {
            Some(EdgeCondition::KeywordMatch { keyword }) => str_contains(content, keyword.as_str()),
            Some(EdgeCondition::RegexMatch { pattern }) => {
                match find_regex(regexes, pattern) {
                    Some(c) => c.is_match(content),
                    None => {
                        proof {
                            assert(false);
                        }
                        false
                    },
                }
            },
            Some(EdgeCondition::Always) => true,
            _ => false,
        },
        MatchKind::Fallback => matches!(cond, Some(EdgeCondition::Fallback)),
        MatchKind::Timeout => matches!(cond, Some(EdgeCondition::Timeout)),
    }
}

/// Scan the edge list in order for the first edge leaving `src` that tests
/// positive under the rule.
fn select_edge<'a>(vd: &'a ValidatedDefinition, src: &String, kind: MatchKind, content: &str) -> (r:
    Option<&'a Edge>)
    requires
        vd.wf(),
    ensures
        r matches Some(e) ==> find_edge(vd.def.edges@, src@, kind, content@) == Some(*e),
        r is None ==> find_edge(vd.def.edges@, src@, kind, content@) is None,
{
    let n = vd.def.edges.len();
    let mut i: usize = 0;
    while i < n
        invariant
            vd.wf(),
            n == vd.def.edges@.len(),
            i <= n,
            forall|k: int|
                0 <= k < i ==> !((#[trigger] vd.def.edges@[k]).source@ == src@ && edge_hit(
                    kind,
                    vd.def.edges@[k].condition,
                    content@,
                )),
        decreases n - i,
    {
        let edge = &vd.def.edges[i];
        if edge.source == *src && cond_hit(kind, &edge.condition, content, &vd.regexes) {
            proof {
                lemma_find_edge_first(vd.def.edges@, src@, kind, content@, i as int);
            }
            return Some(edge);
        }
        i = i + 1;
    }
    proof {
        lemma_find_edge_none(vd.def.edges@, src@, kind, content@);
    }
    None
}

/// The timestamp `secs` seconds after `now`, saturating at the largest
/// representable time.
pub open spec fn sat_add(now: i64, secs: u64) -> i64 {
    if now + secs <= i64::MAX {
        (now + secs) as i64
    } else {
        i64::MAX
    }
}

/// The timestamp `secs` seconds after `now`, saturating at the largest
/// representable time.
fn add_timeout(now: i64, secs: u64) -> (r: i64)
    ensures
        r == sat_add(now, secs),
{
    let sum: i128 = now as i128 + secs as i128;
    if sum > i64::MAX as i128 {
        i64::MAX
    } else {
        sum as i64
    }
}

/// The number of automatic advances the engine allows in one transition: a
/// multiple of the definition's node count, so that a cyclic graph without a
/// reachable suspend point is reported instead of walked forever.
pub open spec fn auto_fuel(def: WorkflowDefinition) -> nat {
    if 8 * def.nodes@.len() <= usize::MAX {
        (8 * def.nodes@.len()) as nat
    } else {
        usize::MAX as nat
    }
}

/// The number of automatic advances the engine allows in one transition.
fn auto_fuel_of(def: &WorkflowDefinition) -> (r: usize)
    ensures
        r as nat == auto_fuel(*def),
{
    let n = def.nodes.len();
    if n <= usize::MAX / 8 {
        n * 8
    } else {
        usize::MAX
    }
}

/// The auto-transition loop, as a function of the definition and the
/// instance. It drives the instance forward while it is in a non-suspending
/// node: message and tag nodes emit their action and advance along the first
/// unconditional edge; start and branch nodes advance silently; a wait node
/// suspends the instance; an end node completes it. The result is the list
/// of emitted actions and either the suspended or completed instance, or the
/// definition fault that stopped the walk (no actions are handed out then).
pub open spec fn auto_run(
    def: WorkflowDefinition,
    inst: WorkflowInstance,
    now: i64,
    fuel: nat,
) -> (Seq<Action>, Result<WorkflowInstance, DefinitionError>)
    decreases fuel,
{
    match inst.current_node_id {
        None => (Seq::<Action>::empty(), Ok(inst)),
        Some(cur) => {
            if !has_node(def.nodes@, cur@) {
                (Seq::<Action>::empty(), Err(DefinitionError::DanglingEdge))
            } else {
                let node = node_of(def.nodes@, cur@);
                match node.config {
                    NodeConfig::End => (
                        Seq::<Action>::empty(),
                        Ok(
                            WorkflowInstance {
                                status: InstanceStatus::Completed,
                                current_node_id: None,
                                next_execution_time: None,
                                ..inst
                            },
                        ),
                    ),
                    NodeConfig::WaitForResponse { timeout_seconds } => (
                        Seq::<Action>::empty(),
                        Ok(
                            WorkflowInstance {
                                status: InstanceStatus::WaitingForResponse,
                                next_execution_time: match timeout_seconds {
                                    Some(s) => Some(sat_add(now, s)),
                                    None => None,
                                },
                                ..inst
                            },
                        ),
                    ),
                    _ => {
                        let emitted: Seq<Action> = match node.config {
                            NodeConfig::SendMessage { content } => seq![Action::Send { content }],
                            NodeConfig::AddTag { tag } => seq![Action::Tag { tag }],
                            _ => Seq::<Action>::empty(),
                        };
                        match find_edge(def.edges@, cur@, MatchKind::Auto, Seq::<char>::empty()) {
                            None => (Seq::<Action>::empty(), Err(DefinitionError::NoEligibleEdge)),
                            Some(e) => {
                                if fuel == 0 {
                                    (
                                        Seq::<Action>::empty(),
                                        Err(DefinitionError::PossibleInfiniteLoop),
                                    )
                                } else {
                                    let stepped = WorkflowInstance {
                                        current_node_id: Some(e.target),
                                        status: InstanceStatus::Running,
                                        ..inst
                                    };
                                    let rec = auto_run(def, stepped, now, (fuel - 1) as nat);
                                    if rec.1 is Ok {
                                        (emitted + rec.0, rec.1)
                                    } else {
                                        (Seq::<Action>::empty(), rec.1)
                                    }
                                }
                            },
                        }
                    },
                }
            }
        },
    }
}

/// The auto-transition loop changes only the current node, the status and
/// the timer of the instance; identity, subject and audit fields survive.
pub proof fn lemma_auto_run_preserves(
    def: WorkflowDefinition,
    inst: WorkflowInstance,
    now: i64,
    fuel: nat,
)
    ensures
        ({
            let r = auto_run(def, inst, now, fuel);
            r.1 matches Ok(i2) ==> i2.id == inst.id && i2.definition_id == inst.definition_id
                && i2.contact_id == inst.contact_id && i2.created_at == inst.created_at
                && i2.updated_at == inst.updated_at && i2.state_data == inst.state_data
        }),
    decreases fuel,
{
    match inst.current_node_id {
        None => (),
        Some(cur) => {
            if has_node(def.nodes@, cur@) {
                let node = node_of(def.nodes@, cur@);
                match node.config {
                    NodeConfig::End => (),
                    NodeConfig::WaitForResponse { timeout_seconds } => (),
                    _ => {
                        match find_edge(def.edges@, cur@, MatchKind::Auto, Seq::<char>::empty()) {
                            None => (),
                            Some(e) => {
                                if fuel > 0 {
                                    let stepped = WorkflowInstance {
                                        current_node_id: Some(e.target),
                                        status: InstanceStatus::Running,
                                        ..inst
                                    };
                                    lemma_auto_run_preserves(def, stepped, now, (fuel - 1) as nat);
                                }
                            },
                        }
                    },
                }
            }
        },
    }
}

/// A successful auto-transition leaves a well-formed instance.
pub proof fn lemma_auto_run_wf(def: WorkflowDefinition, inst: WorkflowInstance, now: i64, fuel: nat)
    requires
        inst.current_node_id is Some,
    ensures
        ({
            let r = auto_run(def, inst, now, fuel);
            r.1 matches Ok(i2) ==> i2.wf() && (i2.status is Completed || i2.status
                is WaitingForResponse)
        }),
    decreases fuel,
{
    match inst.current_node_id {
        None => (),
        Some(cur) => {
            if has_node(def.nodes@, cur@) {
                let node = node_of(def.nodes@, cur@);
                match node.config {
                    NodeConfig::End => (),
                    NodeConfig::WaitForResponse { timeout_seconds } => (),
                    _ => {
                        match find_edge(def.edges@, cur@, MatchKind::Auto, Seq::<char>::empty()) {
                            None => (),
                            Some(e) => {
                                if fuel > 0 {
                                    let stepped = WorkflowInstance {
                                        current_node_id: Some(e.target),
                                        status: InstanceStatus::Running,
                                        ..inst
                                    };
                                    lemma_auto_run_wf(def, stepped, now, (fuel - 1) as nat);
                                }
                            },
                        }
                    },
                }
            }
        },
    }
}

/// Run the auto-transition loop. The recursion mirrors `auto_run` step for
/// step and is bounded by the same fuel.
fn run_auto(vd: &ValidatedDefinition, inst: WorkflowInstance, now: i64, fuel: usize) -> (r: Result<
    (WorkflowInstance, Vec<Action>),
    DefinitionError,
>)
    requires
        vd.wf(),
    ensures
        ({
            let m = auto_run(vd.def, inst, now, fuel as nat);
            match r {
                Ok(pair) => m.1 == Ok::<WorkflowInstance, DefinitionError>(pair.0) && pair.1@
                    == m.0,
                Err(e) => m.1 == Err::<WorkflowInstance, DefinitionError>(e),
            }
        }),
    decreases fuel,
{
    let cur: String = match &inst.current_node_id {
        None => {
            return Ok((inst, Vec::new()));
        },
        Some(c) => c.clone(),
    };
    let node: &Node = match find_node(&vd.def.nodes, &cur) {
        None => {
            return Err(DefinitionError::DanglingEdge);
        },
        Some(n) => n,
    };
    match &node.config {
        NodeConfig::End => {
            let done = WorkflowInstance {
                status: InstanceStatus::Completed,
                current_node_id: None,
                next_execution_time: None,
                ..inst
            };
            Ok((done, Vec::new()))
        },
        NodeConfig::WaitForResponse { timeout_seconds } => {
            let next: Option<i64> = match timeout_seconds {
                Some(s) => Some(add_timeout(now, *s)),
                None => None,
            };
            let waiting = WorkflowInstance {
                status: InstanceStatus::WaitingForResponse,
                next_execution_time: next,
                ..inst
            };
            Ok((waiting, Vec::new()))
        },
        _ => {
            let emitted: Option<Action> = match &node.config {
                NodeConfig::SendMessage { content } => Some(
                    Action::Send { content: content.clone() },
                ),
                NodeConfig::AddTag { tag } => Some(Action::Tag { tag: tag.clone() }),
                _ => None,
            };
            proof {
                reveal_strlit("");
                assert(""@ =~= Seq::<char>::empty());
            }
            match select_edge(vd, &cur, MatchKind::Auto, "") {
                None => Err(DefinitionError::NoEligibleEdge),
                Some(e) => {
                    if fuel == 0 {
                        Err(DefinitionError::PossibleInfiniteLoop)
                    } else {
                        let target: String = e.target.clone();
                        let stepped = WorkflowInstance {
                            current_node_id: Some(target),
                            status: InstanceStatus::Running,
                            ..inst
                        };
                        match run_auto(vd, stepped, now, fuel - 1) {
                            Ok(pair) => {
                                let (i2, mut acts) = pair;
                                let mut all: Vec<Action> = Vec::new();
                                match emitted {
                                    Some(a) => {
                                        all.push(a);
                                    },
                                    None => (),
                                }
                                all.append(&mut acts);
                                Ok((i2, all))
                            },
                            Err(err) => Err(err),
                        }
                    }
                },
            }
        },
    }
}

/// No two stored definitions share an identifier.
pub open spec fn def_ids_unique(defs: Seq<ValidatedDefinition>) -> bool {
    forall|i: int, j: int| 0 <= i < j < defs.len() ==> defs[i].def.id@ != defs[j].def.id@
}

/// Well-formedness of the definition store.
pub open spec fn defs_wf(defs: Seq<ValidatedDefinition>) -> bool {
    &&& def_ids_unique(defs)
    &&& forall|i: int| 0 <= i < defs.len() ==> (#[trigger] defs[i]).wf()
}

/// The first stored definition carrying the identifier.
pub open spec fn def_by_id(defs: Seq<ValidatedDefinition>, id: Seq<char>) -> Option<
    ValidatedDefinition,
>
    decreases defs.len(),
{
    if defs.len() == 0 {
        None
    } else if defs[0].def.id@ == id {
        Some(defs[0])
    } else {
        def_by_id(defs.drop_first(), id)
    }
}

/// When no stored definition carries the identifier, the lookup yields
/// nothing.
proof fn lemma_def_by_id_none(defs: Seq<ValidatedDefinition>, id: Seq<char>)
    requires
        forall|k: int| 0 <= k < defs.len() ==> (#[trigger] defs[k]).def.id@ != id,
    ensures
        def_by_id(defs, id) is None,
    decreases defs.len(),
{
    if defs.len() > 0 {
        lemma_def_by_id_none(defs.drop_first(), id);
    }
}

/// The lookup yields the first definition carrying the identifier.
proof fn lemma_def_by_id_first(defs: Seq<ValidatedDefinition>, id: Seq<char>, i: int)
    requires
        0 <= i < defs.len(),
        defs[i].def.id@ == id,
        forall|k: int| 0 <= k < i ==> (#[trigger] defs[k]).def.id@ != id,
    ensures
        def_by_id(defs, id) == Some(defs[i]),
    decreases defs.len(),
{
    if i > 0 {
        lemma_def_by_id_first(defs.drop_first(), id, i - 1);
    }
}

/// Look a stored definition up by identifier.
fn find_def<'a>(defs: &'a Vec<ValidatedDefinition>, id: &String) -> (r: Option<
    &'a ValidatedDefinition,
>)
    ensures
        r matches Some(v) ==> def_by_id(defs@, id@) == Some(*v),
        r matches Some(v) ==> exists|k: int| 0 <= k < defs@.len() && defs@[k] == *v,
        r is None ==> def_by_id(defs@, id@) is None,
{
    let n = defs.len();
    let mut i: usize = 0;
    while i < n
        invariant
            n == defs@.len(),
            i <= n,
            forall|k: int| 0 <= k < i ==> (#[trigger] defs@[k]).def.id@ != id@,
        decreases n - i,
    {
        if defs[i].def.id == *id {
            proof {
                lemma_def_by_id_first(defs@, id@, i as int);
            }
            return Some(&defs[i]);
        }
        i = i + 1;
    }
    proof {
        lemma_def_by_id_none(defs@, id@);
    }
    None
}

/// What starting a workflow does, as a function of the stored definitions,
/// the durable rows, the fresh instance record and the clock. The result is
/// the new durable rows and either the actions emitted up to the first
/// suspend point, or the error: a second active instance is never created,
/// and a definition fault after the creation write leaves the instance at
/// its last persisted node.
pub open spec fn spec_start(
    defs: Seq<ValidatedDefinition>,
    rows: Seq<WorkflowInstance>,
    proto: WorkflowInstance,
    now: i64,
) -> (Seq<WorkflowInstance>, Result<Seq<Action>, EngineError>) {
    if active_for(rows, proto.contact_id@) is Some {
        (rows, Err(EngineError::ConcurrencyViolation))
    } else if has_row(rows, proto.id@) {
        (rows, Err(EngineError::DuplicateInstanceId))
    } else {
        match def_by_id(defs, proto.definition_id@) {
            None => (rows, Err(EngineError::DefinitionNotFound)),
            Some(vd) => {
                if start_count(vd.def.nodes@) == 0 {
                    (rows, Err(EngineError::Definition(DefinitionError::NoStartNode)))
                } else if start_count(vd.def.nodes@) > 1 {
                    (rows, Err(EngineError::Definition(DefinitionError::AmbiguousStart)))
                } else {
                    let creation = WorkflowInstance {
                        current_node_id: Some(spec_start_node(vd.def.nodes@).id),
                        status: InstanceStatus::Running,
                        ..proto
                    };
                    let rows1 = upsert(rows, creation);
                    let m = auto_run(vd.def, creation, now, auto_fuel(vd.def));
                    match m.1 {
                        Ok(i2) => (upsert(rows1, i2), Ok(m.0)),
                        Err(e) => (rows1, Err(EngineError::Definition(e))),
                    }
                }
            },
        }
    }
}

/// What delivering an inbound event does. The edges leaving the waiting
/// node are scanned in order, `Fallback` edges skipped; if none matched, the
/// first `Fallback` edge is taken; if nothing matched the instance is left
/// unchanged and the event is not consumed, so a lower-priority handler may
/// take it.
pub open spec fn spec_process(
    defs: Seq<ValidatedDefinition>,
    rows: Seq<WorkflowInstance>,
    sender: Seq<char>,
    content: Seq<char>,
    stamp: String,
    now: i64,
) -> (Seq<WorkflowInstance>, Result<(bool, Seq<Action>), EngineError>) {
    match active_for(rows, sender) {
        None => (rows, Ok((false, Seq::<Action>::empty()))),
        Some(inst) => match def_by_id(defs, inst.definition_id@) {
            None => (rows, Err(EngineError::DefinitionNotFound)),
            Some(vd) => {
                if !(inst.status is WaitingForResponse) {
                    (rows, Ok((false, Seq::<Action>::empty())))
                } else {
                    match inst.current_node_id {
                        None => (rows, Ok((false, Seq::<Action>::empty()))),
                        Some(cur) => {
                            if !has_node(vd.def.nodes@, cur@) {
                                (rows, Err(EngineError::NodeNotFound))
                            } else {
                                let hit = match find_edge(
                                    vd.def.edges@,
                                    cur@,
                                    MatchKind::Event,
                                    content,
                                ) {
                                    Some(e) => Some(e),
                                    None => find_edge(
                                        vd.def.edges@,
                                        cur@,
                                        MatchKind::Fallback,
                                        content,
                                    ),
                                };
                                match hit {
                                    None => (rows, Ok((false, Seq::<Action>::empty()))),
                                    Some(e) => {
                                        let moved = WorkflowInstance {
                                            current_node_id: Some(e.target),
                                            status: InstanceStatus::Running,
                                            next_execution_time: None,
                                            updated_at: stamp,
                                            ..inst
                                        };
                                        let m = auto_run(vd.def, moved, now, auto_fuel(vd.def));
                                        match m.1 {
                                            Ok(i2) => (upsert(rows, i2), Ok((true, m.0))),
                                            Err(er) => (
                                                rows,
                                                Err(EngineError::Definition(er)),
                                            ),
                                        }
                                    },
                                }
                            }
                        },
                    }
                }
            },
        },
    }
}

/// What a timer delivery does: only `Timeout` edges of the waiting or
/// scheduled node are considered; duplicate deliveries are tolerated, since
/// an instance that moved on no longer has the timeout edge.
pub open spec fn spec_timeout(
    defs: Seq<ValidatedDefinition>,
    rows: Seq<WorkflowInstance>,
    contact: Seq<char>,
    stamp: String,
    now: i64,
) -> (Seq<WorkflowInstance>, Result<(bool, Seq<Action>), EngineError>) {
    match active_for(rows, contact) {
        None => (rows, Ok((false, Seq::<Action>::empty()))),
        Some(inst) => match def_by_id(defs, inst.definition_id@) {
            None => (rows, Err(EngineError::DefinitionNotFound)),
            Some(vd) => {
                if !(inst.status is WaitingForResponse || inst.status is Scheduled) {
                    (rows, Ok((false, Seq::<Action>::empty())))
                } else {
                    match inst.current_node_id {
                        None => (rows, Ok((false, Seq::<Action>::empty()))),
                        Some(cur) => {
                            if !has_node(vd.def.nodes@, cur@) {
                                (rows, Err(EngineError::NodeNotFound))
                            } else {
                                match find_edge(
                                    vd.def.edges@,
                                    cur@,
                                    MatchKind::Timeout,
                                    Seq::<char>::empty(),
                                ) {
                                    None => (rows, Ok((false, Seq::<Action>::empty()))),
                                    Some(e) => {
                                        let moved = WorkflowInstance {
                                            current_node_id: Some(e.target),
                                            status: InstanceStatus::Running,
                                            next_execution_time: None,
                                            updated_at: stamp,
                                            ..inst
                                        };
                                        let m = auto_run(vd.def, moved, now, auto_fuel(vd.def));
                                        match m.1 {
                                            Ok(i2) => (upsert(rows, i2), Ok((true, m.0))),
                                            Err(er) => (
                                                rows,
                                                Err(EngineError::Definition(er)),
                                            ),
                                        }
                                    },
                                }
                            }
                        },
                    }
                }
            },
        },
    }
}

/// The workflow engine: a definition store plus the instance tracker it
/// checkpoints through.
pub struct WorkflowEngine {
    tracker: InstanceStateTracker,
    definitions: Vec<ValidatedDefinition>,
}

impl WorkflowEngine {
    /// The instance tracker.
    pub closed spec fn spec_tracker(self) -> InstanceStateTracker {
        self.tracker
    }

    /// The stored definitions.
    pub closed spec fn spec_defs(self) -> Seq<ValidatedDefinition> {
        self.definitions@
    }

    /// The durable instance rows.
    pub open spec fn spec_rows(self) -> Seq<WorkflowInstance> {
        self.spec_tracker().spec_rows()
    }

    /// Well-formedness of the engine.
    pub open spec fn wf(self) -> bool {
        &&& self.spec_tracker().wf()
        &&& defs_wf(self.spec_defs())
    }

    /// An engine with no definitions and no instances.
    pub fn new() -> (r: WorkflowEngine)
        ensures
            r.wf(),
            r.spec_rows() =~= Seq::<WorkflowInstance>::empty(),
            r.spec_defs() =~= Seq::<ValidatedDefinition>::empty(),
    {
        WorkflowEngine { tracker: InstanceStateTracker::new(), definitions: Vec::new() }
    }

    /// The instance tracker, for inspection.
    pub fn tracker(&self) -> (r: &InstanceStateTracker)
        ensures
            *r == self.spec_tracker(),
    {
        &self.tracker
    }

    /// Load the active instance of a subject.
    pub fn get_active_instance(&mut self, contact_id: &String) -> (r: Option<WorkflowInstance>)
        requires
            old(self).wf(),
        ensures
            final(self).wf(),
            final(self).spec_rows() == old(self).spec_rows(),
            final(self).spec_defs() == old(self).spec_defs(),
            r == active_for(old(self).spec_rows(), contact_id@),
    {
        self.tracker.get_active_instance(contact_id)
    }

    /// A process crash and restart: the cache is erased, the durable rows
    /// and the definitions survive.
    pub fn restart(&mut self)
        requires
            old(self).wf(),
        ensures
            final(self).wf(),
            final(self).spec_rows() == old(self).spec_rows(),
            final(self).spec_defs() == old(self).spec_defs(),
    {
        self.tracker.restart();
    }

    /// Validate a definition and store it, replacing any definition with the
    /// same identifier.
    pub fn save_definition(&mut self, def: WorkflowDefinition) -> (r: Result<(), DefinitionError>)
        requires
            old(self).wf(),
        ensures
            final(self).wf(),
            final(self).spec_tracker() == old(self).spec_tracker(),
            r is Ok <==> def_wf(def),
            r is Err ==> final(self).spec_defs() == old(self).spec_defs(),
            r is Ok ==> ({
                let found = def_by_id(final(self).spec_defs(), def.id@);
                found matches Some(v) && v.def == def && v.wf()
            }),
            r is Ok ==> forall|x: Seq<char>|
                x != def.id@ ==> def_by_id(final(self).spec_defs(), x) == def_by_id(
                    old(self).spec_defs(),
                    x,
                ),
    {
        let ghost def_id = def.id@;
        let vd = match validate(def) {
            Ok(v) => v,
            Err(e) => {
                return Err(e);
            },
        };
        let n = self.definitions.len();
        let mut i: usize = 0;
        while i < n
            invariant
                old(self).wf(),
                *self == *old(self),
                n == self.definitions@.len(),
                i <= n,
                vd.def.id@ == def_id,
                vd.def == def,
                def_wf(def),
                vd.wf(),
                forall|k: int| 0 <= k < i ==> (#[trigger] self.definitions@[k]).def.id@ != vd.def.id@,
            decreases n - i,
        {
            if self.definitions[i].def.id == vd.def.id {
                let ghost pre = self.definitions@;
                self.definitions.set(i, vd);
                proof {
                    let post = self.definitions@;
                    assert(post[i as int].def.id@ == def_id);
                    assert(forall|k: int| 0 <= k < post.len() && k != i ==> post[k] == pre[k]);
                    lemma_def_by_id_first(post, def_id, i as int);
                    assert forall|x: Seq<char>| x != def_id implies def_by_id(post, x) == def_by_id(
                        pre,
                        x,
                    ) by {
                        lemma_def_by_id_update_other(pre, i as int, post[i as int], x);
                    }
                }
                return Ok(());
            }
            i = i + 1;
        }
        let ghost pre = self.definitions@;
        self.definitions.push(vd);
        proof {
            let post = self.definitions@;
            assert(forall|k: int| 0 <= k < pre.len() ==> post[k] == pre[k]);
            assert(post[pre.len() as int].def.id@ == def_id);
            lemma_def_by_id_first(post, def_id, pre.len() as int);
            assert forall|x: Seq<char>| x != def_id implies def_by_id(post, x) == def_by_id(
                pre,
                x,
            ) by {
                lemma_def_by_id_push_other(pre, post[pre.len() as int], x);
            }
        }
        Ok(())
    }
    /// Start a workflow from a fresh instance record: fail on a live
    /// instance or a reused identifier, locate the unique start node,
    /// persist the creation, then drive the auto-transition loop and persist
    /// the suspended or completed result. On a definition fault after the
    /// creation write, the instance stays at its last persisted node.
    pub fn start_with(&mut self, proto: WorkflowInstance, now: i64) -> (r: Result<
        Vec<Action>,
        EngineError,
    >)
        requires
            old(self).wf(),
            proto.status is Running,
            proto.current_node_id is None,
        ensures
            final(self).wf(),
            final(self).spec_defs() == old(self).spec_defs(),
            ({
                let m = spec_start(old(self).spec_defs(), old(self).spec_rows(), proto, now);
                final(self).spec_rows() == m.0 && start_result_view(r) == m.1
            }),
    {
        let active = self.tracker.get_active_instance(&proto.contact_id);
        if active.is_some() {
            return Err(EngineError::ConcurrencyViolation);
        }
        if self.tracker.has_instance_id(&proto.id) {
            return Err(EngineError::DuplicateInstanceId);
        }
        let ghost rows0 = self.tracker.spec_rows();
        let vd = match find_def(&self.definitions, &proto.definition_id) {
            None => {
                return Err(EngineError::DefinitionNotFound);
            },
            Some(v) => v,
        };
        proof {
            let k = choose|k: int| 0 <= k < self.definitions@.len() && self.definitions@[k] == *vd;
            assert(self.definitions@[k].wf());
        }
        let start = match find_start_node(&vd.def.nodes) {
            Err(e) => {
                return Err(EngineError::Definition(e));
            },
            Ok(n) => n,
        };
        let creation = WorkflowInstance {
            current_node_id: Some(start.id.clone()),
            status: InstanceStatus::Running,
            ..proto
        };
        proof {
            lemma_active_for_none_inv(rows0, creation.contact_id@);
            assert(save_admissible(rows0, creation));
        }
        self.tracker.save_instance(&creation);
        let ghost rows1 = self.tracker.spec_rows();
        proof {
            assert(rows1 == upsert(rows0, creation));
            assert(!has_row(rows0, creation.id@));
            assert(rows1 == rows0.push(creation));
        }
        let fuel = auto_fuel_of(&vd.def);
        match run_auto(vd, creation, now, fuel) {
            Ok(pair) => {
                let (i2, acts) = pair;
                proof {
                    lemma_auto_run_preserves(vd.def, creation, now, fuel as nat);
                    lemma_auto_run_wf(vd.def, creation, now, fuel as nat);
                    assert(i2.wf());
                    assert(i2.id == creation.id && i2.contact_id == creation.contact_id);
                    assert forall|k: int|
                        0 <= k < rows1.len() && (#[trigger] rows1[k]).spec_is_active()
                            && rows1[k].contact_id@ == i2.contact_id@ implies rows1[k].id@
                        == i2.id@ by {
                        if k < rows0.len() {
                            assert(rows1[k] == rows0[k]);
                            assert(!crate::tracker::active_match(rows0[k], creation.contact_id@));
                        } else {
                            assert(rows1[k] == creation);
                        }
                    }
                    assert forall|k: int|
                        0 <= k < rows1.len() && (#[trigger] rows1[k]).id@ == i2.id@ implies
                    rows1[k].contact_id@ == i2.contact_id@ by {
                        if k < rows0.len() {
                            assert(rows1[k] == rows0[k]);
                            assert(!has_row(rows0, creation.id@));
                            assert(rows0[k].id@ != creation.id@);
                        } else {
                            assert(rows1[k] == creation);
                        }
                    }
                    assert(save_admissible(rows1, i2));
                }
                self.tracker.save_instance(&i2);
                Ok(acts)
            },
            Err(e) => Err(EngineError::Definition(e)),
        }
    }

    /// Deliver an inbound message to its sender's active instance. Returns
    /// whether the event was consumed and, if so, the actions emitted while
    /// the instance advanced to its next suspend point.
    pub fn process_message_at(&mut self, message: &Message, now: i64, stamp: &String) -> (r: Result<
        (bool, Vec<Action>),
        EngineError,
    >)
        requires
            old(self).wf(),
        ensures
            final(self).wf(),
            final(self).spec_defs() == old(self).spec_defs(),
            ({
                let m = spec_process(
                    old(self).spec_defs(),
                    old(self).spec_rows(),
                    message.sender_id@,
                    message.content@,
                    *stamp,
                    now,
                );
                final(self).spec_rows() == m.0 && event_result_view(r) == m.1
            }),
    {
        let ghost rows0 = self.tracker.spec_rows();
        let inst = match self.tracker.get_active_instance(&message.sender_id) {
            None => {
                return Ok((false, Vec::new()));
            },
            Some(i) => i,
        };
        let vd = match find_def(&self.definitions, &inst.definition_id) {
            None => {
                return Err(EngineError::DefinitionNotFound);
            },
            Some(v) => v,
        };
        proof {
            let k = choose|k: int| 0 <= k < self.definitions@.len() && self.definitions@[k] == *vd;
            assert(self.definitions@[k].wf());
        }
        if !matches!(inst.status, InstanceStatus::WaitingForResponse) {
            return Ok((false, Vec::new()));
        }
        let cur: String = match &inst.current_node_id {
            None => {
                return Ok((false, Vec::new()));
            },
            Some(c) => c.clone(),
        };
        if find_node(&vd.def.nodes, &cur).is_none() {
            return Err(EngineError::NodeNotFound);
        }
        let first = select_edge(vd, &cur, MatchKind::Event, message.content.as_str());
        let hit = match first {
            Some(e) => Some(e),
            None => select_edge(vd, &cur, MatchKind::Fallback, message.content.as_str()),
        };
        let edge = match hit {
            None => {
                return Ok((false, Vec::new()));
            },
            Some(e) => e,
        };
        let moved = WorkflowInstance {
            current_node_id: Some(edge.target.clone()),
            status: InstanceStatus::Running,
            next_execution_time: None,
            updated_at: stamp.clone(),
            ..inst
        };
        let fuel = auto_fuel_of(&vd.def);
        match run_auto(vd, moved, now, fuel) {
            Ok(pair) => {
                let (i2, acts) = pair;
                proof {
                    lemma_auto_run_preserves(vd.def, moved, now, fuel as nat);
                    lemma_auto_run_wf(vd.def, moved, now, fuel as nat);
                    lemma_active_for_found_index(rows0, message.sender_id@);
                    assert(inst.contact_id@ == message.sender_id@);
                    lemma_resume_admissible(rows0, inst, i2);
                }
                self.tracker.save_instance(&i2);
                Ok((true, acts))
            },
            Err(e) => Err(EngineError::Definition(e)),
        }
    }

    /// Deliver a timer expiry to the subject's active instance: only
    /// `Timeout` edges are considered. Duplicate deliveries are tolerated.
    pub fn process_timeout_at(&mut self, contact_id: &String, now: i64, stamp: &String) -> (r:
        Result<(bool, Vec<Action>), EngineError>)
        requires
            old(self).wf(),
        ensures
            final(self).wf(),
            final(self).spec_defs() == old(self).spec_defs(),
            ({
                let m = spec_timeout(
                    old(self).spec_defs(),
                    old(self).spec_rows(),
                    contact_id@,
                    *stamp,
                    now,
                );
                final(self).spec_rows() == m.0 && event_result_view(r) == m.1
            }),
    {
        let ghost rows0 = self.tracker.spec_rows();
        let inst = match self.tracker.get_active_instance(contact_id) {
            None => {
                return Ok((false, Vec::new()));
            },
            Some(i) => i,
        };
        let vd = match find_def(&self.definitions, &inst.definition_id) {
            None => {
                return Err(EngineError::DefinitionNotFound);
            },
            Some(v) => v,
        };
        proof {
            let k = choose|k: int| 0 <= k < self.definitions@.len() && self.definitions@[k] == *vd;
            assert(self.definitions@[k].wf());
        }
        let waiting = matches!(inst.status, InstanceStatus::WaitingForResponse) || matches!(
            inst.status,
            InstanceStatus::Scheduled,
        );
        if !waiting {
            return Ok((false, Vec::new()));
        }
        let cur: String = match &inst.current_node_id {
            None => {
                return Ok((false, Vec::new()));
            },
            Some(c) => c.clone(),
        };
        if find_node(&vd.def.nodes, &cur).is_none() {
            return Err(EngineError::NodeNotFound);
        }
        proof {
            reveal_strlit("");
            assert(""@ =~= Seq::<char>::empty());
        }
        let edge = match select_edge(vd, &cur, MatchKind::Timeout, "") {
            None => {
                return Ok((false, Vec::new()));
            },
            Some(e) => e,
        };
        let moved = WorkflowInstance {
            current_node_id: Some(edge.target.clone()),
            status: InstanceStatus::Running,
            next_execution_time: None,
            updated_at: stamp.clone(),
            ..inst
        };
        let fuel = auto_fuel_of(&vd.def);
        match run_auto(vd, moved, now, fuel) {
            Ok(pair) => {
                let (i2, acts) = pair;
                proof {
                    lemma_auto_run_preserves(vd.def, moved, now, fuel as nat);
                    lemma_auto_run_wf(vd.def, moved, now, fuel as nat);
                    lemma_active_for_found_index(rows0, contact_id@);
                    assert(inst.contact_id@ == contact_id@);
                    lemma_resume_admissible(rows0, inst, i2);
                }
                self.tracker.save_instance(&i2);
                Ok((true, acts))
            },
            Err(e) => Err(EngineError::Definition(e)),
        }
    }
}

/// The shape of a fresh instance record handed to `start_with`: bound to the
/// definition and subject, running, not yet at any node, with empty state
/// data and equal creation and update stamps.
pub open spec fn proto_shape(
    proto: WorkflowInstance,
    definition_id: Seq<char>,
    contact_id: Seq<char>,
) -> bool {
    &&& proto.definition_id@ == definition_id
    &&& proto.contact_id@ == contact_id
    &&& proto.status is Running
    &&& proto.current_node_id is None
    &&& proto.next_execution_time is None
    &&& match proto.state_data {
        Some(s) => s@ == "{}"@,
        None => false,
    }
    &&& proto.created_at@ == proto.updated_at@
}

/// A start ran with this fresh record and this clock reading, from the given
/// store state to the given store state and result.
pub open spec fn start_outcome_witness(
    proto: WorkflowInstance,
    now: i64,
    defs: Seq<ValidatedDefinition>,
    rows: Seq<WorkflowInstance>,
    definition_id: Seq<char>,
    contact_id: Seq<char>,
    rows2: Seq<WorkflowInstance>,
    res: Result<Seq<Action>, EngineError>,
) -> bool {
    &&& proto_shape(proto, definition_id, contact_id)
    &&& spec_start(defs, rows, proto, now) == (rows2, res)
}

/// A delivery ran with this stamp and clock reading, from the given store
/// state to the given store state and result.
pub open spec fn event_outcome_witness(
    stamp: String,
    now: i64,
    defs: Seq<ValidatedDefinition>,
    rows: Seq<WorkflowInstance>,
    sender: Seq<char>,
    content: Seq<char>,
    rows2: Seq<WorkflowInstance>,
    res: Result<(bool, Seq<Action>), EngineError>,
) -> bool {
    spec_process(defs, rows, sender, content, stamp, now) == (rows2, res)
}

/// A timer delivery ran with this stamp and clock reading, from the given
/// store state to the given store state and result.
pub open spec fn timeout_outcome_witness(
    stamp: String,
    now: i64,
    defs: Seq<ValidatedDefinition>,
    rows: Seq<WorkflowInstance>,
    contact: Seq<char>,
    rows2: Seq<WorkflowInstance>,
    res: Result<(bool, Seq<Action>), EngineError>,
) -> bool {
    spec_timeout(defs, rows, contact, stamp, now) == (rows2, res)
}

impl WorkflowEngine {
    /// Start a workflow for a subject: a fresh instance record is minted
    /// with a random identifier and the current time, and `start_with` does
    /// the rest. A start while an active instance exists always fails with
    /// `ConcurrencyViolation` and writes nothing.
    pub fn start_workflow(&mut self, definition_id: &String, contact_id: &String) -> (r: Result<
        Vec<Action>,
        EngineError,
    >)
        requires
            old(self).wf(),
        ensures
            final(self).wf(),
            final(self).spec_defs() == old(self).spec_defs(),
            active_for(old(self).spec_rows(), contact_id@) is Some ==> r == Err::<
                Vec<Action>,
                EngineError,
            >(EngineError::ConcurrencyViolation) && final(self).spec_rows() == old(
                self,
            ).spec_rows(),
            exists|proto: WorkflowInstance, now: i64|
                #[trigger] start_outcome_witness(
                    proto,
                    now,
                    old(self).spec_defs(),
                    old(self).spec_rows(),
                    definition_id@,
                    contact_id@,
                    final(self).spec_rows(),
                    start_result_view(r),
                ),
    {
        let id = fresh_instance_id();
        let stamp = now_rfc3339();
        let now = now_seconds();
        let proto = WorkflowInstance {
            id,
            definition_id: definition_id.clone(),
            contact_id: contact_id.clone(),
            current_node_id: None,
            state_data: Some("{}".to_owned()),
            status: InstanceStatus::Running,
            next_execution_time: None,
            created_at: stamp.clone(),
            updated_at: stamp,
        };
        let ghost gproto = proto;
        let ghost gnow = now;
        let r = self.start_with(proto, now);
        proof {
            assert(proto_shape(gproto, definition_id@, contact_id@));
            assert(start_outcome_witness(
                gproto,
                gnow,
                old(self).spec_defs(),
                old(self).spec_rows(),
                definition_id@,
                contact_id@,
                final(self).spec_rows(),
                start_result_view(r),
            ));
        }
        r
    }

    /// Deliver an inbound message, stamping the transition with the current
    /// time. A sender with no active instance consumes nothing.
    pub fn process_message(&mut self, message: &Message) -> (r: Result<
        (bool, Vec<Action>),
        EngineError,
    >)
        requires
            old(self).wf(),
        ensures
            final(self).wf(),
            final(self).spec_defs() == old(self).spec_defs(),
            active_for(old(self).spec_rows(), message.sender_id@) is None ==> (r matches Ok(p)
                && p.0 == false && p.1@ =~= Seq::<Action>::empty() && final(self).spec_rows()
                == old(self).spec_rows()),
            exists|stamp: String, now: i64|
                #[trigger] event_outcome_witness(
                    stamp,
                    now,
                    old(self).spec_defs(),
                    old(self).spec_rows(),
                    message.sender_id@,
                    message.content@,
                    final(self).spec_rows(),
                    event_result_view(r),
                ),
    {
        let stamp = now_rfc3339();
        let now = now_seconds();
        let ghost gstamp = stamp;
        let r = self.process_message_at(message, now, &stamp);
        proof {
            assert(event_outcome_witness(
                gstamp,
                now,
                old(self).spec_defs(),
                old(self).spec_rows(),
                message.sender_id@,
                message.content@,
                final(self).spec_rows(),
                event_result_view(r),
            ));
        }
        r
    }

    /// Deliver a timer expiry for a subject, stamping the transition with
    /// the current time.
    pub fn process_timeout(&mut self, contact_id: &String) -> (r: Result<
        (bool, Vec<Action>),
        EngineError,
    >)
        requires
            old(self).wf(),
        ensures
            final(self).wf(),
            final(self).spec_defs() == old(self).spec_defs(),
            active_for(old(self).spec_rows(), contact_id@) is None ==> (r matches Ok(p) && p.0
                == false && p.1@ =~= Seq::<Action>::empty() && final(self).spec_rows() == old(
                self,
            ).spec_rows()),
            exists|stamp: String, now: i64|
                #[trigger] timeout_outcome_witness(
                    stamp,
                    now,
                    old(self).spec_defs(),
                    old(self).spec_rows(),
                    contact_id@,
                    final(self).spec_rows(),
                    event_result_view(r),
                ),
    {
        let stamp = now_rfc3339();
        let now = now_seconds();
        let ghost gstamp = stamp;
        let r = self.process_timeout_at(contact_id, now, &stamp);
        proof {
            assert(timeout_outcome_witness(
                gstamp,
                now,
                old(self).spec_defs(),
                old(self).spec_rows(),
                contact_id@,
                final(self).spec_rows(),
                event_result_view(r),
            ));
        }
        r
    }
}

/// Saving the successor of the subject's active instance is admissible: it
/// keeps the same identifier and subject, so it replaces the one active row.
proof fn lemma_resume_admissible(
    rows: Seq<WorkflowInstance>,
    inst: WorkflowInstance,
    i2: WorkflowInstance,
)
    requires
        rows_wf(rows),
        active_for(rows, inst.contact_id@) == Some(inst),
        i2.id == inst.id,
        i2.contact_id == inst.contact_id,
    ensures
        save_admissible(rows, i2),
{
    lemma_active_for_found_index(rows, inst.contact_id@);
    let ix = choose|ix: int|
        0 <= ix < rows.len() && rows[ix] == active_for(rows, inst.contact_id@)->0 && active_match(
            #[trigger] rows[ix],
            inst.contact_id@,
        );
    assert(rows[ix] == inst);
    assert forall|k: int|
        0 <= k < rows.len() && (#[trigger] rows[k]).spec_is_active() && rows[k].contact_id@
            == i2.contact_id@ implies rows[k].id@ == i2.id@ by {
        if k != ix {
            assert(rows[k].contact_id@ != rows[ix].contact_id@);
        }
    }
    assert forall|k: int|
        0 <= k < rows.len() && (#[trigger] rows[k]).id@ == i2.id@ implies rows[k].contact_id@
            == i2.contact_id@ by {
        if k != ix {
            assert(rows[k].id@ != rows[ix].id@);
        }
    }
}

/// Replacing a definition under one identifier leaves lookups of other
/// identifiers unchanged.
proof fn lemma_def_by_id_update_other(
    defs: Seq<ValidatedDefinition>,
    i: int,
    vd: ValidatedDefinition,
    id: Seq<char>,
)
    requires
        0 <= i < defs.len(),
        defs[i].def.id@ != id,
        vd.def.id@ != id,
    ensures
        def_by_id(defs.update(i, vd), id) == def_by_id(defs, id),
    decreases defs.len(),
{
    if i == 0 {
        assert(defs.update(0, vd).drop_first() =~= defs.drop_first());
    } else {
        if defs[0].def.id@ == id {
            assert(defs.update(i, vd)[0] == defs[0]);
        } else {
            assert(defs.update(i, vd).drop_first() =~= defs.drop_first().update(i - 1, vd));
            lemma_def_by_id_update_other(defs.drop_first(), i - 1, vd, id);
        }
    }
}

/// Appending a definition under one identifier leaves lookups of other
/// identifiers unchanged.
proof fn lemma_def_by_id_push_other(
    defs: Seq<ValidatedDefinition>,
    vd: ValidatedDefinition,
    id: Seq<char>,
)
    requires
        vd.def.id@ != id,
    ensures
        def_by_id(defs.push(vd), id) == def_by_id(defs, id),
    decreases defs.len(),
{
    let p = defs.push(vd);
    if defs.len() == 0 {
        assert(p[0] == vd);
        assert(p.drop_first().len() == 0);
        assert(def_by_id(p.drop_first(), id) is None);
    } else {
        assert(p[0] == defs[0]);
        assert(p.drop_first() =~= defs.drop_first().push(vd));
        lemma_def_by_id_push_other(defs.drop_first(), vd, id);
    }
}

/// The actions of an engine result, seen abstractly.
pub open spec fn start_result_view(r: Result<Vec<Action>, EngineError>) -> Result<
    Seq<Action>,
    EngineError,
> {
    match r {
        Ok(v) => Ok(v@),
        Err(e) => Err(e),
    }
}

/// The consumed flag and actions of a delivery result, seen abstractly.
pub open spec fn event_result_view(r: Result<(bool, Vec<Action>), EngineError>) -> Result<
    (bool, Seq<Action>),
    EngineError,
> {
    match r {
        Ok(p) => Ok((p.0, p.1@)),
        Err(e) => Err(e),
    }
}

/// What the lookup found is one of the stored definitions.
proof fn lemma_def_by_id_found(defs: Seq<ValidatedDefinition>, id: Seq<char>)
    requires
        def_by_id(defs, id) is Some,
    ensures
        exists|k: int| 0 <= k < defs.len() && defs[k] == def_by_id(defs, id)->0,
    decreases defs.len(),
{
    if defs.len() > 0 {
        if defs[0].def.id@ == id {
            assert(defs[0] == def_by_id(defs, id)->0);
        } else {
            lemma_def_by_id_found(defs.drop_first(), id);
            let k = choose|k: int|
                0 <= k < defs.drop_first().len() && defs.drop_first()[k] == def_by_id(
                    defs.drop_first(),
                    id,
                )->0;
            assert(defs[k + 1] == defs.drop_first()[k]);
        }
    }
}

/// In a well-formed store, every active row of the subject is the one the
/// lookup yields.
proof fn lemma_only_active_row(rows: Seq<WorkflowInstance>, contact: Seq<char>)
    requires
        rows_wf(rows),
        active_for(rows, contact) is Some,
    ensures
        forall|k: int|
            0 <= k < rows.len() && active_match(#[trigger] rows[k], contact) ==> rows[k]
                == active_for(rows, contact)->0,
{
    lemma_active_for_found_index(rows, contact);
    let ix = choose|ix: int|
        0 <= ix < rows.len() && rows[ix] == active_for(rows, contact)->0 && active_match(
            #[trigger] rows[ix],
            contact,
        );
    assert forall|k: int|
        0 <= k < rows.len() && active_match(#[trigger] rows[k], contact) implies rows[k]
        == active_for(rows, contact)->0 by {
        if k != ix {
            assert(rows[k].contact_id@ != rows[ix].contact_id@);
        }
    }
}

/// An instance the auto-transition loop suspended names a node of the
/// definition it ran under.
proof fn lemma_auto_run_current_exists(
    def: WorkflowDefinition,
    inst: WorkflowInstance,
    now: i64,
    fuel: nat,
)
    requires
        inst.current_node_id is Some,
    ensures
        ({
            let r = auto_run(def, inst, now, fuel);
            r.1 matches Ok(i2) ==> match i2.current_node_id {
                Some(c) => has_node(def.nodes@, c@),
                None => true,
            }
        }),
    decreases fuel,
{
    match inst.current_node_id {
        None => (),
        Some(cur) => {
            if has_node(def.nodes@, cur@) {
                let node = node_of(def.nodes@, cur@);
                match node.config {
                    NodeConfig::End => (),
                    NodeConfig::WaitForResponse { timeout_seconds } => (),
                    _ => {
                        match find_edge(def.edges@, cur@, MatchKind::Auto, Seq::<char>::empty()) {
                            None => (),
                            Some(e) => {
                                if fuel > 0 {
                                    let stepped = WorkflowInstance {
                                        current_node_id: Some(e.target),
                                        status: InstanceStatus::Running,
                                        ..inst
                                    };
                                    lemma_auto_run_current_exists(def, stepped, now, (fuel - 1) as nat);
                                }
                            },
                        }
                    },
                }
            }
        },
    }
}

/// Whether a delivery of this content to this instance would consume it: the
/// instance is waiting and some edge of its current node matches the content
/// in either pass.
pub open spec fn instance_consumes(
    defs: Seq<ValidatedDefinition>,
    inst: WorkflowInstance,
    content: Seq<char>,
) -> bool {
    &&& inst.status is WaitingForResponse
    &&& match inst.current_node_id {
        Some(cur) => match def_by_id(defs, inst.definition_id@) {
            Some(vd) => find_edge(vd.def.edges@, cur@, MatchKind::Event, content) is Some
                || find_edge(vd.def.edges@, cur@, MatchKind::Fallback, content) is Some,
            None => false,
        },
        None => false,
    }
}

/// Idempotent event delivery law: once a delivery has consumed an event and
/// the instance has moved past the matching node, delivering the same event
/// again consumes nothing and changes nothing, whatever the clock then
/// reads. The instance either completed (no active instance is left) or
/// waits at a node that no longer has an edge matching the event; re-delivery
/// is detected exactly by that absence, so no double transition can occur.
pub proof fn lemma_idempotent_event(
    defs: Seq<ValidatedDefinition>,
    rows: Seq<WorkflowInstance>,
    sender: Seq<char>,
    content: Seq<char>,
    stamp1: String,
    now1: i64,
    stamp2: String,
    now2: i64,
)
    requires
        defs_wf(defs),
        rows_wf(rows),
        ({
            let m = spec_process(defs, rows, sender, content, stamp1, now1);
            m.1 matches Ok(p) && p.0
        }),
        ({
            let m = spec_process(defs, rows, sender, content, stamp1, now1);
            match active_for(m.0, sender) {
                None => true,
                Some(i2) => !instance_consumes(defs, i2, content),
            }
        }),
    ensures
        ({
            let m = spec_process(defs, rows, sender, content, stamp1, now1);
            let m2 = spec_process(defs, m.0, sender, content, stamp2, now2);
            m2.0 == m.0 && m2.1 == Ok::<(bool, Seq<Action>), EngineError>(
                (false, Seq::<Action>::empty()),
            )
        }),
{
    let m = spec_process(defs, rows, sender, content, stamp1, now1);
    let inst = active_for(rows, sender)->0;
    lemma_active_for_found_index(rows, sender);
    assert(inst.contact_id@ == sender);
    let vd = def_by_id(defs, inst.definition_id@)->0;
    lemma_def_by_id_found(defs, inst.definition_id@);
    let dk = choose|k: int| 0 <= k < defs.len() && defs[k] == def_by_id(defs, inst.definition_id@)->0;
    assert(defs[dk].wf());
    let cur = inst.current_node_id->0;
    let hit = match find_edge(vd.def.edges@, cur@, MatchKind::Event, content) {
        Some(e) => Some(e),
        None => find_edge(vd.def.edges@, cur@, MatchKind::Fallback, content),
    };
    let e = hit->0;
    let moved = WorkflowInstance {
        current_node_id: Some(e.target),
        status: InstanceStatus::Running,
        next_execution_time: None,
        updated_at: stamp1,
        ..inst
    };
    let fuel = auto_fuel(vd.def);
    let ar = auto_run(vd.def, moved, now1, fuel);
    let i2 = ar.1->Ok_0;
    assert(m.0 == upsert(rows, i2));
    lemma_auto_run_preserves(vd.def, moved, now1, fuel);
    lemma_auto_run_wf(vd.def, moved, now1, fuel);
    assert(i2.id == inst.id && i2.contact_id == inst.contact_id && i2.definition_id
        == inst.definition_id);
    lemma_resume_admissible(rows, inst, i2);
    lemma_save_keeps_rows_wf(rows, i2);
    let m2 = spec_process(defs, m.0, sender, content, stamp2, now2);
    if i2.status is Completed {
        lemma_only_active_row(rows, sender);
        lemma_complete_clears_active(rows, i2);
        assert(active_for(m.0, sender) is None);
        assert(m2.0 == m.0 && m2.1 == Ok::<(bool, Seq<Action>), EngineError>(
            (false, Seq::<Action>::empty()),
        ));
    } else {
        assert(i2.status is WaitingForResponse);
        lemma_saved_row_is_active_lookup(rows, i2);
        assert(active_for(m.0, sender) == Some(i2));
        assert(!instance_consumes(defs, i2, content));
        assert(i2.wf());
        let cur2 = i2.current_node_id->0;
        lemma_auto_run_current_exists(vd.def, moved, now1, fuel);
        assert(has_node(vd.def.nodes@, cur2@));
        assert(def_by_id(defs, i2.definition_id@) == Some(vd));
        assert(find_edge(vd.def.edges@, cur2@, MatchKind::Event, content) is None);
        assert(find_edge(vd.def.edges@, cur2@, MatchKind::Fallback, content) is None);
        assert(m2.0 == m.0 && m2.1 == Ok::<(bool, Seq<Action>), EngineError>(
            (false, Seq::<Action>::empty()),
        ));
    }
}

} // verus!

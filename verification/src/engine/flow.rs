//! Flows: nodes under names, and edges that say which node follows which.

use crate::engine::context::{Context, CONTEXT_RESULT};
use crate::engine::node::{FlowError, Node, NodeResult};
use crate::engine::status::Status;
use crate::json::{clone_value, json_text, null_value};
use crate::table::Table;
use vstd::prelude::*;
use vstd::std_specs::cmp::PartialEqSpec;

verus! {

/// The most nodes that one run of a flow executes. No flow that ends gets
/// there; a run that does is given up.
pub const MAX_STEPS: u64 = u64::MAX;

/// One edge as contracts see it: the status that selects it, and the name
/// of the node that it leads to.
pub open spec fn edge_view<S>(edge: (S, String)) -> (S, Seq<char>) {
    (edge.0, edge.1@)
}

/// The edges of a list as contracts see them.
pub open spec fn edges_view<S>(edges: Seq<(S, String)>) -> Seq<(S, Seq<char>)> {
    edges.map_values(|edge: (S, String)| edge_view(edge))
}

/// The node to which the first of `edges` leads whose status equals
/// `status`, if there is such an edge.
pub open spec fn first_match<S: PartialEq>(edges: Seq<(S, Seq<char>)>, status: S) -> Option<
    Seq<char>,
>
    decreases edges.len(),
{
    if edges.len() == 0 {
        None
    } else if status.eq_spec(&edges[0].0) {
        Some(edges[0].1)
    } else {
        first_match(edges.drop_first(), status)
    }
}

/// A flow: nodes under their names, the node to start with, and for each
/// node the edges that leave it, in the order in which they were added.
/// `N` is the handle by which the flow holds a node, such as a shared
/// pointer to a node of any kind. A flow whose handles are nodes can `run`;
/// any flow can say which node follows which.
pub struct Flow<S: Status, N> {
    nodes: Table<N>,
    edges: Table<Vec<(S, String)>>,
    start_node: String,
}

impl<S: Status, N> Flow<S, N> {
    /// The nodes of the flow under their names.
    pub closed spec fn nodes(&self) -> Map<Seq<char>, N> {
        self.nodes.map()
    }

    /// The name of the node with which a run starts.
    pub closed spec fn start_name(&self) -> Seq<char> {
        self.start_node@
    }

    /// The edges that leave the node `name`, in the order in which they were added.
    pub closed spec fn edges_from(&self, name: Seq<char>) -> Seq<(S, Seq<char>)> {
        if self.edges.map().dom().contains(name) {
            edges_view(self.edges.map()[name]@)
        } else {
            Seq::empty()
        }
    }

    /// Whether the flow has a node `name`.
    pub open spec fn has_node(&self, name: Seq<char>) -> bool {
        self.nodes().dom().contains(name)
    }

    /// The node that follows `current` when it ended with `status`: the one
    /// to which the first matching edge leads, if it is a node of the flow.
    pub open spec fn successor(&self, current: Seq<char>, status: S) -> Option<Seq<char>> {
        match first_match(self.edges_from(current), status) {
            Some(next) => if self.has_node(next) {
                Some(next)
            } else {
                None
            },
            None => None,
        }
    }

    /// A flow that starts with `start_node` and has no other node and no edge.
    pub fn new(start_node_name: &str, start_node: N) -> (r: Self)
        ensures
            r.nodes() == Map::<Seq<char>, N>::empty().insert(start_node_name@, start_node),
            r.start_name() == start_node_name@,
            forall|name: Seq<char>| r.edges_from(name) == Seq::<(S, Seq<char>)>::empty(),
    {
        let mut nodes: Table<N> = Table::new();
        nodes.insert(start_node_name.to_string(), start_node);
        Flow { nodes, edges: Table::new(), start_node: start_node_name.to_string() }
    }

    /// Puts `node` under `name`, in place of a node that stood there.
    pub fn add_node(&mut self, name: &str, node: N)
        ensures
            final(self).nodes() == old(self).nodes().insert(name@, node),
            final(self).start_name() == old(self).start_name(),
            forall|from: Seq<char>| final(self).edges_from(from) == old(self).edges_from(from),
    {
        self.nodes.insert(name.to_string(), node);
    }

    /// Adds an edge from the node `from` to the node `to`, taken when `from`
    /// ends with the status `condition`. It goes behind the edges that leave
    /// `from` already, so that an earlier edge with that status is preferred.
    pub fn add_edge(&mut self, from: &str, condition: S, to: &str)
        ensures
            final(self).edges_from(from@) == old(self).edges_from(from@).push((condition, to@)),
            forall|other: Seq<char>|
                other != from@ ==> final(self).edges_from(other) == old(self).edges_from(other),
            final(self).nodes() == old(self).nodes(),
            final(self).start_name() == old(self).start_name(),
    {
        let mut leaving = match self.edges.remove(from) {
            Some(edges) => edges,
            None => Vec::new(),
        };
        let ghost before = leaving@;
        assert(edges_view(before) =~= old(self).edges_from(from@));
        leaving.push((condition, to.to_string()));
        assert(edges_view(leaving@) =~= edges_view(before).push((condition, to@)));
        self.edges.insert(from.to_string(), leaving);
        assert forall|other: Seq<char>| other != from@ implies self.edges_from(other)
            == old(self).edges_from(other) by {
            let known = old(self).edges.map().dom().contains(other);
            assert(self.edges.map().dom().contains(other) == known);
        }
    }

    /// The name of the node with which a run starts.
    pub fn start(&self) -> (r: &str)
        ensures
            r@ == self.start_name(),
    {
        self.start_node.as_str()
    }

    /// The node that follows `current` when it ended with `status`, if any;
    /// see `successor`. Equality of statuses is what `S` says it is.
    pub fn next_node(&self, current: &str, status: &S) -> (r: Option<String>)
        ensures
            S::obeys_eq_spec() ==> match r {
                Some(next) => self.successor(current@, *status) == Some(next@),
                None => self.successor(current@, *status) is None,
            },
    {
        let leaving = match self.edges.get(current) {
            Some(edges) => edges,
            None => {
                return None;
            },
        };
        let ghost all = edges_view(leaving@);
        assert(self.edges.map().dom().contains(current@));
        assert(self.edges.map()[current@] == *leaving);
        assert(self.edges_from(current@) == all);
        let mut i: usize = 0;
        assert(all.skip(0) =~= all);
        while i < leaving.len()
            invariant
                i <= leaving.len(),
                all == edges_view(leaving@),
                self.edges_from(current@) == all,
                S::obeys_eq_spec() ==> first_match(all, *status) == first_match(
                    all.skip(i as int),
                    *status,
                ),
            decreases leaving.len() - i,
        {
            let ghost rest = all.skip(i as int);
            assert(rest[0] == all[i as int]);
            assert(rest.drop_first() =~= all.skip(i + 1));
            if *status == leaving[i].0 {
                let next = leaving[i].1.clone();
                assert(S::obeys_eq_spec() ==> first_match(rest, *status) == Some(next@));
                return match self.nodes.position(next.as_str()) {
                    Some(_) => Some(next),
                    None => None,
                };
            }
            i = i + 1;
        }
        None
    }

    /// Where a run goes from the node `current` once the node has settled
    /// the outcome of its work: to the node that follows for the status of
    /// the settlement, if there is one; a settlement that failed ends the run
    /// with its error.
    pub fn advance(&self, current: &str, settlement: Result<NodeResult<S>, FlowError>) -> (r:
        Result<Option<String>, FlowError>)
        ensures
            match settlement {
                Ok(result) => r matches Ok(next) && (S::obeys_eq_spec() ==> match next {
                    Some(name) => self.successor(current@, result.status) == Some(name@),
                    None => self.successor(current@, result.status) is None,
                }),
                Err(failure) => r matches Err(error) && error == failure,
            },
    {
        match settlement {
            Ok(result) => Ok(self.next_node(current, &result.status)),
            Err(error) => Err(error),
        }
    }

    /// The node `name`, if the flow has one.
    pub fn node(&self, name: &str) -> (r: Option<&N>)
        ensures
            match r {
                Some(node) => self.has_node(name@) && *node == self.nodes()[name@],
                None => !self.has_node(name@),
            },
    {
        self.nodes.get(name)
    }
}

/// The text of what a run leaves as its result: what the context holds
/// under `CONTEXT_RESULT`, or JSON's null where it holds nothing there.
pub open spec fn result_text(context: Context) -> Seq<char> {
    if context.contains(CONTEXT_RESULT@) {
        json_text(context.map()[CONTEXT_RESULT@])
    } else {
        seq!['n', 'u', 'l', 'l']
    }
}

impl<S: Status, N: Node<S>> Flow<S, N> {
    /// Whether `answer` is what `node` may answer when it is asked to
    /// prepare in a context that holds `before`.
    pub open spec fn prepares(node: N, before: Context, answer: Result<(), FlowError>) -> bool {
        exists|lent: &mut Context|
            mut_ref_current(lent) == before && #[trigger] call_ensures(
                N::prepare,
                (&node, lent),
                answer,
            )
    }

    /// Runs the flow from its start node in `context`: each node is prepared
    /// and executed, its `after_exec` gives the status, and the run goes on
    /// with the successor for that status until there is none. The result is
    /// what the nodes left in the context under `CONTEXT_RESULT`, or JSON's
    /// null.
    ///
    /// The run begins with the preparation of the start node, in the context
    /// as it is given. It is given up with the error of the node where
    /// `prepare` or `after_exec` fails. A flow without its start node runs
    /// no node.
    pub fn run_in(&self, context: &mut Context) -> (r: Result<serde_json::Value, FlowError>)
        ensures
            r matches Ok(value) ==> json_text(value) == result_text(*final(context)),
            !self.has_node(self.start_name()) ==> r is Ok && *final(context) == *old(context),
            self.has_node(self.start_name()) ==> exists|answer: Result<(), FlowError>|
                {
                    &&& #[trigger] Self::prepares(
                        self.nodes()[self.start_name()],
                        *old(context),
                        answer,
                    )
                    &&& answer matches Err(error) ==> (r matches Err(failure) && failure == error)
                },
    {
        let mut current = self.start_node.clone();
        let mut budget: u64 = MAX_STEPS;
        let ghost mut started = false;
        let ghost mut first: Result<(), FlowError> = Ok(());
        loop
            invariant_except_break
                !started ==> {
                    &&& current@ == self.start_name()
                    &&& *context == *old(context)
                    &&& budget == MAX_STEPS
                },
            invariant
                started ==> {
                    &&& self.has_node(self.start_name())
                    &&& first is Ok
                    &&& Self::prepares(self.nodes()[self.start_name()], *old(context), first)
                },
            ensures
                !started ==> !self.has_node(self.start_name()) && *context == *old(context),
            decreases budget,
        {
            let node = match self.nodes.get(current.as_str()) {
                Some(node) => node,
                None => {
                    assert(!started ==> !self.has_node(self.start_name()));
                    break ;
                },
            };
            if budget == 0 {
                return Err(FlowError { message: "the flow did not come to an end".to_string() });
            }
            budget = budget - 1;
            let answer = node.prepare(context);
            proof {
                if !started {
                    assert(self.nodes.map().dom().contains(current@));
                    assert(self.nodes.map()[current@] == *node);
                    assert(Self::prepares(*node, *old(context), answer));
                    assert(Self::prepares(self.nodes()[self.start_name()], *old(context), answer));
                    first = answer;
                }
            }
            match answer {
                Ok(_) => {},
                Err(error) => {
                    return Err(error);
                },
            }
            proof {
                started = true;
            }
            let outcome = node.execute(context);
            let settlement = node.after_exec(context, &outcome);
            match self.advance(current.as_str(), settlement) {
                Ok(Some(next)) => {
                    current = next;
                },
                Ok(None) => {
                    break ;
                },
                Err(error) => {
                    return Err(error);
                },
            }
        }
        match context.get(CONTEXT_RESULT) {
            Some(value) => Ok(clone_value(value)),
            None => Ok(null_value()),
        }
    }

    /// Runs the flow from its start node in a context of its own; see
    /// `run_in`, which leaves the context to the caller. The result is what
    /// the context holds at the end.
    pub fn run(&self, context: Context) -> (r: Result<serde_json::Value, FlowError>)
        ensures
            r matches Ok(value) ==> exists|after: Context|
                json_text(value) == #[trigger] result_text(after),
            !self.has_node(self.start_name()) ==> (r matches Ok(value) && json_text(value)
                == result_text(context)),
            self.has_node(self.start_name()) ==> exists|answer: Result<(), FlowError>|
                {
                    &&& #[trigger] Self::prepares(
                        self.nodes()[self.start_name()],
                        context,
                        answer,
                    )
                    &&& answer matches Err(error) ==> (r matches Err(failure) && failure == error)
                },
    {
        let mut context = context;
        self.run_in(&mut context)
    }
}

} // verus!

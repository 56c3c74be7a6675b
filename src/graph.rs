use vstd::prelude::*;
use stack_graphs::graph::StackGraph;
use crate::error::TestError;

verus! {

#[verifier::external_type_specification]
#[verifier::external_body]
pub struct ExStackGraph(StackGraph);

/// The names of the files that a stack graph holds.
pub uninterp spec fn graph_files(g: StackGraph) -> Set<Seq<char>>;

/// Relies on `StackGraph::iter_files`: it yields one handle per file of the
/// graph, and file names are unique within a graph.
#[verifier::external_body]
fn file_count(g: &StackGraph) -> (r: usize)
    ensures
        r == graph_files(*g).len(),
{
    g.iter_files().count()
}

/// Relies on `StackGraph::add_from_graph`: it adds each file of `other` to
/// `graph` in turn and stops with the handle of the first file whose name `graph`
/// already has; that handle is turned into the file's name. File names are
/// unique within a graph, so the clash is with a file that was there before.
/// It copies edges while it copies files, and panics on an edge into a file not
/// copied yet; with at most one file in `other` every edge stays within what was
/// copied.
#[verifier::external_body]
fn add_from_graph(graph: &mut StackGraph, other: &StackGraph) -> (r: Result<(), String>)
    requires
        graph_files(*other).len() <= 1,
    ensures
        r is Ok <==> graph_files(*old(graph)).disjoint(graph_files(*other)),
        r is Ok ==> graph_files(*final(graph)) == graph_files(*old(graph)).union(
            graph_files(*other),
        ),
        r matches Err(name) ==> graph_files(*old(graph)).contains(name@) && graph_files(
            *other,
        ).contains(name@),
{
    match graph.add_from_graph(other) {
        Ok(()) => Ok(()),
        Err(h) => Err(graph[h].name().to_string()),
    }
}

/// Merges the builtin file of a language into a test file's graph. A builtin
/// file whose name the graph already holds means the graph was not fresh.
pub fn load_builtins_into(graph: &mut StackGraph, builtins: &StackGraph) -> (r: Result<
    (),
    TestError,
>)
    requires
        graph_files(*builtins).len() <= 1,
    ensures
        r is Ok <==> graph_files(*old(graph)).disjoint(graph_files(*builtins)),
        r is Ok ==> graph_files(*final(graph)) == graph_files(*old(graph)).union(
            graph_files(*builtins),
        ),
        r matches Err(e) ==> e matches TestError::DuplicateBuiltin { name } && graph_files(
            *old(graph),
        ).contains(name@) && graph_files(*builtins).contains(name@),
{
    match add_from_graph(graph, builtins) {
        Ok(()) => Ok(()),
        Err(name) => Err(TestError::DuplicateBuiltin { name }),
    }
}

/// Merges the builtins as `load_builtins_into` does where they hold at most one
/// file; builtins of more files are left alone, with `None`.
pub fn try_load_builtins_into(graph: &mut StackGraph, builtins: &StackGraph) -> (r: Option<
    Result<(), TestError>,
>)
    ensures
        r is None <==> graph_files(*builtins).len() > 1,
        r is None ==> *final(graph) == *old(graph),
        r matches Some(m) ==> (m is Ok <==> graph_files(*old(graph)).disjoint(
            graph_files(*builtins),
        )),
        r matches Some(Ok(())) ==> graph_files(*final(graph)) == graph_files(*old(graph)).union(
            graph_files(*builtins),
        ),
        r matches Some(Err(e)) ==> e matches TestError::DuplicateBuiltin { name } && graph_files(
            *old(graph),
        ).contains(name@) && graph_files(*builtins).contains(name@),
{
    if file_count(builtins) > 1 {
        None
    } else {
        Some(load_builtins_into(graph, builtins))
    }
}

} // verus!

//! Properties that relate several operations of the library.

use vstd::prelude::*;

use crate::http::{HttpMaterializer, HttpRuntimeData};
use crate::session::{
    alloc_materializer, alloc_node, alloc_runtime, graph_wf, refs_below, Error, Graph, Node,
    TypeId,
};
use crate::composite::resolve_seq;
use crate::t::{
    finalize_pending, injected_step, outcome_buildable, renamed_step, resolve_child, Buildable,
    Pending, TypeDef,
};

verus! {

/// Some node of the wrapper chain that ends at `h` is a rename to `name`.
pub open spec fn chain_has_rename(nodes: Seq<Node>, h: int, name: Seq<char>) -> bool
    decreases h,
{
    if 0 <= h < nodes.len() {
        match nodes[h] {
            Node::Renamed(of, s) => s@ == name || (of < h && chain_has_rename(
                nodes,
                of as int,
                name,
            )),
            Node::WithPolicy(of, _) => of < h && chain_has_rename(nodes, of as int, name),
            Node::WithInjection(of, _) => of < h && chain_has_rename(nodes, of as int, name),
            _ => false,
        }
    } else {
        false
    }
}

/// Some node of the wrapper chain that ends at `h` attaches the injection `text`.
pub open spec fn chain_has_injection(nodes: Seq<Node>, h: int, text: Seq<char>) -> bool
    decreases h,
{
    if 0 <= h < nodes.len() {
        match nodes[h] {
            Node::WithInjection(of, s) => s@ == text || (of < h && chain_has_injection(
                nodes,
                of as int,
                text,
            )),
            Node::WithPolicy(of, _) => of < h && chain_has_injection(nodes, of as int, text),
            Node::Renamed(of, _) => of < h && chain_has_injection(nodes, of as int, text),
            _ => false,
        }
    } else {
        false
    }
}

/// Every allocation keeps a graph closed: each node still refers only to nodes
/// allocated before it, and each function to a registered materializer.
pub proof fn lemma_allocation_keeps_graph_closed(
    g: Graph,
    node: Node,
    data: HttpRuntimeData,
    mat: HttpMaterializer,
)
    requires
        graph_wf(g),
    ensures
        graph_wf(alloc_node(g, node).0),
        graph_wf(alloc_runtime(g, data).0),
        graph_wf(alloc_materializer(g, mat).0),
{
    let g1 = alloc_node(g, node).0;
    assert forall|i: int| 0 <= i < g1.nodes.len() implies #[trigger] refs_below(
        g1.nodes[i],
        i as nat,
        g1.materializers.len(),
    ) by {
        if i < g.nodes.len() {
            assert(refs_below(g.nodes[i], i as nat, g.materializers.len()));
        }
    }
    let g3 = alloc_materializer(g, mat).0;
    assert forall|i: int| 0 <= i < g3.nodes.len() implies #[trigger] refs_below(
        g3.nodes[i],
        i as nat,
        g3.materializers.len(),
    ) by {
        assert(refs_below(g.nodes[i], i as nat, g.materializers.len()));
    }
    assert forall|j: int| 0 <= j < g3.materializers.len() implies (
    #[trigger] g3.materializers[j]).runtime < g3.runtimes.len() by {
        if j < g.materializers.len() {
            assert(g.materializers[j].runtime < g.runtimes.len());
        }
    }
    let g2 = alloc_runtime(g, data).0;
    assert forall|j: int| 0 <= j < g2.materializers.len() implies (
    #[trigger] g2.materializers[j]).runtime < g2.runtimes.len() by {
        assert(g.materializers[j].runtime < g.runtimes.len());
    }
}

/// Finalizing the same specification twice makes two allocations: the two
/// handles differ and each has its own record; nothing is deduplicated.
pub proof fn lemma_finalize_twice_distinct(
    g0: Graph,
    p: Pending,
    g1: Graph,
    r1: Result<TypeId, Error>,
    g2: Graph,
    r2: Result<TypeId, Error>,
)
    requires
        graph_wf(g0),
        (g1, r1) == finalize_pending(g0, p),
        (g2, r2) == finalize_pending(g1, p),
        r1 is Ok,
        r2 is Ok,
    ensures
        r1->Ok_0 != r2->Ok_0,
        g2.nodes.len() == g0.nodes.len() + 2,
        g2.nodes[r1->Ok_0 as int] == g2.nodes[r2->Ok_0 as int],
{
}

/// A handle, and a successful outcome carrying it, resolve to the same child
/// with the same graph and no allocation; a failed outcome passes its error on
/// unchanged; a name resolves to a fresh reference node of that name.
pub proof fn lemma_child_coercion(g: Graph, h: TypeDef, e: Error, name: String)
    requires
        graph_wf(g),
    ensures
        resolve_child(g, outcome_buildable(Ok(h))) == resolve_child(g, Buildable::Handle(h)),
        resolve_child(g, Buildable::Handle(h)) == (g, Ok::<TypeId, Error>(h@)),
        resolve_child(g, outcome_buildable(Err(e))) == (g, Err::<TypeId, Error>(e)),
        g.nodes.len() < g.limit ==> resolve_child(g, Buildable::Named(name)) == (
            Graph {
                nodes: g.nodes.push(Node::Reference(name, None)),
                runtimes: g.runtimes,
                materializers: g.materializers,
                limit: g.limit,
            },
            Ok::<TypeId, Error>(g.nodes.len() as TypeId),
        ),
{
}

/// Renaming then injecting, and injecting then renaming, both succeed on a
/// node of the graph while the engine has room for two records; either way the
/// last handle's wrapper chain carries the name and the injection. They differ
/// only in which wrapper comes last.
pub proof fn lemma_rename_and_inject_in_either_order(
    g0: Graph,
    h: TypeId,
    name: Seq<char>,
    text: Seq<char>,
    ga1: Graph,
    ra1: Result<TypeId, Error>,
    ga2: Graph,
    ra2: Result<TypeId, Error>,
    gb1: Graph,
    rb1: Result<TypeId, Error>,
    gb2: Graph,
    rb2: Result<TypeId, Error>,
)
    requires
        graph_wf(g0),
        h < g0.nodes.len(),
        g0.nodes.len() + 2 <= g0.limit,
        renamed_step(g0, ga1, ra1, h, name),
        injected_step(ga1, ga2, ra2, ra1->Ok_0, text),
        injected_step(g0, gb1, rb1, h, text),
        renamed_step(gb1, gb2, rb2, rb1->Ok_0, name),
    ensures
        ra1 is Ok && ra2 is Ok && rb1 is Ok && rb2 is Ok,
        ga2.nodes.len() == g0.nodes.len() + 2,
        gb2.nodes.len() == g0.nodes.len() + 2,
        ra2->Ok_0 == rb2->Ok_0,
        chain_has_rename(ga2.nodes, ra2->Ok_0 as int, name),
        chain_has_injection(ga2.nodes, ra2->Ok_0 as int, text),
        chain_has_rename(gb2.nodes, rb2->Ok_0 as int, name),
        chain_has_injection(gb2.nodes, rb2->Ok_0 as int, text),
        ga2.nodes[ra2->Ok_0 as int] is WithInjection,
        gb2.nodes[rb2->Ok_0 as int] is Renamed,
{
    let n = g0.nodes.len() as int;
    let s = choose|s: String|
        s@ == name && #[trigger] crate::t::allocated(g0, ga1, ra1, Node::Renamed(h, s));
    let t = choose|t: String|
        t@ == text && #[trigger] crate::t::allocated(
            ga1,
            ga2,
            ra2,
            Node::WithInjection(ra1->Ok_0, t),
        );
    assert(ga2.nodes[n] == Node::Renamed(h, s));
    assert(chain_has_rename(ga2.nodes, n, name));
    assert(chain_has_injection(ga2.nodes, n + 1, text));
    let u = choose|u: String|
        u@ == text && #[trigger] crate::t::allocated(g0, gb1, rb1, Node::WithInjection(h, u));
    let v = choose|v: String|
        v@ == name && #[trigger] crate::t::allocated(
            gb1,
            gb2,
            rb2,
            Node::Renamed(rb1->Ok_0, v),
        );
    assert(gb2.nodes[n] == Node::WithInjection(h, u));
    assert(chain_has_injection(gb2.nodes, n, text));
    assert(chain_has_rename(gb2.nodes, n + 1, name));
}


/// Variants given as handles, or as the successful outcomes that carry them,
/// resolve alike in a union or an either: the same identifiers in the same
/// order, and no allocation.
pub proof fn lemma_variants_coercion(g: Graph, hs: Seq<TypeDef>)
    ensures
        resolve_seq(g, hs.map_values(|h: TypeDef| Buildable::Handle(h))) == (
            g,
            Ok::<Seq<TypeId>, Error>(hs.map_values(|h: TypeDef| h@)),
        ),
        resolve_seq(g, hs.map_values(|h: TypeDef| outcome_buildable(Ok(h)))) == resolve_seq(
            g,
            hs.map_values(|h: TypeDef| Buildable::Handle(h)),
        ),
    decreases hs.len(),
{
    let handles = hs.map_values(|h: TypeDef| Buildable::Handle(h));
    let outcomes = hs.map_values(|h: TypeDef| outcome_buildable(Ok(h)));
    assert(handles =~= outcomes);
    if hs.len() > 0 {
        lemma_variants_coercion(g, hs.drop_last());
        assert(handles.drop_last() =~= hs.drop_last().map_values(|h: TypeDef| Buildable::Handle(h)));
        assert(hs.map_values(|h: TypeDef| h@) =~= hs.drop_last().map_values(|h: TypeDef| h@).push(
            hs.last()@,
        ));
    } else {
        assert(hs.map_values(|h: TypeDef| h@) =~= Seq::<TypeId>::empty());
    }
}

} // verus!

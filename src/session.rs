//! The graph-construction session: append-only tables, and the engine's answer
//! to each allocation.

use vstd::prelude::*;

use crate::http::{HttpMaterializer, HttpRuntimeData};

verus! {

/// Identifier of a node in the graph of one session.
pub type TypeId = u32;

/// Identifier of a materializer registered in one session.
pub type MaterializerId = u32;

/// Identifier of an external runtime registered in one session.
pub type RuntimeId = u32;

/// Reference to an authorization policy, as handed out by the policy layer.
pub type PolicyId = u32;

/// What a misconfigured request was rejected for, before any allocation.
#[derive(Debug, Clone, Copy, PartialEq, Eq, Structural)]
pub enum MalformedKind {
    /// A union was given no variant.
    EmptyUnion,
    /// A composite was given a child that was never finalized.
    UnfinalizedChild,
}

/// The ways in which building a node can fail.
#[derive(Debug, Clone, Copy, PartialEq, Eq, Structural)]
pub enum Error {
    /// The engine refused the allocation (its tables are full).
    Engine,
    /// A handle or an identifier does not belong to this session.
    InvalidReference,
    /// A local misuse, detected before the engine was asked anything.
    Malformed(MalformedKind),
}

/// Metadata shared by every scalar and composite node.
#[derive(Debug, Clone, PartialEq, Eq)]
pub struct TypeBase {
    pub name: Option<String>,
    pub as_id: bool,
    /// Runtime configuration pairs (key, JSON text), in insertion order.
    pub runtime_config: Vec<(String, String)>,
}

#[derive(Debug, Clone, PartialEq, Eq)]
pub struct IntegerConstraints {
    pub min: Option<i32>,
    pub max: Option<i32>,
    pub exclusive_minimum: Option<i32>,
    pub exclusive_maximum: Option<i32>,
    pub multiple_of: Option<i32>,
    pub enumeration: Option<Vec<i32>>,
}

/// Float constraints; each value is held as its IEEE 754 binary64 bit pattern.
#[derive(Debug, Clone, PartialEq, Eq)]
pub struct FloatConstraints {
    pub min: Option<u64>,
    pub max: Option<u64>,
    pub exclusive_minimum: Option<u64>,
    pub exclusive_maximum: Option<u64>,
    pub multiple_of: Option<u64>,
    pub enumeration: Option<Vec<u64>>,
}

#[derive(Debug, Clone, PartialEq, Eq)]
pub struct StringConstraints {
    pub min: Option<u32>,
    pub max: Option<u32>,
    pub format: Option<String>,
    pub pattern: Option<String>,
    pub enumeration: Option<Vec<String>>,
}

#[derive(Debug, Clone, PartialEq, Eq)]
pub struct OptionalData {
    pub of: TypeId,
    /// JSON text of the default value.
    pub default_item: Option<String>,
}

#[derive(Debug, Clone, Copy, PartialEq, Eq, Structural)]
pub struct ListData {
    pub of: TypeId,
    pub min: Option<u32>,
    pub max: Option<u32>,
    pub unique_items: Option<bool>,
}

#[derive(Debug, Clone, PartialEq, Eq)]
pub struct StructData {
    /// Properties in insertion order; names are not required to be distinct.
    pub props: Vec<(String, TypeId)>,
    pub min: Option<u32>,
    pub max: Option<u32>,
}

/// Reshapes the arguments of a function before they reach its materializer.
#[derive(Debug, Clone, PartialEq, Eq)]
pub struct ParameterTransform {
    pub resolver_input: TypeId,
    pub transform_tree: String,
}

#[derive(Debug, Clone, PartialEq, Eq)]
pub struct FuncData {
    pub inp: TypeId,
    pub out: TypeId,
    pub mat: MaterializerId,
    pub parameter_transform: Option<ParameterTransform>,
    pub rate_calls: bool,
    pub rate_weight: Option<u32>,
}

/// One record of the node table: what an allocation call carried.
#[derive(Debug, Clone, PartialEq, Eq)]
pub enum Node {
    Boolean(TypeBase),
    Integer(IntegerConstraints, TypeBase),
    Float(FloatConstraints, TypeBase),
    Text(StringConstraints, TypeBase),
    Optional(OptionalData, TypeBase),
    List(ListData, TypeBase),
    Union(Vec<TypeId>, TypeBase),
    Either(Vec<TypeId>, TypeBase),
    Struct(StructData, TypeBase),
    Func(FuncData),
    /// A named reference with its attribute pairs (`None` when it has none).
    Reference(String, Option<Vec<(String, String)>>),
    /// The wrapped node, with its display name replaced.
    Renamed(TypeId, String),
    /// The wrapped node, guarded by an ordered policy chain.
    WithPolicy(TypeId, Vec<PolicyId>),
    /// The wrapped node, with its value supplied by the serialized injection.
    WithInjection(TypeId, String),
}

/// The abstract state of a session: its three append-only tables and their bound.
pub ghost struct Graph {
    pub nodes: Seq<Node>,
    pub runtimes: Seq<HttpRuntimeData>,
    pub materializers: Seq<HttpMaterializer>,
    pub limit: nat,
}

/// Every handle that `node` holds is below `n` and every materializer below `m`.
pub open spec fn refs_below(node: Node, n: nat, m: nat) -> bool {
    match node {
        Node::Optional(d, _) => d.of < n,
        Node::List(d, _) => d.of < n,
        Node::Union(v, _) => forall|i: int| 0 <= i < v@.len() ==> v@[i] < n,
        Node::Either(v, _) => forall|i: int| 0 <= i < v@.len() ==> v@[i] < n,
        Node::Struct(d, _) => forall|i: int| 0 <= i < d.props@.len() ==> d.props@[i].1 < n,
        Node::Func(f) => f.inp < n && f.out < n && f.mat < m && match f.parameter_transform {
            Some(t) => t.resolver_input < n,
            None => true,
        },
        Node::Renamed(of, _) => of < n,
        Node::WithPolicy(of, _) => of < n,
        Node::WithInjection(of, _) => of < n,
        _ => true,
    }
}

/// A graph is closed: each node refers only to nodes allocated before it, each
/// function to a registered materializer, and each materializer to a registered
/// runtime; no table outgrows the bound.
pub open spec fn graph_wf(g: Graph) -> bool {
    &&& g.limit <= u32::MAX
    &&& g.nodes.len() <= g.limit
    &&& g.runtimes.len() <= g.limit
    &&& g.materializers.len() <= g.limit
    &&& forall|i: int|
        0 <= i < g.nodes.len() ==> #[trigger] refs_below(g.nodes[i], i as nat, g.materializers.len())
    &&& forall|j: int|
        0 <= j < g.materializers.len() ==> (#[trigger] g.materializers[j]).runtime
            < g.runtimes.len()
}

/// The engine's answer to an allocation of `node`, and the graph after it.
pub open spec fn alloc_node(g: Graph, node: Node) -> (Graph, Result<TypeId, Error>) {
    if !refs_below(node, g.nodes.len(), g.materializers.len()) {
        (g, Err(Error::InvalidReference))
    } else if g.nodes.len() >= g.limit {
        (g, Err(Error::Engine))
    } else {
        (
            Graph {
                nodes: g.nodes.push(node),
                runtimes: g.runtimes,
                materializers: g.materializers,
                limit: g.limit,
            },
            Ok(g.nodes.len() as TypeId),
        )
    }
}

/// The engine's answer to the registration of a runtime.
pub open spec fn alloc_runtime(g: Graph, data: HttpRuntimeData) -> (Graph, Result<RuntimeId, Error>) {
    if g.runtimes.len() >= g.limit {
        (g, Err(Error::Engine))
    } else {
        (
            Graph {
                nodes: g.nodes,
                runtimes: g.runtimes.push(data),
                materializers: g.materializers,
                limit: g.limit,
            },
            Ok(g.runtimes.len() as RuntimeId),
        )
    }
}

/// The engine's answer to the registration of a materializer.
pub open spec fn alloc_materializer(g: Graph, mat: HttpMaterializer) -> (Graph, Result<
    MaterializerId,
    Error,
>) {
    if mat.runtime >= g.runtimes.len() {
        (g, Err(Error::InvalidReference))
    } else if g.materializers.len() >= g.limit {
        (g, Err(Error::Engine))
    } else {
        (
            Graph {
                nodes: g.nodes,
                runtimes: g.runtimes,
                materializers: g.materializers.push(mat),
                limit: g.limit,
            },
            Ok(g.materializers.len() as MaterializerId),
        )
    }
}

/// One graph-construction session: append-only tables of nodes, runtimes and
/// materializers. A handle is the index of its record and is never reused.
pub struct Session {
    nodes: Vec<Node>,
    runtimes: Vec<HttpRuntimeData>,
    materializers: Vec<HttpMaterializer>,
    limit: u32,
}

impl View for Session {
    type V = Graph;

    closed spec fn view(&self) -> Graph {
        Graph {
            nodes: self.nodes@,
            runtimes: self.runtimes@,
            materializers: self.materializers@,
            limit: self.limit as nat,
        }
    }
}

impl TypeBase {
    /// No name, no identity flag, no configuration.
    pub fn new() -> (r: TypeBase)
        ensures
            r.name is None,
            !r.as_id,
            r.runtime_config@.len() == 0,
    {
        TypeBase { name: None, as_id: false, runtime_config: Vec::new() }
    }
}

impl Session {
    /// An empty session whose tables may each hold up to `u32::MAX` records.
    pub fn new() -> (r: Session)
        ensures
            r@.nodes.len() == 0,
            r@.runtimes.len() == 0,
            r@.materializers.len() == 0,
            r@.limit == u32::MAX,
            graph_wf(r@),
    {
        Session::with_limit(u32::MAX)
    }

    /// An empty session whose tables may each hold up to `limit` records.
    pub fn with_limit(limit: u32) -> (r: Session)
        ensures
            r@.nodes.len() == 0,
            r@.runtimes.len() == 0,
            r@.materializers.len() == 0,
            r@.limit == limit,
            graph_wf(r@),
    {
        Session { nodes: Vec::new(), runtimes: Vec::new(), materializers: Vec::new(), limit }
    }

    /// Number of nodes allocated so far.
    pub fn len(&self) -> (r: usize)
        ensures
            r == self@.nodes.len(),
    {
        self.nodes.len()
    }

    /// The record of the node `id`, if this session allocated it.
    pub fn node(&self, id: TypeId) -> (r: Option<&Node>)
        ensures
            r == (if id < self@.nodes.len() {
                Some(&self@.nodes[id as int])
            } else {
                None
            }),
    {
        if (id as usize) < self.nodes.len() {
            Some(&self.nodes[id as usize])
        } else {
            None
        }
    }

    /// The runtime registered under `id`, if any.
    pub fn runtime(&self, id: RuntimeId) -> (r: Option<&HttpRuntimeData>)
        ensures
            r == (if id < self@.runtimes.len() {
                Some(&self@.runtimes[id as int])
            } else {
                None
            }),
    {
        if (id as usize) < self.runtimes.len() {
            Some(&self.runtimes[id as usize])
        } else {
            None
        }
    }

    /// The materializer registered under `id`, if any.
    pub fn materializer(&self, id: MaterializerId) -> (r: Option<&HttpMaterializer>)
        ensures
            r == (if id < self@.materializers.len() {
                Some(&self@.materializers[id as int])
            } else {
                None
            }),
    {
        if (id as usize) < self.materializers.len() {
            Some(&self.materializers[id as usize])
        } else {
            None
        }
    }

    fn all_below(ids: &Vec<TypeId>, n: usize) -> (r: bool)
        ensures
            r == (forall|i: int| 0 <= i < ids@.len() ==> ids@[i] < n),
    {
        let mut k: usize = 0;
        while k < ids.len()
            invariant
                k <= ids@.len(),
                forall|i: int| 0 <= i < k ==> ids@[i] < n,
            decreases ids@.len() - k,
        {
            if ids[k] as usize >= n {
                return false;
            }
            k = k + 1;
        }
        true
    }

    fn props_below(props: &Vec<(String, TypeId)>, n: usize) -> (r: bool)
        ensures
            r == (forall|i: int| 0 <= i < props@.len() ==> props@[i].1 < n),
    {
        let mut k: usize = 0;
        while k < props.len()
            invariant
                k <= props@.len(),
                forall|i: int| 0 <= i < k ==> props@[i].1 < n,
            decreases props@.len() - k,
        {
            if props[k].1 as usize >= n {
                return false;
            }
            k = k + 1;
        }
        true
    }

    /// Whether every reference that `node` holds belongs to this session.
    pub fn refs_valid(&self, node: &Node) -> (r: bool)
        ensures
            r == refs_below(*node, self@.nodes.len(), self@.materializers.len()),
    {
        let n = self.nodes.len();
        let m = self.materializers.len();
        match node {
            Node::Optional(d, _) => (d.of as usize) < n,
            Node::List(d, _) => (d.of as usize) < n,
            Node::Union(v, _) => Self::all_below(v, n),
            Node::Either(v, _) => Self::all_below(v, n),
            Node::Struct(d, _) => Self::props_below(&d.props, n),
            Node::Func(f) => {
                let t_ok = match &f.parameter_transform {
                    Some(t) => (t.resolver_input as usize) < n,
                    None => true,
                };
                (f.inp as usize) < n && (f.out as usize) < n && (f.mat as usize) < m && t_ok
            },
            Node::Renamed(of, _) => (*of as usize) < n,
            Node::WithPolicy(of, _) => (*of as usize) < n,
            Node::WithInjection(of, _) => (*of as usize) < n,
            _ => true,
        }
    }

    /// Allocates one node: the single engine call behind every finalization
    /// and every transform.
    pub fn allocate(&mut self, node: Node) -> (r: Result<TypeId, Error>)
        ensures
            (final(self)@, r) == alloc_node(old(self)@, node),
    {
        if !self.refs_valid(&node) {
            return Err(Error::InvalidReference);
        }
        if self.nodes.len() >= self.limit as usize {
            return Err(Error::Engine);
        }
        let id = self.nodes.len() as TypeId;
        self.nodes.push(node);
        Ok(id)
    }

    /// Registers an external runtime.
    pub fn register_runtime(&mut self, data: HttpRuntimeData) -> (r: Result<RuntimeId, Error>)
        ensures
            (final(self)@, r) == alloc_runtime(old(self)@, data),
    {
        if self.runtimes.len() >= self.limit as usize {
            return Err(Error::Engine);
        }
        let id = self.runtimes.len() as RuntimeId;
        self.runtimes.push(data);
        Ok(id)
    }

    /// Registers a materializer bound to a runtime of this session.
    pub fn register_materializer(&mut self, mat: HttpMaterializer) -> (r: Result<
        MaterializerId,
        Error,
    >)
        ensures
            (final(self)@, r) == alloc_materializer(old(self)@, mat),
    {
        if mat.runtime as usize >= self.runtimes.len() {
            return Err(Error::InvalidReference);
        }
        if self.materializers.len() >= self.limit as usize {
            return Err(Error::Engine);
        }
        let id = self.materializers.len() as MaterializerId;
        self.materializers.push(mat);
        Ok(id)
    }
}

} // verus!

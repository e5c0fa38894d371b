//! Handles, the transforms that wrap them, and finalization of anything buildable.

use vstd::prelude::*;
use vstd::string::StringExecFns;

use crate::base::base_empty;
use crate::composite::{optional, EitherBuilder, ListBuilder, OptionalBuilder, StructBuilder, UnionBuilder};
use crate::injection::{
    injection_text, json_string, json_string_of, serialize_injection, value_text,
    InjectionSource,
};
use crate::scalar::{BooleanBuilder, FloatBuilder, IntegerBuilder, StringBuilder};
use crate::session::{
    alloc_node, Error, FuncData, Graph, MalformedKind, MaterializerId, Node, OptionalData,
    ParameterTransform, PolicyId, Session, TypeId,
};

verus! {

/// A handle to a node allocated in a session.
#[derive(Debug, Clone, Copy)]
pub struct TypeDef {
    id: TypeId,
}

impl View for TypeDef {
    type V = TypeId;

    closed spec fn view(&self) -> TypeId {
        self.id
    }
}

/// The handle's identifier, or the error.
pub open spec fn handle_ids(r: Result<TypeDef, Error>) -> Result<TypeId, Error> {
    match r {
        Ok(t) => Ok(t@),
        Err(e) => Err(e),
    }
}

/// The engine allocated `node` in `g0`, giving `g1` and `r`.
pub open spec fn allocated(g0: Graph, g1: Graph, r: Result<TypeId, Error>, node: Node) -> bool {
    (g1, r) == alloc_node(g0, node)
}

/// `g1` and `r` answer a rename of `of` to `name`.
pub open spec fn renamed_step(
    g0: Graph,
    g1: Graph,
    r: Result<TypeId, Error>,
    of: TypeId,
    name: Seq<char>,
) -> bool {
    exists|s: String| s@ == name && #[trigger] allocated(g0, g1, r, Node::Renamed(of, s))
}

/// `g1` and `r` answer the attachment of the policy chain `chain` to `of`.
pub open spec fn policy_step(
    g0: Graph,
    g1: Graph,
    r: Result<TypeId, Error>,
    of: TypeId,
    chain: Seq<PolicyId>,
) -> bool {
    exists|v: Vec<PolicyId>| v@ == chain && #[trigger] allocated(g0, g1, r, Node::WithPolicy(of, v))
}

/// `g1` and `r` answer the attachment of the serialized injection `text` to `of`.
pub open spec fn injected_step(
    g0: Graph,
    g1: Graph,
    r: Result<TypeId, Error>,
    of: TypeId,
    text: Seq<char>,
) -> bool {
    exists|s: String| s@ == text && #[trigger] allocated(g0, g1, r, Node::WithInjection(of, s))
}

/// `g1` and `r` answer the attachment of a static injection whose payload is
/// the JSON text of some value.
pub open spec fn static_injected_step(
    g0: Graph,
    g1: Graph,
    r: Result<TypeId, Error>,
    of: TypeId,
) -> bool {
    exists|p: Seq<char>| #[trigger]
        injected_step(g0, g1, r, of, injection_text(InjectionSource::Static, Some(p)))
}

impl TypeDef {
    /// The handle of the node `id`; no engine call is made.
    pub fn from_id(id: TypeId) -> (r: TypeDef)
        ensures
            r@ == id,
    {
        TypeDef { id }
    }

    pub fn id(&self) -> (r: TypeId)
        ensures
            r == self@,
    {
        self.id
    }

    /// A new handle: this node with its display name replaced by `name`.
    pub fn rename(self, session: &mut Session, name: &str) -> (r: Result<TypeDef, Error>)
        ensures
            renamed_step(old(session)@, final(session)@, handle_ids(r), self@, name@),
    {
        let s = String::from_str(name);
        let node = Node::Renamed(self.id, s);
        let r = session.allocate(node);
        assert(allocated(old(session)@, session@, r, Node::Renamed(self@, s)));
        match r {
            Ok(id) => Ok(TypeDef { id }),
            Err(e) => Err(e),
        }
    }

    /// A new handle: this node guarded by the ordered policy chain `chain`.
    pub fn with_policy(self, session: &mut Session, chain: &Vec<PolicyId>) -> (r: Result<
        TypeDef,
        Error,
    >)
        ensures
            policy_step(old(session)@, final(session)@, handle_ids(r), self@, chain@),
    {
        let v = chain.clone();
        let node = Node::WithPolicy(self.id, v);
        let r = session.allocate(node);
        assert(allocated(old(session)@, session@, r, Node::WithPolicy(self@, v)));
        match r {
            Ok(id) => Ok(TypeDef { id }),
            Err(e) => Err(e),
        }
    }

    /// A new handle: this node with its value supplied by `injection`, a
    /// serialized injection.
    fn with_injection(self, session: &mut Session, injection: String) -> (r: Result<
        TypeDef,
        Error,
    >)
        ensures
            injected_step(old(session)@, final(session)@, handle_ids(r), self@, injection@),
    {
        let ghost text = injection;
        let node = Node::WithInjection(self.id, injection);
        let r = session.allocate(node);
        assert(allocated(old(session)@, session@, r, Node::WithInjection(self@, text)));
        match r {
            Ok(id) => Ok(TypeDef { id }),
            Err(e) => Err(e),
        }
    }

    /// A new handle whose value is the literal `value`.
    pub fn set(self, session: &mut Session, value: &serde_json::Value) -> (r: Result<
        TypeDef,
        Error,
    >)
        ensures
            static_injected_step(old(session)@, final(session)@, handle_ids(r), self@),
    {
        let payload = value_text(value);
        let text = serialize_injection(InjectionSource::Static, Some(payload.as_str()));
        let r = self.with_injection(session, text);
        assert(injected_step(
            old(session)@,
            session@,
            handle_ids(r),
            self@,
            injection_text(InjectionSource::Static, Some(payload@)),
        ));
        r
    }

    /// A new handle whose value is the expression `value`, evaluated against
    /// the caller's input.
    pub fn inject(self, session: &mut Session, value: &str) -> (r: Result<TypeDef, Error>)
        ensures
            injected_step(
                old(session)@,
                final(session)@,
                handle_ids(r),
                self@,
                injection_text(InjectionSource::Dynamic, Some(json_string_of(value@))),
            ),
    {
        let payload = json_string(value);
        let text = serialize_injection(InjectionSource::Dynamic, Some(payload.as_str()));
        self.with_injection(session, text)
    }

    /// A new handle whose value is taken from the request context entry `value`.
    pub fn from_context(self, session: &mut Session, value: &str) -> (r: Result<TypeDef, Error>)
        ensures
            injected_step(
                old(session)@,
                final(session)@,
                handle_ids(r),
                self@,
                injection_text(InjectionSource::Context, Some(json_string_of(value@))),
            ),
    {
        let payload = json_string(value);
        let text = serialize_injection(InjectionSource::Context, Some(payload.as_str()));
        self.with_injection(session, text)
    }

    /// A new handle whose value is taken from the secret `value`.
    pub fn from_secret(self, session: &mut Session, value: &str) -> (r: Result<TypeDef, Error>)
        ensures
            injected_step(
                old(session)@,
                final(session)@,
                handle_ids(r),
                self@,
                injection_text(InjectionSource::Secret, Some(json_string_of(value@))),
            ),
    {
        let payload = json_string(value);
        let text = serialize_injection(InjectionSource::Secret, Some(payload.as_str()));
        self.with_injection(session, text)
    }

    /// A new handle whose value is generated at call time.
    pub fn from_random(self, session: &mut Session) -> (r: Result<TypeDef, Error>)
        ensures
            injected_step(
                old(session)@,
                final(session)@,
                handle_ids(r),
                self@,
                injection_text(InjectionSource::Random, None),
            ),
    {
        let text = serialize_injection(InjectionSource::Random, None);
        self.with_injection(session, text)
    }
}


pub(crate) fn to_handle(r: Result<TypeId, Error>) -> (o: Result<TypeDef, Error>)
    ensures
        handle_ids(o) == r,
{
    match r {
        Ok(id) => Ok(TypeDef { id }),
        Err(e) => Err(e),
    }
}

/// Pending specification of a function node.
#[derive(Debug, Clone)]
pub struct FuncBuilder {
    pub data: FuncData,
}

impl FuncBuilder {
    /// Whether calls are rate limited.
    pub fn rate_call(self, value: bool) -> (r: Self)
        ensures
            r.data == (FuncData { rate_calls: value, ..self.data }),
    {
        FuncBuilder { data: FuncData { rate_calls: value, ..self.data } }
    }

    /// Weight of one call against the rate limit.
    pub fn rate_weight(self, value: u32) -> (r: Self)
        ensures
            r.data == (FuncData { rate_weight: Some(value), ..self.data }),
    {
        FuncBuilder { data: FuncData { rate_weight: Some(value), ..self.data } }
    }

    /// Reshapes the arguments before they reach the materializer.
    pub fn transform(self, transform: ParameterTransform) -> (r: Self)
        ensures
            r.data == (FuncData { parameter_transform: Some(transform), ..self.data }),
    {
        FuncBuilder { data: FuncData { parameter_transform: Some(transform), ..self.data } }
    }

    /// Finalizes: one allocation of the function node.
    pub fn build(self, session: &mut Session) -> (r: Result<TypeDef, Error>)
        ensures
            allocated(old(session)@, final(session)@, handle_ids(r), Node::Func(self.data)),
    {
        to_handle(session.allocate(Node::Func(self.data)))
    }
}

/// The function data that `func` starts from.
pub open spec fn plain_func(inp: TypeId, out: TypeId, mat: MaterializerId) -> FuncData {
    FuncData { inp, out, mat, parameter_transform: None, rate_calls: false, rate_weight: None }
}

/// Resolution of the input child, then of the output child.
pub open spec fn resolve_pair(g: Graph, inp: Buildable, out: Buildable) -> (Graph, Result<
    (TypeId, TypeId),
    Error,
>) {
    let (g1, ri) = resolve_child(g, inp);
    match ri {
        Err(e) => (g1, Err(e)),
        Ok(i) => {
            let (g2, ro) = resolve_child(g1, out);
            match ro {
                Err(e) => (g2, Err(e)),
                Ok(o) => (g2, Ok((i, o))),
            }
        },
    }
}

/// A function from `inp` to `out`, executed by the materializer `mat`; both
/// children must already be finalized.
pub fn func(session: &mut Session, inp: Buildable, out: Buildable, mat: MaterializerId) -> (r:
    Result<FuncBuilder, Error>)
    ensures
        final(session)@ == resolve_pair(old(session)@, inp, out).0,
        match (r, resolve_pair(old(session)@, inp, out).1) {
            (Ok(f), Ok((i, o))) => f.data == plain_func(i, o, mat),
            (Err(e), Err(f)) => e == f,
            _ => false,
        },
{
    let i = child_id(session, inp)?;
    let o = child_id(session, out)?;
    Ok(FuncBuilder {
        data: FuncData {
            inp: i,
            out: o,
            mat,
            parameter_transform: None,
            rate_calls: false,
            rate_weight: None,
        },
    })
}

/// `func`, finalized at once.
pub fn funcb(session: &mut Session, inp: Buildable, out: Buildable, mat: MaterializerId) -> (r:
    Result<TypeDef, Error>)
    ensures
        match resolve_pair(old(session)@, inp, out) {
            (g1, Ok((i, o))) => allocated(
                g1,
                final(session)@,
                handle_ids(r),
                Node::Func(plain_func(i, o, mat)),
            ),
            (g1, Err(e)) => final(session)@ == g1 && r == Err::<TypeDef, Error>(e),
        },
{
    let f = func(session, inp, out, mat)?;
    f.build(session)
}

/// Pending specification of a named reference, resolved lazily by the engine.
#[derive(Debug, Clone)]
pub struct RefBuilder {
    pub name: String,
    pub attributes: Option<Vec<(String, String)>>,
}

impl RefBuilder {
    /// Appends the attribute pair (`attr`, `value`).
    pub fn set(self, attr: &str, value: &str) -> (r: Self)
        ensures
            r.name == self.name,
            r.attributes matches Some(a) && ({
                let old_attrs = match self.attributes {
                    Some(v) => v@,
                    None => Seq::empty(),
                };
                &&& a@.len() == old_attrs.len() + 1
                &&& a@.subrange(0, old_attrs.len() as int) == old_attrs
                &&& a@.last().0@ == attr@
                &&& a@.last().1@ == value@
            }),
    {
        let mut attrs = match self.attributes {
            Some(v) => v,
            None => Vec::new(),
        };
        let ghost before = attrs@;
        attrs.push((String::from_str(attr), String::from_str(value)));
        assert(attrs@.subrange(0, before.len() as int) =~= before);
        RefBuilder { name: self.name, attributes: Some(attrs) }
    }

    /// Finalizes: one allocation of the reference node.
    pub fn build(self, session: &mut Session) -> (r: Result<TypeDef, Error>)
        ensures
            allocated(
                old(session)@,
                final(session)@,
                handle_ids(r),
                Node::Reference(self.name, self.attributes),
            ),
    {
        to_handle(session.allocate(Node::Reference(self.name, self.attributes)))
    }
}

/// A reference to the node named `name`, without attributes.
pub fn reference(name: &str) -> (r: RefBuilder)
    ensures
        r.name@ == name@,
        r.attributes is None,
{
    RefBuilder { name: String::from_str(name), attributes: None }
}

/// A not-yet-finalized specification of any kind.
#[derive(Debug, Clone)]
pub enum Pending {
    Boolean(BooleanBuilder),
    Integer(IntegerBuilder),
    Float(FloatBuilder),
    Text(StringBuilder),
    Optional(OptionalBuilder),
    List(ListBuilder),
    Union(UnionBuilder),
    Either(EitherBuilder),
    Struct(StructBuilder),
    Func(FuncBuilder),
    Reference(RefBuilder),
}

/// The record that finalizing `p` allocates.
pub open spec fn pending_node(p: Pending) -> Node {
    match p {
        Pending::Boolean(b) => Node::Boolean(b.base),
        Pending::Integer(b) => Node::Integer(b.data, b.base),
        Pending::Float(b) => Node::Float(b.data, b.base),
        Pending::Text(b) => Node::Text(b.data, b.base),
        Pending::Optional(b) => Node::Optional(b.data, b.base),
        Pending::List(b) => Node::List(b.data, b.base),
        Pending::Union(b) => Node::Union(b.variants, b.base),
        Pending::Either(b) => Node::Either(b.variants, b.base),
        Pending::Struct(b) => Node::Struct(b.data, b.base),
        Pending::Func(b) => Node::Func(b.data),
        Pending::Reference(b) => Node::Reference(b.name, b.attributes),
    }
}

/// What finalizing `p` in `g` gives.
pub open spec fn finalize_pending(g: Graph, p: Pending) -> (Graph, Result<TypeId, Error>) {
    match p {
        Pending::Union(b) if b.variants@.len() == 0 => (
            g,
            Err(Error::Malformed(MalformedKind::EmptyUnion)),
        ),
        _ => alloc_node(g, pending_node(p)),
    }
}

impl Pending {
    /// Finalizes: exactly one allocation, or a local rejection.
    pub fn build(self, session: &mut Session) -> (r: Result<TypeDef, Error>)
        ensures
            (final(session)@, handle_ids(r)) == finalize_pending(old(session)@, self),
    {
        match self {
            Pending::Boolean(b) => b.build(session),
            Pending::Integer(b) => b.build(session),
            Pending::Float(b) => b.build(session),
            Pending::Text(b) => b.build(session),
            Pending::Optional(b) => b.build(session),
            Pending::List(b) => b.build(session),
            Pending::Union(b) => b.build(session),
            Pending::Either(b) => b.build(session),
            Pending::Struct(b) => b.build(session),
            Pending::Func(b) => b.build(session),
            Pending::Reference(b) => b.build(session),
        }
    }
}

/// Anything that finalizes to a handle.
#[derive(Debug, Clone)]
pub enum Buildable {
    /// An allocated node; finalizes to itself.
    Handle(TypeDef),
    /// A lazy reference to the node of that name.
    Named(String),
    /// A specification not yet allocated.
    Pending(Pending),
    /// The failure of an earlier step, passed on.
    Failed(Error),
}

/// The child handle that `b` stands for, as a composite resolves it: only
/// values that need no further allocation of their own are accepted, and a
/// name becomes a reference node.
pub open spec fn resolve_child(g: Graph, b: Buildable) -> (Graph, Result<TypeId, Error>) {
    match b {
        Buildable::Handle(h) => (g, Ok(h@)),
        Buildable::Named(n) => alloc_node(g, Node::Reference(n, None)),
        Buildable::Pending(_) => (g, Err(Error::Malformed(MalformedKind::UnfinalizedChild))),
        Buildable::Failed(e) => (g, Err(e)),
    }
}

/// What finalizing `b` gives.
pub open spec fn finalize(g: Graph, b: Buildable) -> (Graph, Result<TypeId, Error>) {
    match b {
        Buildable::Pending(p) => finalize_pending(g, p),
        _ => resolve_child(g, b),
    }
}

/// The outcome of an earlier step, as something to finalize.
pub open spec fn outcome_buildable(r: Result<TypeDef, Error>) -> Buildable {
    match r {
        Ok(h) => Buildable::Handle(h),
        Err(e) => Buildable::Failed(e),
    }
}

impl Buildable {
    pub fn from_outcome(r: Result<TypeDef, Error>) -> (b: Buildable)
        ensures
            b == outcome_buildable(r),
    {
        match r {
            Ok(h) => Buildable::Handle(h),
            Err(e) => Buildable::Failed(e),
        }
    }

    /// A lazy reference to the node named `name`.
    pub fn named(name: &str) -> (b: Buildable)
        ensures
            b matches Buildable::Named(n) && n@ == name@,
    {
        Buildable::Named(String::from_str(name))
    }

    /// Finalizes: a handle is returned as it is, a failure is passed on, a name
    /// allocates a reference and a pending specification allocates its node.
    pub fn build(self, session: &mut Session) -> (r: Result<TypeDef, Error>)
        ensures
            (final(session)@, handle_ids(r)) == finalize(old(session)@, self),
    {
        match self {
            Buildable::Pending(p) => p.build(session),
            _ => to_handle(child_id(session, self)),
        }
    }

    /// The identifier of the finalized node.
    pub fn into_id(self, session: &mut Session) -> (r: Result<TypeId, Error>)
        ensures
            (final(session)@, r) == finalize(old(session)@, self),
    {
        match self.build(session) {
            Ok(t) => Ok(t.id),
            Err(e) => Err(e),
        }
    }
}

/// Resolves one child of a composite.
pub fn child_id(session: &mut Session, b: Buildable) -> (r: Result<TypeId, Error>)
    ensures
        (final(session)@, r) == resolve_child(old(session)@, b),
{
    match b {
        Buildable::Handle(h) => Ok(h.id),
        Buildable::Named(n) => session.allocate(Node::Reference(n, None)),
        Buildable::Pending(_) => Err(Error::Malformed(MalformedKind::UnfinalizedChild)),
        Buildable::Failed(e) => Err(e),
    }
}

/// The kind of a node, as a short human-readable word.
pub open spec fn node_kind(n: Node) -> Seq<char> {
    match n {
        Node::Boolean(_) => "boolean"@,
        Node::Integer(..) => "integer"@,
        Node::Float(..) => "float"@,
        Node::Text(..) => "string"@,
        Node::Optional(..) => "optional"@,
        Node::List(..) => "list"@,
        Node::Union(..) => "union"@,
        Node::Either(..) => "either"@,
        Node::Struct(..) => "struct"@,
        Node::Func(_) => "function"@,
        Node::Reference(..) => "reference"@,
        Node::Renamed(..) => "renamed"@,
        Node::WithPolicy(..) => "policy"@,
        Node::WithInjection(..) => "injection"@,
    }
}

fn kind_str(n: &Node) -> (r: &'static str)
    ensures
        r@ == node_kind(*n),
{
    match n {
        Node::Boolean(_) => "boolean",
        Node::Integer(..) => "integer",
        Node::Float(..) => "float",
        Node::Text(..) => "string",
        Node::Optional(..) => "optional",
        Node::List(..) => "list",
        Node::Union(..) => "union",
        Node::Either(..) => "either",
        Node::Struct(..) => "struct",
        Node::Func(_) => "function",
        Node::Reference(..) => "reference",
        Node::Renamed(..) => "renamed",
        Node::WithPolicy(..) => "policy",
        Node::WithInjection(..) => "injection",
    }
}

/// The display name a node carries itself, if any.
pub open spec fn node_name(n: Node) -> Option<Seq<char>> {
    match n {
        Node::Boolean(b) => opt_seq(b.name),
        Node::Integer(_, b) => opt_seq(b.name),
        Node::Float(_, b) => opt_seq(b.name),
        Node::Text(_, b) => opt_seq(b.name),
        Node::Optional(_, b) => opt_seq(b.name),
        Node::List(_, b) => opt_seq(b.name),
        Node::Union(_, b) => opt_seq(b.name),
        Node::Either(_, b) => opt_seq(b.name),
        Node::Struct(_, b) => opt_seq(b.name),
        Node::Reference(s, _) => Some(s@),
        Node::Renamed(_, s) => Some(s@),
        _ => None,
    }
}

pub open spec fn opt_seq(o: Option<String>) -> Option<Seq<char>> {
    match o {
        Some(s) => Some(s@),
        None => None,
    }
}

fn name_str(n: &Node) -> (r: Option<&str>)
    ensures
        match r {
            Some(s) => node_name(*n) == Some(s@),
            None => node_name(*n) is None,
        },
{
    let base = match n {
        Node::Boolean(b) => b,
        Node::Integer(_, b) => b,
        Node::Float(_, b) => b,
        Node::Text(_, b) => b,
        Node::Optional(_, b) => b,
        Node::List(_, b) => b,
        Node::Union(_, b) => b,
        Node::Either(_, b) => b,
        Node::Struct(_, b) => b,
        Node::Reference(s, _) => {
            return Some(s.as_str());
        },
        Node::Renamed(_, s) => {
            return Some(s.as_str());
        },
        _ => {
            return None;
        },
    };
    match &base.name {
        Some(s) => Some(s.as_str()),
        None => None,
    }
}

/// Text describing a node: its kind, then its own name in quotes if it has one.
pub open spec fn describe(n: Node) -> Seq<char> {
    match node_name(n) {
        Some(s) => node_kind(n) + " '"@ + s + "'"@,
        None => node_kind(n),
    }
}

impl TypeDef {
    /// A human-readable description of the node, for debugging.
    pub fn repr(&self, session: &Session) -> (r: Result<String, Error>)
        ensures
            match r {
                Ok(text) => self@ < session@.nodes.len() && text@ == describe(
                    session@.nodes[self@ as int],
                ),
                Err(e) => self@ >= session@.nodes.len() && e == Error::InvalidReference,
            },
    {
        match session.node(self.id) {
            None => Err(Error::InvalidReference),
            Some(n) => {
                let mut text = String::from_str(kind_str(n));
                match name_str(n) {
                    Some(name) => {
                        text.append(" '");
                        text.append(name);
                        text.append("'");
                    },
                    None => {},
                }
                Ok(text)
            },
        }
    }
}

/// What finalizing `b` and then applying a transform gives: `step` holds of
/// the transform when finalizing succeeds, and a failure stops the chain.
pub open spec fn then_step(
    g0: Graph,
    b: Buildable,
    g2: Graph,
    r: Result<TypeId, Error>,
    step: spec_fn(Graph, TypeId) -> bool,
) -> bool {
    match finalize(g0, b) {
        (g1, Ok(id)) => step(g1, id),
        (g1, Err(e)) => g2 == g1 && r == Err::<TypeId, Error>(e),
    }
}

impl Buildable {
    /// Finalizes, then renames.
    pub fn rename(self, session: &mut Session, name: &str) -> (r: Result<TypeDef, Error>)
        ensures
            then_step(
                old(session)@,
                self,
                final(session)@,
                handle_ids(r),
                |g1: Graph, id: TypeId| renamed_step(g1, final(session)@, handle_ids(r), id, name@),
            ),
    {
        let t = self.build(session)?;
        t.rename(session, name)
    }

    /// Finalizes, then attaches the policy chain.
    pub fn with_policy(self, session: &mut Session, chain: &Vec<PolicyId>) -> (r: Result<
        TypeDef,
        Error,
    >)
        ensures
            then_step(
                old(session)@,
                self,
                final(session)@,
                handle_ids(r),
                |g1: Graph, id: TypeId| policy_step(g1, final(session)@, handle_ids(r), id, chain@),
            ),
    {
        let t = self.build(session)?;
        t.with_policy(session, chain)
    }

    /// Finalizes, then injects the literal `value`.
    pub fn set(self, session: &mut Session, value: &serde_json::Value) -> (r: Result<
        TypeDef,
        Error,
    >)
        ensures
            then_step(
                old(session)@,
                self,
                final(session)@,
                handle_ids(r),
                |g1: Graph, id: TypeId| static_injected_step(g1, final(session)@, handle_ids(r), id),
            ),
    {
        let t = self.build(session)?;
        t.set(session, value)
    }

    /// Finalizes, then injects the expression `value`.
    pub fn inject(self, session: &mut Session, value: &str) -> (r: Result<TypeDef, Error>)
        ensures
            then_step(
                old(session)@,
                self,
                final(session)@,
                handle_ids(r),
                |g1: Graph, id: TypeId|
                    injected_step(
                        g1,
                        final(session)@,
                        handle_ids(r),
                        id,
                        injection_text(InjectionSource::Dynamic, Some(json_string_of(value@))),
                    ),
            ),
    {
        let t = self.build(session)?;
        t.inject(session, value)
    }

    /// Finalizes, then takes the value from the request context entry `value`.
    pub fn from_context(self, session: &mut Session, value: &str) -> (r: Result<TypeDef, Error>)
        ensures
            then_step(
                old(session)@,
                self,
                final(session)@,
                handle_ids(r),
                |g1: Graph, id: TypeId|
                    injected_step(
                        g1,
                        final(session)@,
                        handle_ids(r),
                        id,
                        injection_text(InjectionSource::Context, Some(json_string_of(value@))),
                    ),
            ),
    {
        let t = self.build(session)?;
        t.from_context(session, value)
    }

    /// Finalizes, then takes the value from the secret `value`.
    pub fn from_secret(self, session: &mut Session, value: &str) -> (r: Result<TypeDef, Error>)
        ensures
            then_step(
                old(session)@,
                self,
                final(session)@,
                handle_ids(r),
                |g1: Graph, id: TypeId|
                    injected_step(
                        g1,
                        final(session)@,
                        handle_ids(r),
                        id,
                        injection_text(InjectionSource::Secret, Some(json_string_of(value@))),
                    ),
            ),
    {
        let t = self.build(session)?;
        t.from_secret(session, value)
    }

    /// Finalizes, then generates the value at call time.
    pub fn from_random(self, session: &mut Session) -> (r: Result<TypeDef, Error>)
        ensures
            then_step(
                old(session)@,
                self,
                final(session)@,
                handle_ids(r),
                |g1: Graph, id: TypeId|
                    injected_step(
                        g1,
                        final(session)@,
                        handle_ids(r),
                        id,
                        injection_text(InjectionSource::Random, None),
                    ),
            ),
    {
        let t = self.build(session)?;
        t.from_random(session)
    }

    /// Finalizes, then wraps the node in an optional.
    pub fn optional(self, session: &mut Session) -> (r: Result<OptionalBuilder, Error>)
        ensures
            match finalize(old(session)@, self) {
                (g1, Ok(id)) => final(session)@ == g1 && (r matches Ok(b) && base_empty(b.base)
                    && b.data == (OptionalData { of: id, default_item: None })),
                (g1, Err(e)) => final(session)@ == g1 && r == Err::<OptionalBuilder, Error>(e),
            },
    {
        let t = self.build(session)?;
        optional(session, Buildable::Handle(t))
    }

    /// Finalizes, then wraps the node in an optional with the default `value`.
    pub fn optional_or(self, session: &mut Session, value: &serde_json::Value) -> (r: Result<
        OptionalBuilder,
        Error,
    >)
        ensures
            match finalize(old(session)@, self) {
                (g1, Ok(id)) => final(session)@ == g1 && (r matches Ok(b) && base_empty(b.base)
                    && b.data.of == id && b.data.default_item is Some),
                (g1, Err(e)) => final(session)@ == g1 && r == Err::<OptionalBuilder, Error>(e),
            },
    {
        let t = self.build(session)?;
        let o = optional(session, Buildable::Handle(t))?;
        Ok(o.default_item(value))
    }
}

} // verus!

//! Optional, list, union, either and struct specifications, over children that
//! are already finalized.

use vstd::prelude::*;
use vstd::string::StringExecFns;

use crate::base::{base_configured, base_empty, base_marked, base_named};
use crate::injection::value_text;
use crate::session::{
    Error, Graph, ListData, MalformedKind, Node, OptionalData, Session, StructData, TypeBase,
    TypeId,
};
use crate::t::{allocated, child_id, handle_ids, resolve_child, to_handle, Buildable, TypeDef};

verus! {

/// Pending specification of an optional node.
#[derive(Debug, Clone)]
pub struct OptionalBuilder {
    pub data: OptionalData,
    pub base: TypeBase,
}

impl OptionalBuilder {
    /// Sets the display name.
    pub fn named(self, name: &str) -> (r: Self)
        ensures
            r.data == self.data,
            base_named(self.base, r.base, name@),
    {
        OptionalBuilder { data: self.data, base: self.base.named(name) }
    }

    /// Marks the node as usable as an entity identity.
    pub fn id(self) -> (r: Self)
        ensures
            r.data == self.data,
            base_marked(self.base, r.base),
    {
        OptionalBuilder { data: self.data, base: self.base.marked_id() }
    }

    /// Appends a runtime configuration pair.
    pub fn config(self, key: &str, value: &serde_json::Value) -> (r: Self)
        ensures
            r.data == self.data,
            base_configured(self.base, r.base, key@),
    {
        OptionalBuilder { data: self.data, base: self.base.config(key, value) }
    }
}

/// Pending specification of a list node.
#[derive(Debug, Clone)]
pub struct ListBuilder {
    pub data: ListData,
    pub base: TypeBase,
}

impl ListBuilder {
    /// Sets the display name.
    pub fn named(self, name: &str) -> (r: Self)
        ensures
            r.data == self.data,
            base_named(self.base, r.base, name@),
    {
        ListBuilder { data: self.data, base: self.base.named(name) }
    }

    /// Marks the node as usable as an entity identity.
    pub fn id(self) -> (r: Self)
        ensures
            r.data == self.data,
            base_marked(self.base, r.base),
    {
        ListBuilder { data: self.data, base: self.base.marked_id() }
    }

    /// Appends a runtime configuration pair.
    pub fn config(self, key: &str, value: &serde_json::Value) -> (r: Self)
        ensures
            r.data == self.data,
            base_configured(self.base, r.base, key@),
    {
        ListBuilder { data: self.data, base: self.base.config(key, value) }
    }
}

/// Pending specification of a union node (overlapping variants tolerated).
#[derive(Debug, Clone)]
pub struct UnionBuilder {
    pub variants: Vec<TypeId>,
    pub base: TypeBase,
}

impl UnionBuilder {
    /// Sets the display name.
    pub fn named(self, name: &str) -> (r: Self)
        ensures
            r.variants == self.variants,
            base_named(self.base, r.base, name@),
    {
        UnionBuilder { variants: self.variants, base: self.base.named(name) }
    }

    /// Marks the node as usable as an entity identity.
    pub fn id(self) -> (r: Self)
        ensures
            r.variants == self.variants,
            base_marked(self.base, r.base),
    {
        UnionBuilder { variants: self.variants, base: self.base.marked_id() }
    }

    /// Appends a runtime configuration pair.
    pub fn config(self, key: &str, value: &serde_json::Value) -> (r: Self)
        ensures
            r.variants == self.variants,
            base_configured(self.base, r.base, key@),
    {
        UnionBuilder { variants: self.variants, base: self.base.config(key, value) }
    }
}

/// Pending specification of an either node (exactly one variant must match).
#[derive(Debug, Clone)]
pub struct EitherBuilder {
    pub variants: Vec<TypeId>,
    pub base: TypeBase,
}

impl EitherBuilder {
    /// Sets the display name.
    pub fn named(self, name: &str) -> (r: Self)
        ensures
            r.variants == self.variants,
            base_named(self.base, r.base, name@),
    {
        EitherBuilder { variants: self.variants, base: self.base.named(name) }
    }

    /// Marks the node as usable as an entity identity.
    pub fn id(self) -> (r: Self)
        ensures
            r.variants == self.variants,
            base_marked(self.base, r.base),
    {
        EitherBuilder { variants: self.variants, base: self.base.marked_id() }
    }

    /// Appends a runtime configuration pair.
    pub fn config(self, key: &str, value: &serde_json::Value) -> (r: Self)
        ensures
            r.variants == self.variants,
            base_configured(self.base, r.base, key@),
    {
        EitherBuilder { variants: self.variants, base: self.base.config(key, value) }
    }
}

/// Pending specification of a struct node.
#[derive(Debug, Clone)]
pub struct StructBuilder {
    pub data: StructData,
    pub base: TypeBase,
}

impl StructBuilder {
    /// Sets the display name.
    pub fn named(self, name: &str) -> (r: Self)
        ensures
            r.data == self.data,
            base_named(self.base, r.base, name@),
    {
        StructBuilder { data: self.data, base: self.base.named(name) }
    }

    /// Marks the node as usable as an entity identity.
    pub fn id(self) -> (r: Self)
        ensures
            r.data == self.data,
            base_marked(self.base, r.base),
    {
        StructBuilder { data: self.data, base: self.base.marked_id() }
    }

    /// Appends a runtime configuration pair.
    pub fn config(self, key: &str, value: &serde_json::Value) -> (r: Self)
        ensures
            r.data == self.data,
            base_configured(self.base, r.base, key@),
    {
        StructBuilder { data: self.data, base: self.base.config(key, value) }
    }
}


impl OptionalBuilder {
    /// Finalizes: one allocation carrying the constraints and the base metadata.
    pub fn build(self, session: &mut Session) -> (r: Result<TypeDef, Error>)
        ensures
            allocated(old(session)@, final(session)@, handle_ids(r), Node::Optional(self.data, self.base)),
    {
        to_handle(session.allocate(Node::Optional(self.data, self.base)))
    }
}

impl ListBuilder {
    /// Finalizes: one allocation carrying the constraints and the base metadata.
    pub fn build(self, session: &mut Session) -> (r: Result<TypeDef, Error>)
        ensures
            allocated(old(session)@, final(session)@, handle_ids(r), Node::List(self.data, self.base)),
    {
        to_handle(session.allocate(Node::List(self.data, self.base)))
    }
}

impl EitherBuilder {
    /// Finalizes: one allocation carrying the constraints and the base metadata.
    pub fn build(self, session: &mut Session) -> (r: Result<TypeDef, Error>)
        ensures
            allocated(old(session)@, final(session)@, handle_ids(r), Node::Either(self.variants, self.base)),
    {
        to_handle(session.allocate(Node::Either(self.variants, self.base)))
    }
}

impl StructBuilder {
    /// Finalizes: one allocation carrying the constraints and the base metadata.
    pub fn build(self, session: &mut Session) -> (r: Result<TypeDef, Error>)
        ensures
            allocated(old(session)@, final(session)@, handle_ids(r), Node::Struct(self.data, self.base)),
    {
        to_handle(session.allocate(Node::Struct(self.data, self.base)))
    }
}


impl UnionBuilder {
    /// Finalizes; a union without variants is rejected before any allocation.
    pub fn build(self, session: &mut Session) -> (r: Result<TypeDef, Error>)
        ensures
            self.variants@.len() == 0 ==> final(session)@ == old(session)@ && r == Err::<
                TypeDef,
                Error,
            >(Error::Malformed(MalformedKind::EmptyUnion)),
            self.variants@.len() > 0 ==> allocated(
                old(session)@,
                final(session)@,
                handle_ids(r),
                Node::Union(self.variants, self.base),
            ),
    {
        if self.variants.len() == 0 {
            return Err(Error::Malformed(MalformedKind::EmptyUnion));
        }
        to_handle(session.allocate(Node::Union(self.variants, self.base)))
    }

    /// Appends one variant; the child must already be finalized.
    pub fn add(self, session: &mut Session, ty: Buildable) -> (r: Result<Self, Error>)
        ensures
            final(session)@ == resolve_child(old(session)@, ty).0,
            match (r, resolve_child(old(session)@, ty).1) {
                (Ok(u), Ok(id)) => u.base == self.base && u.variants@ == self.variants@.push(id),
                (Err(e), Err(f)) => e == f,
                _ => false,
            },
    {
        let id = child_id(session, ty)?;
        let mut variants = self.variants;
        variants.push(id);
        Ok(UnionBuilder { variants, base: self.base })
    }
}

impl OptionalBuilder {
    /// Sets the default value, kept as its JSON text.
    pub fn default_item(self, value: &serde_json::Value) -> (r: Self)
        ensures
            r.base == self.base,
            r.data.of == self.data.of,
            r.data.default_item is Some,
    {
        OptionalBuilder {
            data: OptionalData { of: self.data.of, default_item: Some(value_text(value)) },
            base: self.base,
        }
    }
}

impl ListBuilder {
    /// Minimum number of items.
    pub fn min(self, min: u32) -> (r: Self)
        ensures
            r.base == self.base,
            r.data == (ListData { min: Some(min), ..self.data }),
    {
        ListBuilder { data: ListData { min: Some(min), ..self.data }, base: self.base }
    }

    /// Maximum number of items.
    pub fn max(self, max: u32) -> (r: Self)
        ensures
            r.base == self.base,
            r.data == (ListData { max: Some(max), ..self.data }),
    {
        ListBuilder { data: ListData { max: Some(max), ..self.data }, base: self.base }
    }

    /// Whether the items must be distinct.
    pub fn unique(self, value: bool) -> (r: Self)
        ensures
            r.base == self.base,
            r.data == (ListData { unique_items: Some(value), ..self.data }),
    {
        ListBuilder { data: ListData { unique_items: Some(value), ..self.data }, base: self.base }
    }
}

/// `b1` has the properties of `b0` and one more, (`name`, `id`), at the end.
pub open spec fn prop_added(b0: StructBuilder, b1: StructBuilder, name: Seq<char>, id: TypeId) -> bool {
    let n = b0.data.props@.len();
    &&& b1.base == b0.base
    &&& b1.data.min == b0.data.min
    &&& b1.data.max == b0.data.max
    &&& b1.data.props@.len() == n + 1
    &&& b1.data.props@.subrange(0, n as int) == b0.data.props@
    &&& b1.data.props@[n as int].0@ == name
    &&& b1.data.props@[n as int].1 == id
}

impl StructBuilder {
    /// Appends the property `name`; the child must already be finalized. A name
    /// already present is accepted, and both entries are kept in order.
    pub fn prop(self, session: &mut Session, name: &str, ty: Buildable) -> (r: Result<
        Self,
        Error,
    >)
        ensures
            final(session)@ == resolve_child(old(session)@, ty).0,
            match (r, resolve_child(old(session)@, ty).1) {
                (Ok(b), Ok(id)) => prop_added(self, b, name@, id),
                (Err(e), Err(f)) => e == f,
                _ => false,
            },
    {
        let id = child_id(session, ty)?;
        let mut props = self.data.props;
        let ghost before = props@;
        props.push((String::from_str(name), id));
        assert(props@.subrange(0, before.len() as int) =~= before);
        Ok(StructBuilder {
            data: StructData { props, min: self.data.min, max: self.data.max },
            base: self.base,
        })
    }

    /// Minimum number of properties.
    pub fn min(self, min: u32) -> (r: Self)
        ensures
            r.base == self.base,
            r.data.props == self.data.props,
            r.data.min == Some(min),
            r.data.max == self.data.max,
    {
        StructBuilder {
            data: StructData { props: self.data.props, min: Some(min), max: self.data.max },
            base: self.base,
        }
    }

    /// Maximum number of properties.
    pub fn max(self, max: u32) -> (r: Self)
        ensures
            r.base == self.base,
            r.data.props == self.data.props,
            r.data.min == self.data.min,
            r.data.max == Some(max),
    {
        StructBuilder {
            data: StructData { props: self.data.props, min: self.data.min, max: Some(max) },
            base: self.base,
        }
    }
}

/// An empty struct specification.
pub fn structure() -> (r: StructBuilder)
    ensures
        base_empty(r.base),
        r.data.props@.len() == 0,
        r.data.min is None,
        r.data.max is None,
{
    StructBuilder {
        data: StructData { props: Vec::new(), min: None, max: None },
        base: TypeBase::new(),
    }
}

/// An optional wrapping of `ty`, which must already be finalized.
pub fn optional(session: &mut Session, ty: Buildable) -> (r: Result<OptionalBuilder, Error>)
    ensures
        final(session)@ == resolve_child(old(session)@, ty).0,
        match (r, resolve_child(old(session)@, ty).1) {
            (Ok(b), Ok(id)) => base_empty(b.base) && b.data == (OptionalData {
                of: id,
                default_item: None,
            }),
            (Err(e), Err(f)) => e == f,
            _ => false,
        },
{
    let of = child_id(session, ty)?;
    Ok(OptionalBuilder { data: OptionalData { of, default_item: None }, base: TypeBase::new() })
}

/// A list of `ty`, which must already be finalized.
pub fn list(session: &mut Session, ty: Buildable) -> (r: Result<ListBuilder, Error>)
    ensures
        final(session)@ == resolve_child(old(session)@, ty).0,
        match (r, resolve_child(old(session)@, ty).1) {
            (Ok(b), Ok(id)) => base_empty(b.base) && b.data == (ListData {
                of: id,
                min: None,
                max: None,
                unique_items: None,
            }),
            (Err(e), Err(f)) => e == f,
            _ => false,
        },
{
    let of = child_id(session, ty)?;
    Ok(ListBuilder {
        data: ListData { of, min: None, max: None, unique_items: None },
        base: TypeBase::new(),
    })
}


/// Resolution of each child in order, stopping at the first failure.
pub open spec fn resolve_seq(g: Graph, bs: Seq<Buildable>) -> (Graph, Result<Seq<TypeId>, Error>)
    decreases bs.len(),
{
    if bs.len() == 0 {
        (g, Ok(Seq::empty()))
    } else {
        let (g1, r) = resolve_seq(g, bs.drop_last());
        match r {
            Err(e) => (g1, Err(e)),
            Ok(ids) => {
                let (g2, c) = resolve_child(g1, bs.last());
                match c {
                    Ok(id) => (g2, Ok(ids.push(id))),
                    Err(e) => (g2, Err(e)),
                }
            },
        }
    }
}

proof fn lemma_resolve_seq_stops(g: Graph, bs: Seq<Buildable>, k: int)
    requires
        0 <= k <= bs.len(),
        resolve_seq(g, bs.take(k)).1 is Err,
    ensures
        resolve_seq(g, bs) == resolve_seq(g, bs.take(k)),
    decreases bs.len() - k,
{
    if k < bs.len() {
        assert(bs.take(k + 1).drop_last() =~= bs.take(k));
        lemma_resolve_seq_stops(g, bs, k + 1);
    } else {
        assert(bs.take(k) =~= bs);
    }
}

fn child_ids(session: &mut Session, bs: Vec<Buildable>) -> (r: Result<Vec<TypeId>, Error>)
    ensures
        final(session)@ == resolve_seq(old(session)@, bs@).0,
        match (r, resolve_seq(old(session)@, bs@).1) {
            (Ok(v), Ok(ids)) => v@ == ids,
            (Err(e), Err(f)) => e == f,
            _ => false,
        },
{
    let ghost all = bs@;
    let ghost g0 = session@;
    let n = bs.len();
    let mut rest = bs;
    let mut ids: Vec<TypeId> = Vec::new();
    let mut k: usize = 0;
    assert(all.take(0) =~= Seq::<Buildable>::empty());
    while k < n
        invariant
            k <= n,
            n == all.len(),
            all == bs@,
            g0 == old(session)@,
            rest@ == all.skip(k as int),
            (session@, Ok::<Seq<TypeId>, Error>(ids@)) == resolve_seq(g0, all.take(k as int)),
        decreases n - k,
    {
        let b = rest.remove(0);
        assert(rest@ =~= all.skip(k + 1));
        assert(all.take(k + 1).drop_last() =~= all.take(k as int));
        assert(all.take(k + 1).last() == b);
        let ghost gk = session@;
        match child_id(session, b) {
            Ok(id) => {
                ids.push(id);
            },
            Err(e) => {
                proof {
                    assert(resolve_seq(g0, all.take(k + 1)) == (
                        session@,
                        Err::<Seq<TypeId>, Error>(e),
                    ));
                    lemma_resolve_seq_stops(g0, all, k + 1);
                }
                return Err(e);
            },
        }
        k = k + 1;
    }
    assert(all.take(n as int) =~= all);
    Ok(ids)
}

/// A union of `variants`, each of which must already be finalized; without
/// any variant it is rejected before any allocation.
pub fn union(session: &mut Session, variants: Vec<Buildable>) -> (r: Result<UnionBuilder, Error>)
    ensures
        variants@.len() == 0 ==> final(session)@ == old(session)@ && r == Err::<
            UnionBuilder,
            Error,
        >(Error::Malformed(MalformedKind::EmptyUnion)),
        variants@.len() > 0 ==> final(session)@ == resolve_seq(old(session)@, variants@).0,
        variants@.len() > 0 ==> match (r, resolve_seq(old(session)@, variants@).1) {
            (Ok(u), Ok(ids)) => base_empty(u.base) && u.variants@ == ids,
            (Err(e), Err(f)) => e == f,
            _ => false,
        },
{
    if variants.len() == 0 {
        return Err(Error::Malformed(MalformedKind::EmptyUnion));
    }
    let ids = child_ids(session, variants)?;
    Ok(UnionBuilder { variants: ids, base: TypeBase::new() })
}

/// An either of `variants`, each of which must already be finalized.
pub fn either(session: &mut Session, variants: Vec<Buildable>) -> (r: Result<EitherBuilder, Error>)
    ensures
        final(session)@ == resolve_seq(old(session)@, variants@).0,
        match (r, resolve_seq(old(session)@, variants@).1) {
            (Ok(u), Ok(ids)) => base_empty(u.base) && u.variants@ == ids,
            (Err(e), Err(f)) => e == f,
            _ => false,
        },
{
    let ids = child_ids(session, variants)?;
    Ok(EitherBuilder { variants: ids, base: TypeBase::new() })
}

} // verus!

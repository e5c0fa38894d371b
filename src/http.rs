//! HTTP runtimes and the routes that become function nodes.

use vstd::prelude::*;

use vstd::string::StringExecFns;

use crate::session::{
    alloc_materializer, Graph, alloc_runtime, Error, FuncData, Node, RuntimeId, Session, TypeId,
};
use crate::injection::opt_view;
use crate::t::{allocated, finalize, handle_ids, opt_seq, plain_func, Buildable, TypeDef};

verus! {

#[derive(Debug, Clone, Copy, PartialEq, Eq, Structural)]
pub enum HttpMethod {
    Get,
    Post,
    Put,
    Patch,
    Delete,
}

/// Side-effect classification of a function; the flag says whether the
/// mutation is idempotent.
#[derive(Debug, Clone, Copy, PartialEq, Eq, Structural)]
pub enum Effect {
    Read,
    Create(bool),
    Update(bool),
    Delete(bool),
}

/// What registering an HTTP runtime sends to the engine.
#[derive(Debug, Clone, PartialEq, Eq)]
pub struct HttpRuntimeData {
    pub endpoint: String,
    pub cert_secret: Option<String>,
    pub basic_auth_secret: Option<String>,
}

/// What registering an HTTP route materializer sends to the engine.
#[derive(Debug, Clone, PartialEq, Eq)]
pub struct HttpMaterializer {
    pub runtime: RuntimeId,
    pub effect: Effect,
    pub method: HttpMethod,
    pub path: String,
    pub content_type: Option<String>,
    pub header_prefix: Option<String>,
    pub query_fields: Option<Vec<String>>,
}


/// The effect of a route when none is given: reads for GET, non-idempotent
/// creation for POST, update for PUT and PATCH, deletion for DELETE.
pub open spec fn default_effect(method: HttpMethod) -> Effect {
    match method {
        HttpMethod::Get => Effect::Read,
        HttpMethod::Post => Effect::Create(false),
        HttpMethod::Put => Effect::Update(false),
        HttpMethod::Patch => Effect::Update(false),
        HttpMethod::Delete => Effect::Delete(false),
    }
}

fn effect_of(method: HttpMethod) -> (r: Effect)
    ensures
        r == default_effect(method),
{
    match method {
        HttpMethod::Get => Effect::Read,
        HttpMethod::Post => Effect::Create(false),
        HttpMethod::Put => Effect::Update(false),
        HttpMethod::Patch => Effect::Update(false),
        HttpMethod::Delete => Effect::Delete(false),
    }
}

fn owned(o: Option<&str>) -> (r: Option<String>)
    ensures
        opt_seq(r) == opt_view(o),
{
    match o {
        Some(s) => Some(String::from_str(s)),
        None => None,
    }
}

/// An external HTTP runtime registered in a session.
#[derive(Debug)]
pub struct HttpRuntime {
    id: RuntimeId,
}

impl View for HttpRuntime {
    type V = RuntimeId;

    closed spec fn view(&self) -> RuntimeId {
        self.id
    }
}

/// Pending route: what a materializer and its function node will carry.
#[derive(Debug)]
pub struct HttpRequestBuilder {
    pub runtime: RuntimeId,
    pub inp: TypeId,
    pub out: TypeId,
    pub method: HttpMethod,
    pub path: String,
    pub content_type: Option<String>,
    pub header_prefix: Option<String>,
    pub query_fields: Option<Vec<String>>,
    pub effect: Effect,
}

/// The materializer that finalizing `b` registers.
pub open spec fn route_materializer(b: HttpRequestBuilder) -> HttpMaterializer {
    HttpMaterializer {
        runtime: b.runtime,
        effect: b.effect,
        method: b.method,
        path: b.path,
        content_type: b.content_type,
        header_prefix: b.header_prefix,
        query_fields: b.query_fields,
    }
}

/// Finalizing `inp`, then `out`.
pub open spec fn finalize_pair(g: Graph, inp: Buildable, out: Buildable) -> (Graph, Result<
    (TypeId, TypeId),
    Error,
>) {
    let (g1, ri) = finalize(g, inp);
    match ri {
        Err(e) => (g1, Err(e)),
        Ok(i) => {
            let (g2, ro) = finalize(g1, out);
            match ro {
                Err(e) => (g2, Err(e)),
                Ok(o) => (g2, Ok((i, o))),
            }
        },
    }
}

/// `r` is a fresh route of `rt` for `method` and `path` between `inp` and `out`,
/// with the method's default effect and nothing else set.
pub open spec fn fresh_route(
    r: HttpRequestBuilder,
    rt: RuntimeId,
    method: HttpMethod,
    path: Seq<char>,
    inp: TypeId,
    out: TypeId,
) -> bool {
    &&& r.runtime == rt
    &&& r.method == method
    &&& r.path@ == path
    &&& r.inp == inp
    &&& r.out == out
    &&& r.content_type is None
    &&& r.header_prefix is None
    &&& r.query_fields is None
    &&& r.effect == default_effect(method)
}

impl HttpRuntime {
    /// Registers the endpoint, with optional names of the secrets holding a
    /// certificate and basic-auth credentials.
    pub fn new(
        session: &mut Session,
        endpoint: &str,
        cert_secret: Option<&str>,
        basic_auth_secret: Option<&str>,
    ) -> (r: Result<HttpRuntime, Error>)
        ensures
            exists|d: HttpRuntimeData|
                {
                    &&& d.endpoint@ == endpoint@
                    &&& opt_seq(d.cert_secret) == opt_view(cert_secret)
                    &&& opt_seq(d.basic_auth_secret) == opt_view(basic_auth_secret)
                    &&& #[trigger] alloc_runtime(old(session)@, d) == (final(session)@, match r {
                        Ok(rt) => Ok::<RuntimeId, Error>(rt@),
                        Err(e) => Err(e),
                    })
                },
    {
        let data = HttpRuntimeData {
            endpoint: String::from_str(endpoint),
            cert_secret: owned(cert_secret),
            basic_auth_secret: owned(basic_auth_secret),
        };
        let ghost d = data;
        let r = session.register_runtime(data);
        assert(alloc_runtime(old(session)@, d) == (session@, r));
        match r {
            Ok(id) => Ok(HttpRuntime { id }),
            Err(e) => Err(e),
        }
    }

    pub fn id(&self) -> (r: RuntimeId)
        ensures
            r == self@,
    {
        self.id
    }

    /// A route of this runtime; input and output are finalized at once.
    pub fn request(
        &self,
        session: &mut Session,
        method: HttpMethod,
        path: &str,
        inp: Buildable,
        out: Buildable,
    ) -> (r: Result<HttpRequestBuilder, Error>)
        ensures
            final(session)@ == finalize_pair(old(session)@, inp, out).0,
            match (r, finalize_pair(old(session)@, inp, out).1) {
                (Ok(b), Ok((i, o))) => fresh_route(b, self@, method, path@, i, o),
                (Err(e), Err(f)) => e == f,
                _ => false,
            },
    {
        let i = inp.into_id(session)?;
        let o = out.into_id(session)?;
        Ok(HttpRequestBuilder {
            runtime: self.id,
            inp: i,
            out: o,
            method,
            path: String::from_str(path),
            content_type: None,
            header_prefix: None,
            query_fields: None,
            effect: effect_of(method),
        })
    }

    /// A GET route.
    pub fn get(&self, session: &mut Session, path: &str, inp: Buildable, out: Buildable) -> (r:
        Result<HttpRequestBuilder, Error>)
        ensures
            final(session)@ == finalize_pair(old(session)@, inp, out).0,
            match (r, finalize_pair(old(session)@, inp, out).1) {
                (Ok(b), Ok((i, o))) => fresh_route(b, self@, HttpMethod::Get, path@, i, o),
                (Err(e), Err(f)) => e == f,
                _ => false,
            },
    {
        self.request(session, HttpMethod::Get, path, inp, out)
    }

    /// A POST route.
    pub fn post(&self, session: &mut Session, path: &str, inp: Buildable, out: Buildable) -> (r:
        Result<HttpRequestBuilder, Error>)
        ensures
            final(session)@ == finalize_pair(old(session)@, inp, out).0,
            match (r, finalize_pair(old(session)@, inp, out).1) {
                (Ok(b), Ok((i, o))) => fresh_route(b, self@, HttpMethod::Post, path@, i, o),
                (Err(e), Err(f)) => e == f,
                _ => false,
            },
    {
        self.request(session, HttpMethod::Post, path, inp, out)
    }

    /// A PUT route.
    pub fn put(&self, session: &mut Session, path: &str, inp: Buildable, out: Buildable) -> (r:
        Result<HttpRequestBuilder, Error>)
        ensures
            final(session)@ == finalize_pair(old(session)@, inp, out).0,
            match (r, finalize_pair(old(session)@, inp, out).1) {
                (Ok(b), Ok((i, o))) => fresh_route(b, self@, HttpMethod::Put, path@, i, o),
                (Err(e), Err(f)) => e == f,
                _ => false,
            },
    {
        self.request(session, HttpMethod::Put, path, inp, out)
    }

    /// A PATCH route.
    pub fn patch(&self, session: &mut Session, path: &str, inp: Buildable, out: Buildable) -> (r:
        Result<HttpRequestBuilder, Error>)
        ensures
            final(session)@ == finalize_pair(old(session)@, inp, out).0,
            match (r, finalize_pair(old(session)@, inp, out).1) {
                (Ok(b), Ok((i, o))) => fresh_route(b, self@, HttpMethod::Patch, path@, i, o),
                (Err(e), Err(f)) => e == f,
                _ => false,
            },
    {
        self.request(session, HttpMethod::Patch, path, inp, out)
    }

    /// A DELETE route.
    pub fn delete(&self, session: &mut Session, path: &str, inp: Buildable, out: Buildable) -> (r:
        Result<HttpRequestBuilder, Error>)
        ensures
            final(session)@ == finalize_pair(old(session)@, inp, out).0,
            match (r, finalize_pair(old(session)@, inp, out).1) {
                (Ok(b), Ok((i, o))) => fresh_route(b, self@, HttpMethod::Delete, path@, i, o),
                (Err(e), Err(f)) => e == f,
                _ => false,
            },
    {
        self.request(session, HttpMethod::Delete, path, inp, out)
    }
}

impl HttpRequestBuilder {
    pub fn content_type(self, content: &str) -> (r: Self)
        ensures
            r.content_type matches Some(c) && c@ == content@,
            r == (HttpRequestBuilder { content_type: r.content_type, ..self }),
    {
        HttpRequestBuilder { content_type: Some(String::from_str(content)), ..self }
    }

    /// Only headers whose name starts with `prefix` are forwarded.
    pub fn header_prefix(self, prefix: &str) -> (r: Self)
        ensures
            r.header_prefix matches Some(p) && p@ == prefix@,
            r == (HttpRequestBuilder { header_prefix: r.header_prefix, ..self }),
    {
        HttpRequestBuilder { header_prefix: Some(String::from_str(prefix)), ..self }
    }

    /// The input fields sent as query parameters.
    pub fn query_fields(self, fields: Vec<String>) -> (r: Self)
        ensures
            r == (HttpRequestBuilder { query_fields: Some(fields), ..self }),
    {
        HttpRequestBuilder { query_fields: Some(fields), ..self }
    }

    /// Overrides the effect inferred from the method.
    pub fn effect(self, effect: Effect) -> (r: Self)
        ensures
            r == (HttpRequestBuilder { effect, ..self }),
    {
        HttpRequestBuilder { effect, ..self }
    }

    /// Finalizes: registers the materializer, then allocates the function node
    /// bound to it.
    pub fn build(self, session: &mut Session) -> (r: Result<TypeDef, Error>)
        ensures
            match alloc_materializer(old(session)@, route_materializer(self)) {
                (g1, Ok(m)) => allocated(
                    g1,
                    final(session)@,
                    handle_ids(r),
                    Node::Func(plain_func(self.inp, self.out, m)),
                ),
                (g1, Err(e)) => final(session)@ == g1 && r == Err::<TypeDef, Error>(e),
            },
    {
        let inp = self.inp;
        let out = self.out;
        let mat = HttpMaterializer {
            runtime: self.runtime,
            effect: self.effect,
            method: self.method,
            path: self.path,
            content_type: self.content_type,
            header_prefix: self.header_prefix,
            query_fields: self.query_fields,
        };
        let m = session.register_materializer(mat)?;
        let data = FuncData {
            inp,
            out,
            mat: m,
            parameter_transform: None,
            rate_calls: false,
            rate_weight: None,
        };
        match session.allocate(Node::Func(data)) {
            Ok(id) => Ok(TypeDef::from_id(id)),
            Err(e) => Err(e),
        }
    }
}

} // verus!

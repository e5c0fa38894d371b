use serde_json::Value;
use typegraph::http::{Effect, HttpMethod, HttpRuntime};
use typegraph::session::{Error, MalformedKind, Node, ParameterTransform, Session};
use typegraph::composite::{either, list, optional, structure, union};
use typegraph::scalar::{boolean, email, integer, string, uuid};
use typegraph::t::{func, funcb, reference, Buildable, Pending, TypeDef};

fn injection_text(session: &Session, h: TypeDef) -> String {
    match session.node(h.id()) {
        Some(Node::WithInjection(_, text)) => text.clone(),
        other => panic!("not an injection: {:?}", other),
    }
}

#[test]
fn same_constraints_finalize_to_distinct_handles() {
    let mut s = Session::new();
    let a = integer().min(1).max(9).build(&mut s).unwrap();
    let b = integer().min(1).max(9).build(&mut s).unwrap();
    assert_ne!(a.id(), b.id());
    assert_eq!(s.len(), 2);
    assert_eq!(s.node(a.id()), s.node(b.id()));
    let c = boolean().build(&mut s).unwrap();
    let d = boolean().build(&mut s).unwrap();
    assert_ne!(c.id(), d.id());
}

#[test]
fn outcome_handle_and_name_children_are_equivalent() {
    let mut s = Session::new();
    let h = string().build(&mut s).unwrap();
    let by_handle = list(&mut s, Buildable::Handle(h)).unwrap();
    let by_outcome = list(&mut s, Buildable::from_outcome(Ok(h))).unwrap();
    assert_eq!(by_handle.data, by_outcome.data);
    assert_eq!(s.len(), 1);
    let by_name = list(&mut s, Buildable::named("User")).unwrap();
    assert_eq!(s.len(), 2);
    assert_eq!(by_name.data.of, 1);
    assert_eq!(s.node(1), Some(&Node::Reference("User".to_string(), None)));
    let failed = list(&mut s, Buildable::from_outcome(Err(Error::Engine)));
    assert_eq!(failed.unwrap_err(), Error::Engine);
    assert_eq!(s.len(), 2);
}

#[test]
fn rename_and_inject_commute_up_to_the_last_wrapper() {
    let mut s = Session::new();
    let h = integer().build(&mut s).unwrap();
    let a = h.rename(&mut s, "count").unwrap().from_context(&mut s, "user").unwrap();
    let b = h.from_context(&mut s, "user").unwrap().rename(&mut s, "count").unwrap();
    assert_eq!(s.len(), 5);
    assert!(matches!(s.node(a.id()), Some(Node::WithInjection(1, _))));
    assert_eq!(s.node(1), Some(&Node::Renamed(0, "count".to_string())));
    assert!(matches!(s.node(b.id()), Some(Node::Renamed(3, _))));
    assert_eq!(injection_text(&s, a), r#"{"source":"context","data":"user"}"#);
    assert_eq!(injection_text(&s, TypeDef::from_id(3)), injection_text(&s, a));
}

#[test]
fn route_effects_follow_the_method() {
    let mut s = Session::new();
    let rt = HttpRuntime::new(&mut s, "https://example.com", None, Some("auth")).unwrap();
    let inp = boolean().build(&mut s).unwrap();
    let get = rt.get(&mut s, "/a", Buildable::Handle(inp), Buildable::Handle(inp)).unwrap();
    let post = rt.post(&mut s, "/a", Buildable::Handle(inp), Buildable::Handle(inp)).unwrap();
    let put = rt.put(&mut s, "/a", Buildable::Handle(inp), Buildable::Handle(inp)).unwrap();
    let patch = rt.patch(&mut s, "/a", Buildable::Handle(inp), Buildable::Handle(inp)).unwrap();
    let delete = rt.delete(&mut s, "/a", Buildable::Handle(inp), Buildable::Handle(inp)).unwrap();
    assert_eq!(get.effect, Effect::Read);
    assert_eq!(get.method, HttpMethod::Get);
    assert_eq!(post.effect, Effect::Create(false));
    assert_eq!(put.effect, Effect::Update(false));
    assert_eq!(patch.effect, Effect::Update(false));
    assert_eq!(delete.effect, Effect::Delete(false));
    assert_eq!(post.effect(Effect::Create(true)).effect, Effect::Create(true));
    assert_eq!(s.runtime(rt.id()).unwrap().basic_auth_secret, Some("auth".to_string()));
    assert_eq!(s.runtime(rt.id()).unwrap().cert_secret, None);
}

#[test]
fn route_build_registers_materializer_then_function() {
    let mut s = Session::new();
    let rt = HttpRuntime::new(&mut s, "https://example.com", None, None).unwrap();
    let q = string().build(&mut s).unwrap();
    let inp = structure()
        .prop(&mut s, "q", Buildable::Handle(q))
        .unwrap()
        .build(&mut s)
        .unwrap();
    let out = string().build(&mut s).unwrap();
    let f = rt
        .get(&mut s, "/search", Buildable::Handle(inp), Buildable::Handle(out))
        .unwrap()
        .header_prefix("x-")
        .query_fields(vec!["q".to_string()])
        .content_type("application/json")
        .build(&mut s)
        .unwrap();
    let m = s.materializer(0).unwrap();
    assert_eq!(m.path, "/search");
    assert_eq!(m.header_prefix, Some("x-".to_string()));
    assert_eq!(m.query_fields, Some(vec!["q".to_string()]));
    assert_eq!(m.content_type, Some("application/json".to_string()));
    match s.node(f.id()) {
        Some(Node::Func(d)) => {
            assert_eq!((d.inp, d.out, d.mat), (inp.id(), out.id(), 0));
        }
        other => panic!("not a function: {:?}", other),
    }
}

#[test]
fn struct_keeps_duplicate_properties_in_order() {
    let mut s = Session::new();
    let a = integer().build(&mut s).unwrap();
    let b = boolean().build(&mut s).unwrap();
    let st = structure()
        .prop(&mut s, "x", Buildable::Handle(a))
        .unwrap()
        .prop(&mut s, "x", Buildable::Handle(b))
        .unwrap()
        .min(1)
        .build(&mut s)
        .unwrap();
    match s.node(st.id()) {
        Some(Node::Struct(d, _)) => {
            assert_eq!(d.props, vec![("x".to_string(), a.id()), ("x".to_string(), b.id())]);
            assert_eq!(d.min, Some(1));
        }
        other => panic!("not a struct: {:?}", other),
    }
}

#[test]
fn empty_union_and_unfinalized_child_are_rejected_locally() {
    let mut s = Session::new();
    let u = union(&mut s, vec![]);
    assert_eq!(u.unwrap_err(), Error::Malformed(MalformedKind::EmptyUnion));
    let l = list(&mut s, Buildable::Pending(Pending::Integer(integer())));
    assert_eq!(l.unwrap_err(), Error::Malformed(MalformedKind::UnfinalizedChild));
    let o = optional(&mut s, Buildable::Pending(Pending::Boolean(boolean())));
    assert_eq!(o.unwrap_err(), Error::Malformed(MalformedKind::UnfinalizedChild));
    assert_eq!(s.len(), 0);
}

#[test]
fn inverted_integer_bounds_are_forwarded_verbatim() {
    let mut s = Session::new();
    let h = integer().min(10).max(5).build(&mut s).unwrap();
    match s.node(h.id()) {
        Some(Node::Integer(c, _)) => {
            assert_eq!(c.min, Some(10));
            assert_eq!(c.max, Some(5));
        }
        other => panic!("not an integer: {:?}", other),
    }
}

#[test]
fn random_injection_has_no_payload_unlike_static_null() {
    let mut s = Session::new();
    let h = string().build(&mut s).unwrap();
    let r = h.from_random(&mut s).unwrap();
    let n = h.set(&mut s, &Value::Null).unwrap();
    assert_eq!(injection_text(&s, r), r#"{"source":"random"}"#);
    assert_eq!(injection_text(&s, n), r#"{"source":"static","data":null}"#);
    assert_ne!(injection_text(&s, r), injection_text(&s, n));
}

#[test]
fn injection_payloads_are_json_encoded() {
    let mut s = Session::new();
    let h = string().build(&mut s).unwrap();
    let d = h.inject(&mut s, "a\"b").unwrap();
    assert_eq!(injection_text(&s, d), r#"{"source":"dynamic","data":"a\"b"}"#);
    let k = h.from_secret(&mut s, "KEY").unwrap();
    assert_eq!(injection_text(&s, k), r#"{"source":"secret","data":"KEY"}"#);
    let v = h.set(&mut s, &Value::from(42)).unwrap();
    assert_eq!(injection_text(&s, v), r#"{"source":"static","data":42}"#);
}

#[test]
fn base_metadata_accumulates() {
    let mut s = Session::new();
    let b = integer()
        .named("age")
        .config("k", &Value::from(1))
        .config("k", &Value::from("two"))
        .id();
    assert_eq!(
        b.base.runtime_config,
        vec![("k".to_string(), "1".to_string()), ("k".to_string(), "\"two\"".to_string())]
    );
    assert!(b.base.as_id);
    let h = b.build(&mut s).unwrap();
    assert_eq!(h.repr(&s).unwrap(), "integer 'age'");
    assert_eq!(TypeDef::from_id(7).repr(&s).unwrap_err(), Error::InvalidReference);
}

#[test]
fn uuid_is_an_identity_string() {
    let u = uuid();
    assert!(u.base.as_id);
    assert_eq!(u.data.format, Some("uuid".to_string()));
    let e = email();
    assert!(!e.base.as_id);
    assert_eq!(e.data.format, Some("email".to_string()));
}

#[test]
fn unknown_handle_is_an_invalid_reference() {
    let mut s = Session::new();
    let r = TypeDef::from_id(3).rename(&mut s, "x");
    assert_eq!(r.unwrap_err(), Error::InvalidReference);
    let l = list(&mut s, Buildable::Handle(TypeDef::from_id(3))).unwrap();
    assert_eq!(l.build(&mut s).unwrap_err(), Error::InvalidReference);
    assert_eq!(s.len(), 0);
}

#[test]
fn full_session_is_an_engine_failure() {
    let mut s = Session::with_limit(1);
    assert!(boolean().build(&mut s).is_ok());
    assert_eq!(boolean().build(&mut s).unwrap_err(), Error::Engine);
    assert_eq!(s.len(), 1);
}

#[test]
fn union_and_either_resolve_children_in_order() {
    let mut s = Session::new();
    let a = integer().build(&mut s).unwrap();
    let u = union(&mut s, vec![Buildable::Handle(a), Buildable::named("B")]).unwrap();
    assert_eq!(u.variants, vec![0, 1]);
    let u2 = u.add(&mut s, Buildable::Handle(a)).unwrap();
    assert_eq!(u2.variants, vec![0, 1, 0]);
    let h = u2.build(&mut s).unwrap();
    assert_eq!(h.id(), 2);
    let e = either(
        &mut s,
        vec![Buildable::Handle(a), Buildable::Failed(Error::Engine), Buildable::named("C")],
    );
    assert_eq!(e.unwrap_err(), Error::Engine);
    assert_eq!(s.len(), 3);
}

#[test]
fn functions_bind_input_output_and_materializer() {
    let mut s = Session::new();
    let rt = HttpRuntime::new(&mut s, "http://x", None, None).unwrap();
    let i = boolean().build(&mut s).unwrap();
    let o = boolean().build(&mut s).unwrap();
    let no_mat = funcb(&mut s, Buildable::Handle(i), Buildable::Handle(o), 0);
    assert_eq!(no_mat.unwrap_err(), Error::InvalidReference);
    let _route = rt.get(&mut s, "/", Buildable::Handle(i), Buildable::Handle(o)).unwrap().build(&mut s).unwrap();
    let f = func(&mut s, Buildable::Handle(i), Buildable::Handle(o), 0)
        .unwrap()
        .rate_call(true)
        .rate_weight(3)
        .transform(ParameterTransform { resolver_input: i.id(), transform_tree: "{}".to_string() })
        .build(&mut s)
        .unwrap();
    match s.node(f.id()) {
        Some(Node::Func(d)) => {
            assert!(d.rate_calls);
            assert_eq!(d.rate_weight, Some(3));
            assert_eq!(d.parameter_transform.as_ref().unwrap().resolver_input, i.id());
        }
        other => panic!("not a function: {:?}", other),
    }
}

#[test]
fn reference_attributes_and_finalize_coercions() {
    let mut s = Session::new();
    let r = reference("User").set("a", "1").set("b", "2");
    assert_eq!(
        r.attributes,
        Some(vec![("a".to_string(), "1".to_string()), ("b".to_string(), "2".to_string())])
    );
    let h = Buildable::Pending(Pending::Reference(r)).build(&mut s).unwrap();
    assert_eq!(h.id(), 0);
    let same = Buildable::Handle(h).build(&mut s).unwrap();
    assert_eq!(same.id(), 0);
    let named = Buildable::named("Post").into_id(&mut s).unwrap();
    assert_eq!(named, 1);
    let pending = Buildable::Pending(Pending::Integer(integer().min(2)));
    let renamed = pending.rename(&mut s, "n").unwrap();
    assert_eq!(renamed.id(), 3);
    assert_eq!(s.node(3), Some(&Node::Renamed(2, "n".to_string())));
    let opt = Buildable::Handle(h).optional_or(&mut s, &Value::from(true)).unwrap();
    assert_eq!(opt.data.default_item, Some("true".to_string()));
    let policed = h.with_policy(&mut s, &vec![4, 2]).unwrap();
    assert_eq!(s.node(policed.id()), Some(&Node::WithPolicy(0, vec![4, 2])));
}

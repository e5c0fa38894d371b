//! Metadata shared by every scalar and composite specification.

use vstd::prelude::*;
use vstd::string::StringExecFns;

use crate::injection::value_text;
use crate::session::TypeBase;

verus! {

/// `b1` is `b0` with its display name set to `name`.
pub open spec fn base_named(b0: TypeBase, b1: TypeBase, name: Seq<char>) -> bool {
    &&& b1.name matches Some(s) && s@ == name
    &&& b1.as_id == b0.as_id
    &&& b1.runtime_config == b0.runtime_config
}

/// `b1` is `b0` marked as an identity.
pub open spec fn base_marked(b0: TypeBase, b1: TypeBase) -> bool {
    &&& b1.name == b0.name
    &&& b1.as_id
    &&& b1.runtime_config == b0.runtime_config
}

/// `b1` is `b0` with one more configuration pair, under `key`, at the end.
pub open spec fn base_configured(b0: TypeBase, b1: TypeBase, key: Seq<char>) -> bool {
    let n = b0.runtime_config@.len();
    &&& b1.name == b0.name
    &&& b1.as_id == b0.as_id
    &&& b1.runtime_config@.len() == n + 1
    &&& b1.runtime_config@.subrange(0, n as int) == b0.runtime_config@
    &&& b1.runtime_config@[n as int].0@ == key
}

impl TypeBase {
    pub fn named(self, name: &str) -> (r: TypeBase)
        ensures
            base_named(self, r, name@),
    {
        TypeBase {
            name: Some(String::from_str(name)),
            as_id: self.as_id,
            runtime_config: self.runtime_config,
        }
    }

    pub fn marked_id(self) -> (r: TypeBase)
        ensures
            base_marked(self, r),
    {
        TypeBase { name: self.name, as_id: true, runtime_config: self.runtime_config }
    }

    /// Appends the pair (`key`, JSON text of `value`); earlier pairs under the
    /// same key are kept.
    pub fn config(self, key: &str, value: &serde_json::Value) -> (r: TypeBase)
        ensures
            base_configured(self, r, key@),
    {
        let mut cfg = self.runtime_config;
        let ghost before = cfg@;
        cfg.push((String::from_str(key), value_text(value)));
        assert(cfg@.subrange(0, before.len() as int) =~= before);
        TypeBase { name: self.name, as_id: self.as_id, runtime_config: cfg }
    }
}
/// The base of a fresh pending specification.
pub open spec fn base_empty(b: TypeBase) -> bool {
    &&& b.name is None
    &&& !b.as_id
    &&& b.runtime_config@.len() == 0
}

} // verus!

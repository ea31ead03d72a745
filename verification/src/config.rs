//! Configuration for downstream client-type generation: a plain record
//! with no algorithmic content, deserialized at the application edge and
//! handed through.

use vstd::prelude::*;

verus! {

/// Settings that control how client types are generated from the
/// compiler's output.
#[derive(Debug)]
pub struct TypegenConfig {
    /// When set, enum values are imported from a module with this
    /// suffix. An empty string is allowed and differs from leaving the
    /// value unset: with suffix `".test"` an enum `Foo` is imported from
    /// `"Foo.test"`, with suffix `""` from `"Foo"`.
    pub enum_module_suffix: Option<String>,
    /// Generated input types treat the listed fields as optional even
    /// where the schema requires them.
    pub optional_input_fields: Vec<String>,
}

impl Default for TypegenConfig {
    /// No suffix, and no field forced optional.
    fn default() -> (c: Self)
        ensures
            c.enum_module_suffix is None,
            c.optional_input_fields@.len() == 0,
    {
        TypegenConfig { enum_module_suffix: None, optional_input_fields: Vec::new() }
    }
}

} // verus!

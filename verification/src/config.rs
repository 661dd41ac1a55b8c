//! How a serializer lays out structs and names enum variants.
use vstd::prelude::*;

verus! {

/// The layout choices of a serializer: structs as maps keyed by field name
/// or as arrays of their fields, and enum variants named by string or by
/// index.
pub trait SerializerConfig {
    /// Whether structs are written as maps from field names to values.
    spec fn struct_map() -> bool;

    /// Whether enum variants are identified by name rather than by index.
    spec fn string_variants() -> bool;

    /// Whether structs are written as maps from field names to values.
    fn is_struct_map() -> (r: bool)
        ensures
            r == Self::struct_map(),
    ;

    /// Whether enum variants are identified by name rather than by index.
    fn is_string_variants() -> (r: bool)
        ensures
            r == Self::string_variants(),
    ;
}

/// The default layout: structs as arrays, variants by index.
#[derive(Debug, Clone, Copy)]
pub struct DefaultConfig;

impl SerializerConfig for DefaultConfig {
    open spec fn struct_map() -> bool {
        false
    }

    open spec fn string_variants() -> bool {
        false
    }

    fn is_struct_map() -> (r: bool) {
        false
    }

    fn is_string_variants() -> (r: bool) {
        false
    }
}

/// Structs as maps from field names to values; variants as in `C`.
#[derive(Debug)]
pub struct StructMapConfig<C>(pub C);

impl<C> StructMapConfig<C> {
    /// Wraps `inner`.
    pub fn new(inner: C) -> (r: Self)
        ensures
            r.0 == inner,
    {
        StructMapConfig(inner)
    }
}

impl<C: SerializerConfig> SerializerConfig for StructMapConfig<C> {
    open spec fn struct_map() -> bool {
        true
    }

    open spec fn string_variants() -> bool {
        C::string_variants()
    }

    fn is_struct_map() -> (r: bool) {
        true
    }

    fn is_string_variants() -> (r: bool) {
        C::is_string_variants()
    }
}

/// Structs as arrays of their fields; variants as in `C`.
#[derive(Debug)]
pub struct StructTupleConfig<C>(pub C);

impl<C> StructTupleConfig<C> {
    /// Wraps `inner`.
    pub fn new(inner: C) -> (r: Self)
        ensures
            r.0 == inner,
    {
        StructTupleConfig(inner)
    }
}

impl<C: SerializerConfig> SerializerConfig for StructTupleConfig<C> {
    open spec fn struct_map() -> bool {
        false
    }

    open spec fn string_variants() -> bool {
        C::string_variants()
    }

    fn is_struct_map() -> (r: bool) {
        false
    }

    fn is_string_variants() -> (r: bool) {
        C::is_string_variants()
    }
}

/// Variants identified by name; structs as in `C`.
#[derive(Debug)]
pub struct VariantStringConfig<C>(pub C);

impl<C> VariantStringConfig<C> {
    /// Wraps `inner`.
    pub fn new(inner: C) -> (r: Self)
        ensures
            r.0 == inner,
    {
        VariantStringConfig(inner)
    }
}

impl<C: SerializerConfig> SerializerConfig for VariantStringConfig<C> {
    open spec fn struct_map() -> bool {
        C::struct_map()
    }

    open spec fn string_variants() -> bool {
        true
    }

    fn is_struct_map() -> (r: bool) {
        C::is_struct_map()
    }

    fn is_string_variants() -> (r: bool) {
        true
    }
}

/// Variants identified by index; structs as in `C`.
#[derive(Debug)]
pub struct VariantIntegerConfig<C>(pub C);

impl<C> VariantIntegerConfig<C> {
    /// Wraps `inner`.
    pub fn new(inner: C) -> (r: Self)
        ensures
            r.0 == inner,
    {
        VariantIntegerConfig(inner)
    }
}

impl<C: SerializerConfig> SerializerConfig for VariantIntegerConfig<C> {
    open spec fn struct_map() -> bool {
        C::struct_map()
    }

    open spec fn string_variants() -> bool {
        false
    }

    fn is_struct_map() -> (r: bool) {
        C::is_struct_map()
    }

    fn is_string_variants() -> (r: bool) {
        false
    }
}

} // verus!

//! The catalogue of scalar types: under which name the server knows a type
//! and with which identifiers it tags values of the type and arrays of them.

use crate::types::{RegConfig, TsQuery, TsVector};
use vstd::prelude::*;
use vstd::utf8::{encode_utf8, encode_utf8_decode_utf8};

verus! {

/// How the server tags one scalar type.
#[derive(Debug, Clone, Copy, PartialEq, Eq)]
pub struct ScalarTypeDescriptor {
    /// The name of the type in SQL.
    pub name: &'static str,
    /// The identifier of the type.
    pub oid: u32,
    /// The identifier of the type of arrays of it.
    pub array_oid: u32,
    /// Whether a value of the type may be null.
    pub nullable: bool,
}

/// The descriptors registered so far, each under a name of its own. A
/// registry is filled once, before it is used, and handed to whoever needs to
/// look a type up.
pub struct TypeRegistry {
    descriptors: Vec<ScalarTypeDescriptor>,
}

/// Whether two texts are the same, character by character.
fn same_text(a: &str, b: &str) -> (same: bool)
    ensures
        same == (a@ == b@),
{
    let x = a.as_bytes();
    let y = b.as_bytes();
    proof {
        encode_utf8_decode_utf8(a@);
        encode_utf8_decode_utf8(b@);
    }
    if x.len() != y.len() {
        return false;
    }
    let mut i: usize = 0;
    while i < x.len()
        invariant
            i <= x@.len() == y@.len(),
            x@ == encode_utf8(a@),
            y@ == encode_utf8(b@),
            x@.take(i as int) == y@.take(i as int),
        decreases x@.len() - i,
    {
        if x[i] != y[i] {
            return false;
        }
        i += 1;
        assert(x@.take(i as int) =~= x@.take(i - 1).push(x@[i - 1]));
        assert(y@.take(i as int) =~= y@.take(i - 1).push(y@[i - 1]));
    }
    assert(x@ =~= x@.take(i as int));
    assert(y@ =~= y@.take(i as int));
    true
}

/// Whether no two of `descriptors` have the same name.
pub open spec fn distinct_names(descriptors: Seq<ScalarTypeDescriptor>) -> bool {
    forall|i: int, j: int|
        0 <= i < j < descriptors.len() ==> (#[trigger] descriptors[i]).name@
            != (#[trigger] descriptors[j]).name@
}

/// A name that is new among descriptors with different names leaves the
/// names different when its descriptor is added.
pub proof fn lemma_distinct_names_push(
    descriptors: Seq<ScalarTypeDescriptor>,
    descriptor: ScalarTypeDescriptor,
)
    requires
        distinct_names(descriptors),
        forall|i: int| 0 <= i < descriptors.len() ==> (#[trigger] descriptors[i]).name@
            != descriptor.name@,
    ensures
        distinct_names(descriptors.push(descriptor)),
{
    let after = descriptors.push(descriptor);
    assert forall|i: int, j: int| 0 <= i < j < after.len() implies (#[trigger] after[i]).name@
        != (#[trigger] after[j]).name@ by {
        assert(after[i] == descriptors[i]);
        if j < descriptors.len() {
            assert(after[j] == descriptors[j]);
        }
    }
}

impl TypeRegistry {
    /// The descriptors in the order in which they were registered.
    pub closed spec fn view(&self) -> Seq<ScalarTypeDescriptor> {
        self.descriptors@
    }

    /// Whether a descriptor is registered under `name`.
    pub open spec fn has(&self, name: Seq<char>) -> bool {
        exists|i: int| 0 <= i < self@.len() && (#[trigger] self@[i]).name@ == name
    }

    /// No two descriptors have the same name.
    #[verifier::type_invariant]
    spec fn names_differ(&self) -> bool {
        distinct_names(self.descriptors@)
    }

    /// Shows that no two descriptors of the registry have the same name,
    /// which holds of every registry.
    pub fn names_are_distinct(&self)
        ensures
            distinct_names(self@),
    {
        proof {
            use_type_invariant(self);
        }
    }

    /// A registry without descriptors.
    pub fn new() -> (registry: TypeRegistry)
        ensures
            registry@ == Seq::<ScalarTypeDescriptor>::empty(),
    {
        TypeRegistry { descriptors: Vec::new() }
    }

    /// The descriptor registered under `name`, if there is one.
    pub fn lookup(&self, name: &str) -> (found: Option<ScalarTypeDescriptor>)
        ensures
            found is Some <==> self.has(name@),
            found matches Some(d) ==> d.name@ == name@ && self@.contains(d),
    {
        let mut i: usize = 0;
        while i < self.descriptors.len()
            invariant
                i <= self@.len(),
                forall|k: int| 0 <= k < i ==> (#[trigger] self@[k]).name@ != name@,
            decreases self@.len() - i,
        {
            if same_text(self.descriptors[i].name, name) {
                return Some(self.descriptors[i]);
            }
            i += 1;
        }
        None
    }

    /// Whether a descriptor is registered under `name`.
    pub fn contains(&self, name: &str) -> (found: bool)
        ensures
            found == self.has(name@),
    {
        self.lookup(name).is_some()
    }

    /// Registers a type under `name`, which must be new: to register a name
    /// twice is a mistake of the program, not an event to recover from.
    pub fn register(&mut self, name: &'static str, oid: u32, array_oid: u32) -> (descriptor:
        ScalarTypeDescriptor)
        requires
            !old(self).has(name@),
        ensures
            descriptor == (ScalarTypeDescriptor { name, oid, array_oid, nullable: false }),
            final(self)@ == old(self)@.push(descriptor),
    {
        let descriptor = ScalarTypeDescriptor { name, oid, array_oid, nullable: false };
        proof {
            use_type_invariant(&*self);
            assert forall|i: int| 0 <= i < self@.len() implies (#[trigger] self@[i]).name@
                != name@ by {
                if self@[i].name@ == name@ {
                    assert(self.has(name@));
                }
            }
            lemma_distinct_names_push(self@, descriptor);
        }
        let mut descriptors: Vec<ScalarTypeDescriptor> = Vec::new();
        std::mem::swap(&mut self.descriptors, &mut descriptors);
        descriptors.push(descriptor);
        self.descriptors = descriptors;
        descriptor
    }

    /// Registers a type under `name` unless the name is taken, and says
    /// whether it did.
    pub fn try_register(&mut self, name: &'static str, oid: u32, array_oid: u32) -> (descriptor:
        Option<ScalarTypeDescriptor>)
        ensures
            old(self).has(name@) ==> descriptor is None && final(self)@ == old(self)@,
            !old(self).has(name@) ==> descriptor == Some(
                ScalarTypeDescriptor { name, oid, array_oid, nullable: false },
            ) && final(self)@ == old(self)@.push(descriptor->Some_0),
    {
        if self.contains(name) {
            None
        } else {
            Some(self.register(name, oid, array_oid))
        }
    }
}

impl TsVector {
    /// The identifier of `tsvector`.
    pub const OID: u32 = 3614;

    /// The identifier of arrays of `tsvector`.
    pub const ARRAY_OID: u32 = 3643;

    /// Registers `tsvector` with the identifiers that every server gives it.
    pub fn register(registry: &mut TypeRegistry) -> (descriptor: ScalarTypeDescriptor)
        requires
            !old(registry).has("tsvector"@),
        ensures
            descriptor == (ScalarTypeDescriptor {
                name: "tsvector",
                oid: 3614,
                array_oid: 3643,
                nullable: false,
            }),
            final(registry)@ == old(registry)@.push(descriptor),
    {
        registry.register("tsvector", TsVector::OID, TsVector::ARRAY_OID)
    }
}

impl TsQuery {
    /// The identifier of `tsquery`.
    pub const OID: u32 = 3615;

    /// The identifier of arrays of `tsquery`.
    pub const ARRAY_OID: u32 = 3645;

    /// Registers `tsquery` with the identifiers that every server gives it.
    pub fn register(registry: &mut TypeRegistry) -> (descriptor: ScalarTypeDescriptor)
        requires
            !old(registry).has("tsquery"@),
        ensures
            descriptor == (ScalarTypeDescriptor {
                name: "tsquery",
                oid: 3615,
                array_oid: 3645,
                nullable: false,
            }),
            final(registry)@ == old(registry)@.push(descriptor),
    {
        registry.register("tsquery", TsQuery::OID, TsQuery::ARRAY_OID)
    }
}

impl RegConfig {
    /// Registers `regconfig`, which is known by its name: the caller gives
    /// the identifiers that the server at hand has for it.
    pub fn register(registry: &mut TypeRegistry, oid: u32, array_oid: u32) -> (descriptor:
        ScalarTypeDescriptor)
        requires
            !old(registry).has("regconfig"@),
        ensures
            descriptor == (ScalarTypeDescriptor {
                name: "regconfig",
                oid,
                array_oid,
                nullable: false,
            }),
            final(registry)@ == old(registry)@.push(descriptor),
    {
        registry.register("regconfig", oid, array_oid)
    }
}

} // verus!

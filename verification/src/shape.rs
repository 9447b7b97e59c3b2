//! The decision core of the boilerplate generator.
//!
//! For a single-field wrapper struct, the forwarding implementations of the
//! capability traits can be written mechanically: each operation forwards
//! to the identically-named operation on the one field.  Whether a type is
//! eligible, which error to report when it is not, and which member the
//! forwarding call must name, is plain logic over the type's shape - so it
//! is decided here, with exact contracts, while the rendering of the actual
//! source text stays with the surrounding tooling.

use vstd::prelude::*;

verus! {

/// Which capability trait a forwarding implementation is being built for.
#[derive(Clone, Copy, Debug, PartialEq, Eq, Structural)]
pub enum WakeTrait {
    Wake,
    WakeRef,
}

impl WakeTrait {
    /// The trait's name.
    pub open spec fn name_spec(self) -> Seq<char> {
        match self {
            WakeTrait::Wake => "Wake"@,
            WakeTrait::WakeRef => "WakeRef"@,
        }
    }

    /// The name of the method the forwarding implementation must define.
    pub open spec fn method_name_spec(self) -> Seq<char> {
        match self {
            WakeTrait::Wake => "wake"@,
            WakeTrait::WakeRef => "wake_by_ref"@,
        }
    }

    /// Whether the method takes its receiver by reference.
    pub open spec fn by_reference_spec(self) -> bool {
        self is WakeRef
    }

    /// The trait's name.
    pub fn name(self) -> (r: &'static str)
        ensures
            r@ == self.name_spec(),
    {
        match self {
            WakeTrait::Wake => "Wake",
            WakeTrait::WakeRef => "WakeRef",
        }
    }

    /// The name of the method the forwarding implementation must define.
    pub fn method_name(self) -> (r: &'static str)
        ensures
            r@ == self.method_name_spec(),
    {
        match self {
            WakeTrait::Wake => "wake",
            WakeTrait::WakeRef => "wake_by_ref",
        }
    }

    /// Whether the method takes its receiver by reference, so that the
    /// forwarding call must borrow the field instead of moving it.
    pub fn by_reference(self) -> (r: bool)
        ensures
            r == self.by_reference_spec(),
    {
        match self {
            WakeTrait::Wake => false,
            WakeTrait::WakeRef => true,
        }
    }
}

/// The fields of a struct, as the generator sees them.
#[derive(Debug)]
pub enum StructFields {
    /// Named fields, by name, in declaration order.
    Named(Vec<String>),
    /// Positional fields, by count.
    Unnamed(usize),
    /// No fields at all.
    Unit,
}

/// The shape of the type a derive was applied to.
#[derive(Debug)]
pub enum TypeShape {
    Struct(StructFields),
    Enum,
    Union,
}

/// Why a type is not eligible for a generated forwarding implementation.
/// Each of these is a compile-time rejection, never a runtime failure.
#[derive(Clone, Copy, Debug, PartialEq, Eq, Structural)]
pub enum DeriveError {
    /// The struct has no fields to forward to.
    UnitStruct,
    /// The struct does not have exactly one field.
    NotSingleField,
    /// Enums are not eligible.
    EnumUnsupported,
    /// Unions are not eligible.
    UnionUnsupported,
    /// Erased-handle conversion can only be generated for concrete types.
    GenericType,
}

/// The member a forwarding call must name.
#[derive(Debug)]
pub enum FieldMember {
    /// A named field: `self.<name>`.
    Named(String),
    /// The sole positional field: `self.0`.
    Index,
}

/// Everything the renderer needs for one forwarding implementation.
#[derive(Debug)]
pub struct ForwardPlan {
    /// The trait being implemented.
    pub which: WakeTrait,
    /// The field the operation forwards to.
    pub member: FieldMember,
}

/// What the generator decides for a given trait and type shape: a plan for
/// structs with exactly one field - named and positional fields treated
/// identically - and the precise rejection for every other shape.
pub open spec fn plan_spec(which: WakeTrait, shape: TypeShape) -> Result<ForwardPlan, DeriveError> {
    match shape {
        TypeShape::Struct(StructFields::Named(names)) => if names@.len() == 1 {
            Ok(ForwardPlan { which, member: FieldMember::Named(names@[0]) })
        } else {
            Err(DeriveError::NotSingleField)
        },
        TypeShape::Struct(StructFields::Unnamed(n)) => if n == 1 {
            Ok(ForwardPlan { which, member: FieldMember::Index })
        } else {
            Err(DeriveError::NotSingleField)
        },
        TypeShape::Struct(StructFields::Unit) => Err(DeriveError::UnitStruct),
        TypeShape::Enum => Err(DeriveError::EnumUnsupported),
        TypeShape::Union => Err(DeriveError::UnionUnsupported),
    }
}

/// Decide the forwarding implementation for one capability trait.
pub fn forwarding_plan(which: WakeTrait, shape: TypeShape) -> (r: Result<ForwardPlan, DeriveError>)
    ensures
        r == plan_spec(which, shape),
{
    match shape {
        TypeShape::Struct(fields) => match fields {
            StructFields::Named(mut names) => if names.len() == 1 {
                let name = names.pop().unwrap();
                Ok(ForwardPlan { which, member: FieldMember::Named(name) })
            } else {
                Err(DeriveError::NotSingleField)
            },
            StructFields::Unnamed(n) => if n == 1 {
                Ok(ForwardPlan { which, member: FieldMember::Index })
            } else {
                Err(DeriveError::NotSingleField)
            },
            StructFields::Unit => Err(DeriveError::UnitStruct),
        },
        TypeShape::Enum => Err(DeriveError::EnumUnsupported),
        TypeShape::Union => Err(DeriveError::UnionUnsupported),
    }
}

/// Whether erased-handle conversion may be generated for a type: only
/// concrete types are eligible, because the dispatch table is bound
/// statically to one type.
pub open spec fn conversion_eligible_spec(generic_params: usize) -> Result<(), DeriveError> {
    if generic_params == 0 {
        Ok(())
    } else {
        Err(DeriveError::GenericType)
    }
}

/// Decide whether erased-handle conversion may be generated for a type
/// with the given number of generic parameters.
pub fn conversion_eligible(generic_params: usize) -> (r: Result<(), DeriveError>)
    ensures
        r == conversion_eligible_spec(generic_params),
{
    if generic_params == 0 {
        Ok(())
    } else {
        Err(DeriveError::GenericType)
    }
}

} // verus!

//! The generator: from a validated [`StructSpec`] to the two derived
//! artifacts, the shape of the staging type and the description of its
//! conversion back to the record.
//!
//! Generation is a pure function of the spec: the artifacts are fixed by
//! `generated_artifacts` on the spec's mathematical image, so regenerating
//! from an equal spec yields equal artifacts.

use crate::schema::{FieldSpec, FieldSpecV, StructSpec, StructSpecV};
use vstd::prelude::*;

verus! {

/// One field of the staging type: a slot named `name` holding either a
/// value of `value_type` or an error of `error_type`.
#[derive(Clone, Debug, PartialEq, Eq)]
pub struct StagingFieldDecl {
    pub name: String,
    pub value_type: String,
    pub error_type: String,
}

/// Mathematical image of a [`StagingFieldDecl`].
#[verifier::ext_equal]
pub ghost struct StagingFieldDeclV {
    pub name: Seq<char>,
    pub value_type: Seq<char>,
    pub error_type: Seq<char>,
}

impl View for StagingFieldDecl {
    type V = StagingFieldDeclV;

    open spec fn view(&self) -> StagingFieldDeclV {
        StagingFieldDeclV {
            name: self.name@,
            value_type: self.value_type@,
            error_type: self.error_type@,
        }
    }
}

/// The shape of the generated staging type.
#[derive(Clone, Debug, PartialEq, Eq)]
pub struct StagingShape {
    /// Identifier of the staging type.
    pub name: String,
    /// One fallible slot per record field, in declaration order.
    pub fields: Vec<StagingFieldDecl>,
    /// Element type of the ordered, growable unassociated-error sequence,
    /// present exactly when the spec asks to collect unassociated errors.
    pub additional_errors: Option<String>,
}

/// Mathematical image of a [`StagingShape`].
#[verifier::ext_equal]
pub ghost struct StagingShapeV {
    pub name: Seq<char>,
    pub fields: Seq<StagingFieldDeclV>,
    pub additional_errors: Option<Seq<char>>,
}

impl View for StagingShape {
    type V = StagingShapeV;

    open spec fn view(&self) -> StagingShapeV {
        StagingShapeV {
            name: self.name@,
            fields: self.fields@.map_values(|d: StagingFieldDecl| d@),
            additional_errors: match self.additional_errors {
                Some(t) => Some(t@),
                None => None,
            },
        }
    }
}

/// The description of the generated conversion from the staging type back
/// to the record.
#[derive(Clone, Debug, PartialEq, Eq)]
pub struct ConversionSpec {
    /// The record type the conversion constructs on success.
    pub record_name: String,
    /// The staging type the conversion consumes.
    pub staging_name: String,
    /// The type the conversion returns on failure.
    pub final_error_type: String,
    /// Where the emitted conversion resolves its support types from.
    pub crate_root: String,
    /// The fields to inspect, in declaration order.
    pub field_names: Vec<String>,
    /// Whether the accumulator is seeded from the staging value's
    /// unassociated errors rather than starting empty.
    pub seed_unassociated: bool,
}

/// Mathematical image of a [`ConversionSpec`].
#[verifier::ext_equal]
pub ghost struct ConversionSpecV {
    pub record_name: Seq<char>,
    pub staging_name: Seq<char>,
    pub final_error_type: Seq<char>,
    pub crate_root: Seq<char>,
    pub field_names: Seq<Seq<char>>,
    pub seed_unassociated: bool,
}

impl View for ConversionSpec {
    type V = ConversionSpecV;

    open spec fn view(&self) -> ConversionSpecV {
        ConversionSpecV {
            record_name: self.record_name@,
            staging_name: self.staging_name@,
            final_error_type: self.final_error_type@,
            crate_root: self.crate_root@,
            field_names: self.field_names@.map_values(|n: String| n@),
            seed_unassociated: self.seed_unassociated,
        }
    }
}

/// The two artifacts generation produces.
#[derive(Clone, Debug, PartialEq, Eq)]
pub struct GeneratedArtifacts {
    pub shape: StagingShape,
    pub conversion: ConversionSpec,
}

/// Mathematical image of [`GeneratedArtifacts`].
#[verifier::ext_equal]
pub ghost struct GeneratedArtifactsV {
    pub shape: StagingShapeV,
    pub conversion: ConversionSpecV,
}

impl View for GeneratedArtifacts {
    type V = GeneratedArtifactsV;

    open spec fn view(&self) -> GeneratedArtifactsV {
        GeneratedArtifactsV { shape: self.shape@, conversion: self.conversion@ }
    }
}

/// The staging slot one record field generates.
pub open spec fn staging_field_of(f: FieldSpecV, error_type: Seq<char>) -> StagingFieldDeclV {
    StagingFieldDeclV { name: f.name, value_type: f.declared_type, error_type: error_type }
}

/// The staging shape a spec generates.
pub open spec fn generated_shape(s: StructSpecV) -> StagingShapeV {
    StagingShapeV {
        name: s.staging_name,
        fields: s.fields.map_values(|f: FieldSpecV| staging_field_of(f, s.error_type)),
        additional_errors: if s.collect_unassociated_errors {
            Some(s.error_type)
        } else {
            None
        },
    }
}

/// The conversion description a spec generates.
pub open spec fn generated_conversion(s: StructSpecV) -> ConversionSpecV {
    ConversionSpecV {
        record_name: s.name,
        staging_name: s.staging_name,
        final_error_type: s.final_error_type,
        crate_root: s.crate_root,
        field_names: s.fields.map_values(|f: FieldSpecV| f.name),
        seed_unassociated: s.collect_unassociated_errors,
    }
}

/// Both artifacts a spec generates.
pub open spec fn generated_artifacts(s: StructSpecV) -> GeneratedArtifactsV {
    GeneratedArtifactsV { shape: generated_shape(s), conversion: generated_conversion(s) }
}

/// Derives the staging shape and the conversion description from a spec.
///
/// The result is exactly `generated_artifacts` of the spec's image: one
/// fallible slot per field, in declaration order, each pairing the field's
/// declared type with the spec's error type; the unassociated-error
/// sequence exactly when asked for; and a conversion over the same fields
/// in the same order, failing with the spec's final error type.
#[verifier::loop_isolation(false)]
pub fn generate(spec: &StructSpec) -> (r: GeneratedArtifacts)
    ensures
        r@ == generated_artifacts(spec@),
{
    let mut decls: Vec<StagingFieldDecl> = Vec::new();
    let mut names: Vec<String> = Vec::new();
    let mut i: usize = 0;
    while i < spec.fields.len()
        invariant
            i <= spec.fields.len(),
            decls@.map_values(|d: StagingFieldDecl| d@) == generated_shape(spec@).fields.take(
                i as int,
            ),
            names@.map_values(|n: String| n@) == generated_conversion(spec@).field_names.take(
                i as int,
            ),
        decreases spec.fields.len() - i,
    {
        let f = &spec.fields[i];
        decls.push(
            StagingFieldDecl {
                name: f.name.clone(),
                value_type: f.declared_type.clone(),
                error_type: spec.error_type.clone(),
            },
        );
        names.push(f.name.clone());
        proof {
            assert(spec@.fields[i as int] == f@);
            assert(decls@.map_values(|d: StagingFieldDecl| d@) =~~= generated_shape(
                spec@,
            ).fields.take(i as int + 1));
            assert(names@.map_values(|n: String| n@) =~~= generated_conversion(
                spec@,
            ).field_names.take(i as int + 1));
        }
        i += 1;
    }
    let additional_errors = if spec.collect_unassociated_errors {
        Some(spec.error_type.clone())
    } else {
        None
    };
    let shape = StagingShape { name: spec.staging_name.clone(), fields: decls, additional_errors };
    let conversion = ConversionSpec {
        record_name: spec.name.clone(),
        staging_name: spec.staging_name.clone(),
        final_error_type: spec.final_error_type.clone(),
        crate_root: spec.crate_root.clone(),
        field_names: names,
        seed_unassociated: spec.collect_unassociated_errors,
    };
    let r = GeneratedArtifacts { shape, conversion };
    proof {
        assert(r@ =~~= generated_artifacts(spec@));
    }
    r
}

/// Idempotent generation: the artifacts are a pure function of the spec's
/// image, so two generations from equal specs agree, on the staging shape
/// and on the conversion description alike. Together with the contract of
/// [`generate`], two calls on specs of equal image return artifacts of
/// equal image.
pub proof fn lemma_generation_deterministic(a: StructSpecV, b: StructSpecV)
    requires
        a == b,
    ensures
        generated_artifacts(a) == generated_artifacts(b),
        generated_artifacts(a).shape == generated_artifacts(b).shape,
        generated_artifacts(a).conversion == generated_artifacts(b).conversion,
{
}

} // verus!

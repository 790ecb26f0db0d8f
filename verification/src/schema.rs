//! The schema model: descriptions of one record definition and their
//! validation into a [`StructSpec`].
//!
//! [`build`] is the only way to obtain a [`StructSpec`]; it rejects every
//! description that is not a flat, named-field, non-empty record with
//! pairwise distinct field names and an error type, and fills in the
//! defaulted options.

use vstd::prelude::*;
use vstd::string::StringExecFns;

verus! {

/// Why a record description was rejected.
#[derive(Clone, Copy, Debug, PartialEq, Eq, Structural)]
pub enum SchemaError {
    /// The description does not denote a flat, non-empty, named-field record.
    UnsupportedShape,
    /// Two fields share a name.
    DuplicateField,
    /// No per-field error type was given, and none can be defaulted.
    MissingErrorType,
}

/// One field of a record description: an optional identifier (a positional
/// field has none) and a type reference, which is opaque to the model.
#[derive(Clone, Debug, PartialEq, Eq)]
pub struct FieldDescription {
    pub name: Option<String>,
    pub declared_type: String,
}

/// The shape of definition a description denotes.
#[derive(Clone, Debug, PartialEq, Eq)]
pub enum RecordShape {
    /// A flat record with the given fields.
    Record(Vec<FieldDescription>),
    /// A variant (enum or union) definition; never supported.
    Variant,
}

/// An unvalidated description of one record definition, together with its
/// recognized options.
#[derive(Clone, Debug, PartialEq, Eq)]
pub struct RecordDescription {
    /// Identifier of the final record type.
    pub name: String,
    /// The fields, or the unsupported shape they come in.
    pub shape: RecordShape,
    /// The per-field error type; required.
    pub error_type: Option<String>,
    /// The type the conversion returns on failure; defaults to `error_type`.
    pub final_error_type: Option<String>,
    /// Identifier of the generated staging type; defaults to `<name>Staging`.
    pub staging_name: Option<String>,
    /// Where generated code resolves its support types from.
    pub crate_root: Option<String>,
    /// Whether the staging type carries a sequence of unassociated errors.
    pub collect_unassociated_errors: bool,
}

/// One validated record field: a unique identifier and its declared type.
#[derive(Clone, Debug, PartialEq, Eq)]
pub struct FieldSpec {
    pub name: String,
    pub declared_type: String,
}

/// A validated record definition, ready for generation. Only [`build`]
/// constructs one, so its fields are non-empty and uniquely named.
#[derive(Clone, Debug, PartialEq, Eq)]
pub struct StructSpec {
    pub name: String,
    pub fields: Vec<FieldSpec>,
    pub error_type: String,
    pub final_error_type: String,
    pub staging_name: String,
    pub crate_root: String,
    pub collect_unassociated_errors: bool,
}

/// Mathematical image of a [`FieldSpec`].
#[verifier::ext_equal]
pub ghost struct FieldSpecV {
    pub name: Seq<char>,
    pub declared_type: Seq<char>,
}

impl View for FieldSpec {
    type V = FieldSpecV;

    open spec fn view(&self) -> FieldSpecV {
        FieldSpecV { name: self.name@, declared_type: self.declared_type@ }
    }
}

/// Mathematical image of a [`StructSpec`].
#[verifier::ext_equal]
pub ghost struct StructSpecV {
    pub name: Seq<char>,
    pub fields: Seq<FieldSpecV>,
    pub error_type: Seq<char>,
    pub final_error_type: Seq<char>,
    pub staging_name: Seq<char>,
    pub crate_root: Seq<char>,
    pub collect_unassociated_errors: bool,
}

impl View for StructSpec {
    type V = StructSpecV;

    open spec fn view(&self) -> StructSpecV {
        StructSpecV {
            name: self.name@,
            fields: self.fields@.map_values(|f: FieldSpec| f@),
            error_type: self.error_type@,
            final_error_type: self.final_error_type@,
            staging_name: self.staging_name@,
            crate_root: self.crate_root@,
            collect_unassociated_errors: self.collect_unassociated_errors,
        }
    }
}

/// Mathematical image of a [`FieldDescription`].
#[verifier::ext_equal]
pub ghost struct FieldDescriptionV {
    pub name: Option<Seq<char>>,
    pub declared_type: Seq<char>,
}

impl View for FieldDescription {
    type V = FieldDescriptionV;

    open spec fn view(&self) -> FieldDescriptionV {
        FieldDescriptionV {
            name: match self.name {
                Some(n) => Some(n@),
                None => None,
            },
            declared_type: self.declared_type@,
        }
    }
}

/// Mathematical image of a [`RecordShape`].
#[verifier::ext_equal]
pub ghost enum RecordShapeV {
    Record(Seq<FieldDescriptionV>),
    Variant,
}

impl View for RecordShape {
    type V = RecordShapeV;

    open spec fn view(&self) -> RecordShapeV {
        match self {
            RecordShape::Record(fields) => RecordShapeV::Record(
                fields@.map_values(|f: FieldDescription| f@),
            ),
            RecordShape::Variant => RecordShapeV::Variant,
        }
    }
}

/// Mathematical image of a [`RecordDescription`].
#[verifier::ext_equal]
pub ghost struct RecordDescriptionV {
    pub name: Seq<char>,
    pub shape: RecordShapeV,
    pub error_type: Option<Seq<char>>,
    pub final_error_type: Option<Seq<char>>,
    pub staging_name: Option<Seq<char>>,
    pub crate_root: Option<Seq<char>>,
    pub collect_unassociated_errors: bool,
}

impl View for RecordDescription {
    type V = RecordDescriptionV;

    open spec fn view(&self) -> RecordDescriptionV {
        RecordDescriptionV {
            name: self.name@,
            shape: self.shape@,
            error_type: match self.error_type {
                Some(e) => Some(e@),
                None => None,
            },
            final_error_type: match self.final_error_type {
                Some(e) => Some(e@),
                None => None,
            },
            staging_name: match self.staging_name {
                Some(n) => Some(n@),
                None => None,
            },
            crate_root: match self.crate_root {
                Some(r) => Some(r@),
                None => None,
            },
            collect_unassociated_errors: self.collect_unassociated_errors,
        }
    }
}

/// The description denotes a flat, non-empty record all of whose fields are
/// named.
pub open spec fn shape_supported(d: RecordDescriptionV) -> bool {
    match d.shape {
        RecordShapeV::Record(fields) => fields.len() > 0 && forall|i: int|
            0 <= i < fields.len() ==> fields[i].name is Some,
        RecordShapeV::Variant => false,
    }
}

/// The fields a supported description denotes, with their names resolved.
pub open spec fn described_fields(d: RecordDescriptionV) -> Seq<FieldSpecV> {
    match d.shape {
        RecordShapeV::Record(fields) => fields.map_values(
            |f: FieldDescriptionV| FieldSpecV {
                name: match f.name {
                    Some(n) => n,
                    None => Seq::empty(),
                },
                declared_type: f.declared_type,
            },
        ),
        RecordShapeV::Variant => Seq::empty(),
    }
}

/// No two fields share a name.
pub open spec fn unique_field_names(fields: Seq<FieldSpecV>) -> bool {
    forall|i: int, j: int| 0 <= i < j < fields.len() ==> fields[i].name != fields[j].name
}

/// Invariant of every [`StructSpec`] that [`build`] returns.
pub open spec fn struct_spec_wf(s: StructSpecV) -> bool {
    s.fields.len() > 0 && unique_field_names(s.fields)
}

/// The staging-type identifier used when none is given.
pub open spec fn default_staging_name(name: Seq<char>) -> Seq<char> {
    name + "Staging"@
}

/// The crate root used when none is given.
pub open spec fn default_crate_root() -> Seq<char> {
    "::staging_core"@
}

/// The [`StructSpec`] that a valid description normalizes to.
pub open spec fn built_spec(d: RecordDescriptionV) -> StructSpecV {
    StructSpecV {
        name: d.name,
        fields: described_fields(d),
        error_type: match d.error_type {
            Some(e) => e,
            None => Seq::empty(),
        },
        final_error_type: match d.final_error_type {
            Some(e) => e,
            None => match d.error_type {
                Some(e) => e,
                None => Seq::empty(),
            },
        },
        staging_name: match d.staging_name {
            Some(n) => n,
            None => default_staging_name(d.name),
        },
        crate_root: match d.crate_root {
            Some(r) => r,
            None => default_crate_root(),
        },
        collect_unassociated_errors: d.collect_unassociated_errors,
    }
}

/// Reports whether two of the fields share a name.
fn has_duplicate_name(fields: &Vec<FieldSpec>) -> (dup: bool)
    ensures
        dup == !unique_field_names(fields@.map_values(|f: FieldSpec| f@)),
{
    let ghost fv = fields@.map_values(|f: FieldSpec| f@);
    let mut i: usize = 0;
    while i < fields.len()
        invariant
            i <= fields.len(),
            fv == fields@.map_values(|f: FieldSpec| f@),
            forall|a: int, b: int| 0 <= a < b < fields@.len() && a < i ==> fv[a].name != fv[b].name,
        decreases fields.len() - i,
    {
        let mut j: usize = i + 1;
        while j < fields.len()
            invariant
                i < j <= fields.len(),
                fv == fields@.map_values(|f: FieldSpec| f@),
                forall|b: int| i < b < j ==> fv[i as int].name != fv[b].name,
            decreases fields.len() - j,
        {
            if fields[i].name == fields[j].name {
                proof {
                    assert(fv[i as int].name == fv[j as int].name);
                    assert(!unique_field_names(fv));
                }
                return true;
            }
            j += 1;
        }
        i += 1;
    }
    false
}

/// Validates a record description and normalizes it into a [`StructSpec`].
///
/// Exactly one of four outcomes occurs, decided in this order:
/// `UnsupportedShape` when the description is not a flat, non-empty,
/// named-field record; otherwise `DuplicateField` when two fields share a
/// name; otherwise `MissingErrorType` when no error type is given; otherwise
/// the normalized spec, with the defaults of `built_spec` filled in.
#[verifier::loop_isolation(false)]
pub fn build(desc: RecordDescription) -> (r: Result<StructSpec, SchemaError>)
    ensures
        match r {
            Ok(s) => shape_supported(desc@) && unique_field_names(described_fields(desc@))
                && desc@.error_type is Some && s@ == built_spec(desc@) && struct_spec_wf(s@),
            Err(e) => match e {
                SchemaError::UnsupportedShape => !shape_supported(desc@),
                SchemaError::DuplicateField => shape_supported(desc@)
                    && !unique_field_names(described_fields(desc@)),
                SchemaError::MissingErrorType => shape_supported(desc@)
                    && unique_field_names(described_fields(desc@))
                    && desc@.error_type is None,
            },
        },
{
    let ghost d = desc@;
    let RecordDescription {
        name,
        shape,
        error_type,
        final_error_type,
        staging_name,
        crate_root,
        collect_unassociated_errors,
    } = desc;

    let described = match shape {
        RecordShape::Variant => {
            return Err(SchemaError::UnsupportedShape);
        },
        RecordShape::Record(fields) => fields,
    };
    if described.len() == 0 {
        return Err(SchemaError::UnsupportedShape);
    }

    let ghost dv = described@.map_values(|f: FieldDescription| f@);
    proof {
        assert(d.shape == RecordShapeV::Record(dv));
    }
    let mut fields: Vec<FieldSpec> = Vec::new();
    let mut i: usize = 0;
    while i < described.len()
        invariant
            i <= described.len(),
            described.len() > 0,
            d.shape == RecordShapeV::Record(dv),
            dv == described@.map_values(|f: FieldDescription| f@),
            forall|k: int| 0 <= k < i ==> dv[k].name is Some,
            fields@.map_values(|f: FieldSpec| f@) == described_fields(d).take(i as int),
        decreases described.len() - i,
    {
        let fd = &described[i];
        proof {
            assert(fd@ == dv[i as int]);
        }
        match &fd.name {
            None => {
                proof {
                    assert(dv[i as int].name is None);
                    assert(!shape_supported(d));
                }
                return Err(SchemaError::UnsupportedShape);
            },
            Some(n) => {
                fields.push(FieldSpec { name: n.clone(), declared_type: fd.declared_type.clone() });
            },
        }
        proof {
            assert(fields@.map_values(|f: FieldSpec| f@) =~= described_fields(d).take(i as int + 1));
        }
        i += 1;
    }
    assert(shape_supported(d));
    assert(fields@.map_values(|f: FieldSpec| f@) =~= described_fields(d));

    if has_duplicate_name(&fields) {
        return Err(SchemaError::DuplicateField);
    }

    let error_type = match error_type {
        None => {
            return Err(SchemaError::MissingErrorType);
        },
        Some(e) => e,
    };
    let final_error_type = match final_error_type {
        Some(e) => e,
        None => error_type.clone(),
    };
    let staging_name = match staging_name {
        Some(n) => n,
        None => name.clone().concat("Staging"),
    };
    let crate_root = match crate_root {
        Some(r) => r,
        None => String::from_str("::staging_core"),
    };

    let built = StructSpec {
        name,
        fields,
        error_type,
        final_error_type,
        staging_name,
        crate_root,
        collect_unassociated_errors,
    };
    proof {
        assert(built@ =~= built_spec(d));
    }
    Ok(built)
}

} // verus!

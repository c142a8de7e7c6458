//! Structural validation of the input definition.
//!
//! The host toolkit hands the engine a raw description of the annotated item
//! (`RawInput`). The extractor checks that it is an enum with at least one
//! variant and that every variant carries exactly one unnamed field, and
//! produces the immutable `EnumDescriptor` that every synthesis call consumes.

use vstd::prelude::*;
use vstd::string::StringExecFns;

verus! {

/// One generic parameter of the input type: `decl` is the parameter as it was
/// declared (bounds included, e.g. `T: Clone`), `name` is the bare name usable
/// in type-argument position (e.g. `T`).
pub struct GenericParam {
    pub decl: String,
    pub name: String,
}

#[verifier::ext_equal]
pub struct GenericParamModel {
    pub decl: Seq<char>,
    pub name: Seq<char>,
}

impl View for GenericParam {
    type V = GenericParamModel;

    open spec fn view(&self) -> GenericParamModel {
        GenericParamModel { decl: self.decl@, name: self.name@ }
    }
}

/// One variant of the raw input: its name, the type expressions of its
/// fields in declaration order, and whether the fields are named
/// (struct-like) rather than unnamed (tuple-like).
pub struct RawVariant {
    pub name: String,
    pub field_types: Vec<String>,
    pub fields_named: bool,
}

#[verifier::ext_equal]
pub struct RawVariantModel {
    pub name: Seq<char>,
    pub field_types: Seq<Seq<char>>,
    pub fields_named: bool,
}

impl View for RawVariant {
    type V = RawVariantModel;

    open spec fn view(&self) -> RawVariantModel {
        RawVariantModel {
            name: self.name@,
            field_types: self.field_types@.map_values(|t: String| t@),
            fields_named: self.fields_named,
        }
    }
}

/// The body of the raw input definition: the variant list if it is an enum,
/// or a marker for the other definition shapes the host can hand over.
pub enum RawBody {
    Enum(Vec<RawVariant>),
    Struct,
    Union,
}

#[verifier::ext_equal]
pub enum RawBodyModel {
    Enum(Seq<RawVariantModel>),
    Struct,
    Union,
}

impl View for RawBody {
    type V = RawBodyModel;

    open spec fn view(&self) -> RawBodyModel {
        match self {
            RawBody::Enum(vs) => RawBodyModel::Enum(vs@.map_values(|v: RawVariant| v@)),
            RawBody::Struct => RawBodyModel::Struct,
            RawBody::Union => RawBodyModel::Union,
        }
    }
}

/// The raw definition as the host toolkit parsed it.
pub struct RawInput {
    pub name: String,
    pub generics: Vec<GenericParam>,
    pub body: RawBody,
}

#[verifier::ext_equal]
pub struct RawInputModel {
    pub name: Seq<char>,
    pub generics: Seq<GenericParamModel>,
    pub body: RawBodyModel,
}

impl View for RawInput {
    type V = RawInputModel;

    open spec fn view(&self) -> RawInputModel {
        RawInputModel {
            name: self.name@,
            generics: self.generics@.map_values(|g: GenericParam| g@),
            body: self.body@,
        }
    }
}

/// A validated variant: its name and the type of its single payload field.
pub struct Variant {
    pub name: String,
    pub payload: String,
}

#[verifier::ext_equal]
pub struct VariantModel {
    pub name: Seq<char>,
    pub payload: Seq<char>,
}

impl View for Variant {
    type V = VariantModel;

    open spec fn view(&self) -> VariantModel {
        VariantModel { name: self.name@, payload: self.payload@ }
    }
}

/// The validated descriptor: read-only input of every synthesis call.
/// Variant order is exactly the declaration order of the input.
pub struct EnumDescriptor {
    pub name: String,
    pub generics: Vec<GenericParam>,
    pub variants: Vec<Variant>,
}

#[verifier::ext_equal]
pub struct EnumDescriptorModel {
    pub name: Seq<char>,
    pub generics: Seq<GenericParamModel>,
    pub variants: Seq<VariantModel>,
}

impl View for EnumDescriptor {
    type V = EnumDescriptorModel;

    open spec fn view(&self) -> EnumDescriptorModel {
        EnumDescriptorModel {
            name: self.name@,
            generics: self.generics@.map_values(|g: GenericParam| g@),
            variants: self.variants@.map_values(|v: Variant| v@),
        }
    }
}

/// Why the input was rejected. Every variant-shaped error names the
/// offending variant.
#[derive(Debug)]
pub enum ValidationError {
    /// The definition is not an enum.
    NotAnEnum,
    /// The enum declares no variants.
    NoVariants,
    /// A variant has named (struct-like) fields.
    NamedFields { variant: String },
    /// A variant has a number of unnamed fields other than one.
    WrongFieldCount { variant: String, count: usize },
}

#[verifier::ext_equal]
pub enum ValidationErrorModel {
    NotAnEnum,
    NoVariants,
    NamedFields { variant: Seq<char> },
    WrongFieldCount { variant: Seq<char>, count: nat },
}

impl View for ValidationError {
    type V = ValidationErrorModel;

    open spec fn view(&self) -> ValidationErrorModel {
        match self {
            ValidationError::NotAnEnum => ValidationErrorModel::NotAnEnum,
            ValidationError::NoVariants => ValidationErrorModel::NoVariants,
            ValidationError::NamedFields { variant } => ValidationErrorModel::NamedFields {
                variant: variant@,
            },
            ValidationError::WrongFieldCount { variant, count } => {
                ValidationErrorModel::WrongFieldCount { variant: variant@, count: *count as nat }
            },
        }
    }
}

/// The decimal digits of `n`, most significant first.
pub open spec fn spec_dec_digits(n: nat) -> Seq<char>
    decreases n,
{
    if n < 10 {
        seq![spec_digit_char(n)]
    } else {
        spec_dec_digits(n / 10) + seq![spec_digit_char(n % 10)]
    }
}

pub open spec fn spec_digit_char(d: nat) -> char {
    if d == 0 {
        '0'
    } else if d == 1 {
        '1'
    } else if d == 2 {
        '2'
    } else if d == 3 {
        '3'
    } else if d == 4 {
        '4'
    } else if d == 5 {
        '5'
    } else if d == 6 {
        '6'
    } else if d == 7 {
        '7'
    } else if d == 8 {
        '8'
    } else {
        '9'
    }
}

fn push_dec(out: &mut String, n: usize)
    ensures
        final(out)@ == old(out)@ + spec_dec_digits(n as nat),
    decreases n,
{
    if n >= 10 {
        push_dec(out, n / 10);
    }
    let d: usize = n % 10;
    match d {
        0 => out.append("0"),
        1 => out.append("1"),
        2 => out.append("2"),
        3 => out.append("3"),
        4 => out.append("4"),
        5 => out.append("5"),
        6 => out.append("6"),
        7 => out.append("7"),
        8 => out.append("8"),
        _ => out.append("9"),
    }
    proof {
        reveal_strlit("0");
        reveal_strlit("1");
        reveal_strlit("2");
        reveal_strlit("3");
        reveal_strlit("4");
        reveal_strlit("5");
        reveal_strlit("6");
        reveal_strlit("7");
        reveal_strlit("8");
        reveal_strlit("9");
        assert(out@ =~= old(out)@ + spec_dec_digits(n as nat));
    }
}

/// The diagnostic for a rejected input: it names the offending variant and
/// the expected shape.
pub open spec fn spec_message(e: ValidationErrorModel) -> Seq<char> {
    match e {
        ValidationErrorModel::NotAnEnum => "may only be used on enums"@,
        ValidationErrorModel::NoVariants => "may not be used on enums without variants"@,
        ValidationErrorModel::NamedFields { variant } => {
            "may not be used on enums with variants with named fields: `"@ + variant + "`"@
        },
        ValidationErrorModel::WrongFieldCount { variant, count } => {
            "may only be used on enums whose variants have exactly one field: `"@ + variant
                + "` has "@ + spec_dec_digits(count) + " fields"@
        },
    }
}

impl ValidationError {
    /// The user-visible diagnostic for this error.
    pub fn message(&self) -> (r: String)
        ensures
            r@ == spec_message(self@),
    {
        match self {
            ValidationError::NotAnEnum => "may only be used on enums".to_owned(),
            ValidationError::NoVariants => "may not be used on enums without variants".to_owned(),
            ValidationError::NamedFields { variant } => {
                let mut out =
                    "may not be used on enums with variants with named fields: `".to_owned();
                out.append(variant.as_str());
                out.append("`");
                proof {
                    assert(out@ =~= spec_message(self@));
                }
                out
            },
            ValidationError::WrongFieldCount { variant, count } => {
                let mut out =
                    "may only be used on enums whose variants have exactly one field: `"
                    .to_owned();
                out.append(variant.as_str());
                out.append("` has ");
                push_dec(&mut out, *count);
                out.append(" fields");
                proof {
                    assert(out@ =~= spec_message(self@));
                }
                out
            },
        }
    }
}

/// A variant is acceptable exactly when it carries one unnamed field.
pub open spec fn variant_ok(v: RawVariantModel) -> bool {
    &&& !v.fields_named
    &&& v.field_types.len() == 1
}

/// The error reported for an unacceptable variant.
pub open spec fn variant_error(v: RawVariantModel) -> ValidationErrorModel {
    if v.fields_named {
        ValidationErrorModel::NamedFields { variant: v.name }
    } else {
        ValidationErrorModel::WrongFieldCount { variant: v.name, count: v.field_types.len() }
    }
}

pub open spec fn all_variants_ok(vs: Seq<RawVariantModel>) -> bool {
    forall|i: int| 0 <= i < vs.len() ==> variant_ok(#[trigger] vs[i])
}

/// Index of the first unacceptable variant (meaningful only when one exists).
pub open spec fn first_bad_variant(vs: Seq<RawVariantModel>) -> int
    decreases vs.len(),
{
    if vs.len() == 0 {
        0
    } else if !variant_ok(vs[0]) {
        0
    } else {
        1 + first_bad_variant(vs.drop_first())
    }
}

/// The descriptor produced from an all-acceptable variant list, in
/// declaration order.
pub open spec fn spec_descriptor(input: RawInputModel, vs: Seq<RawVariantModel>) -> EnumDescriptorModel {
    EnumDescriptorModel {
        name: input.name,
        generics: input.generics,
        variants: vs.map_values(
            |v: RawVariantModel| VariantModel { name: v.name, payload: v.field_types[0] },
        ),
    }
}

/// What extraction returns, as a function of the raw input alone.
pub open spec fn spec_extract(input: RawInputModel) -> Result<EnumDescriptorModel, ValidationErrorModel> {
    match input.body {
        RawBodyModel::Enum(vs) => {
            if vs.len() == 0 {
                Err(ValidationErrorModel::NoVariants)
            } else if all_variants_ok(vs) {
                Ok(spec_descriptor(input, vs))
            } else {
                Err(variant_error(vs[first_bad_variant(vs)]))
            }
        },
        RawBodyModel::Struct => Err(ValidationErrorModel::NotAnEnum),
        RawBodyModel::Union => Err(ValidationErrorModel::NotAnEnum),
    }
}

/// View of an extraction result, for stating the contract of `extract`.
pub open spec fn extract_result_view(r: Result<EnumDescriptor, ValidationError>) -> Result<
    EnumDescriptorModel,
    ValidationErrorModel,
> {
    match r {
        Ok(d) => Ok(d@),
        Err(e) => Err(e@),
    }
}

proof fn lemma_first_bad_variant_at(vs: Seq<RawVariantModel>, i: int)
    requires
        0 <= i < vs.len(),
        !variant_ok(vs[i]),
        forall|j: int| 0 <= j < i ==> variant_ok(#[trigger] vs[j]),
    ensures
        first_bad_variant(vs) == i,
    decreases i,
{
    if i > 0 {
        assert(forall|j: int| 0 <= j < i - 1 ==> variant_ok(#[trigger] vs.drop_first()[j])) by {
            assert(forall|j: int| 0 <= j < i - 1 ==> #[trigger] vs.drop_first()[j] == vs[j + 1]);
        }
        assert(vs.drop_first()[i - 1] == vs[i]);
        lemma_first_bad_variant_at(vs.drop_first(), i - 1);
    }
}

fn clone_generics(gs: &Vec<GenericParam>) -> (r: Vec<GenericParam>)
    ensures
        r@.map_values(|g: GenericParam| g@) == gs@.map_values(|g: GenericParam| g@),
{
    let mut out: Vec<GenericParam> = Vec::new();
    let mut i: usize = 0;
    while i < gs.len()
        invariant
            i <= gs.len(),
            out.len() == i,
            forall|j: int| 0 <= j < i ==> #[trigger] out@[j]@ == gs@[j]@,
        decreases gs.len() - i,
    {
        let g = &gs[i];
        out.push(GenericParam { decl: g.decl.clone(), name: g.name.clone() });
        i = i + 1;
    }
    proof {
        assert(out@.map_values(|g: GenericParam| g@) =~= gs@.map_values(|g: GenericParam| g@));
    }
    out
}

/// Validate the raw definition and build the descriptor.
///
/// Succeeds exactly when the input is an enum whose every variant carries one
/// unnamed field; otherwise reports `NotAnEnum`, `NoVariants`, or an error
/// naming the first offending variant in declaration order.
pub fn extract(input: &RawInput) -> (r: Result<EnumDescriptor, ValidationError>)
    ensures
        extract_result_view(r) == spec_extract(input@),
{
    match &input.body {
        RawBody::Struct => Err(ValidationError::NotAnEnum),
        RawBody::Union => Err(ValidationError::NotAnEnum),
        RawBody::Enum(vs) => {
            let ghost vsm = vs@.map_values(|v: RawVariant| v@);
            if vs.len() == 0 {
                return Err(ValidationError::NoVariants);
            }
            let mut variants: Vec<Variant> = Vec::new();
            let mut i: usize = 0;
            while i < vs.len()
                invariant
                    i <= vs.len(),
                    variants.len() == i,
                    vsm == vs@.map_values(|v: RawVariant| v@),
                    vsm.len() == vs@.len(),
                    input@.body == RawBodyModel::Enum(vsm),
                    vsm.len() > 0,
                    forall|j: int| 0 <= j < i ==> variant_ok(#[trigger] vsm[j]),
                    forall|j: int|
                        0 <= j < i ==> #[trigger] variants@[j]@ == (VariantModel {
                            name: vsm[j].name,
                            payload: vsm[j].field_types[0],
                        }),
                decreases vs.len() - i,
            {
                let v = &vs[i];
                proof {
                    assert(input@.body == RawBodyModel::Enum(vsm));
                    assert(vsm[i as int] == vs@[i as int]@);
                }
                if v.fields_named {
                    proof {
                        lemma_first_bad_variant_at(vsm, i as int);
                        assert(variant_error(vsm[i as int]) == (ValidationErrorModel::NamedFields {
                            variant: v.name@,
                        }));
                    }
                    return Err(ValidationError::NamedFields { variant: v.name.clone() });
                }
                if v.field_types.len() != 1 {
                    proof {
                        lemma_first_bad_variant_at(vsm, i as int);
                        assert(vsm[i as int].field_types.len() == v.field_types@.len());
                        assert(variant_error(vsm[i as int])
                            == (ValidationErrorModel::WrongFieldCount {
                            variant: v.name@,
                            count: v.field_types@.len(),
                        }));
                    }
                    return Err(
                        ValidationError::WrongFieldCount {
                            variant: v.name.clone(),
                            count: v.field_types.len(),
                        },
                    );
                }
                variants.push(Variant { name: v.name.clone(), payload: v.field_types[0].clone() });
                i = i + 1;
            }
            let d = EnumDescriptor {
                name: input.name.clone(),
                generics: clone_generics(&input.generics),
                variants,
            };
            proof {
                assert(d@.variants =~= spec_descriptor(input@, vsm).variants);
                assert(d@ =~= spec_descriptor(input@, vsm));
            }
            Ok(d)
        },
    }
}

} // verus!

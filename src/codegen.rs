use vstd::prelude::*;

use crate::decl::{
    strings_view, Data, DataModel, DeclModel, FieldModel, Fields, FieldsModel, NamedField,
    TypeDecl, Variant, VariantModel,
};
use crate::text::{comma_list, decimal, join_comma, push_decimal, push_string};

verus! {

/// Why a declaration gets no generated impl.
#[derive(Clone, Copy, Debug, PartialEq, Eq)]
pub enum DeriveError {
    /// The declaration is a union: its fields overlap in storage, so there is
    /// no field-wise duplicate to build.
    Union,
}

impl DeriveError {
    /// The diagnostic shown to the type's author.
    pub fn message(&self) -> (r: String)
        ensures
            r@ == "LightClone derive is not supported for unions."@,
    {
        String::from_str("LightClone derive is not supported for unions.")
    }
}

// ---- what the generator emits, as text ----

/// The marker's duplicate operation applied to `arg`.
pub open spec fn marker_call(arg: Seq<char>) -> Seq<char> {
    "light_clone::LightClone::light_clone("@ + arg + ")"@
}

/// The requirement that `ty` carries the marker.
pub open spec fn marker_bound(ty: Seq<char>) -> Seq<char> {
    ty + ": light_clone::LightClone"@
}

/// One named field of a struct, rebuilt from its duplicate.
pub open spec fn named_struct_field(f: FieldModel) -> Seq<char> {
    f.name + ": "@ + marker_call("&self."@ + f.name)
}

/// The duplicate of a struct with named fields.
pub open spec fn named_struct_body(fs: Seq<FieldModel>) -> Seq<char> {
    "Self { "@ + comma_list(fs.map_values(|f: FieldModel| named_struct_field(f))) + " }"@
}

/// The positional field `i` of a struct, duplicated.
pub open spec fn unnamed_struct_field(i: nat) -> Seq<char> {
    marker_call("&self."@ + decimal(i))
}

/// The duplicate of a struct with `n` positional fields.
pub open spec fn unnamed_struct_body(n: nat) -> Seq<char> {
    "Self("@ + comma_list(Seq::new(n, |i: int| unnamed_struct_field(i as nat))) + ")"@
}

/// The binding for positional field `i` of a variant.
pub open spec fn binding(i: nat) -> Seq<char> {
    "__field_"@ + decimal(i)
}

/// One named field of a variant, rebuilt from the duplicate of its binding.
pub open spec fn named_variant_field(f: FieldModel) -> Seq<char> {
    f.name + ": "@ + marker_call(f.name)
}

/// The match arm for a variant with named fields.
pub open spec fn named_variant_arm(v: Seq<char>, fs: Seq<FieldModel>) -> Seq<char> {
    "Self::"@ + v + " { "@ + comma_list(fs.map_values(|f: FieldModel| f.name)) + " } => Self::"@
        + v + " { "@ + comma_list(fs.map_values(|f: FieldModel| named_variant_field(f)))
        + " }"@
}

/// The match arm for a variant with `n` positional fields.
pub open spec fn unnamed_variant_arm(v: Seq<char>, n: nat) -> Seq<char> {
    "Self::"@ + v + "("@ + comma_list(Seq::new(n, |i: int| binding(i as nat))) + ") => Self::"@
        + v + "("@ + comma_list(Seq::new(n, |i: int| marker_call(binding(i as nat)))) + ")"@
}

/// The match arm for a variant without payload.
pub open spec fn unit_variant_arm(v: Seq<char>) -> Seq<char> {
    "Self::"@ + v + " => Self::"@ + v
}

/// The match arm for one variant, by its shape.
pub open spec fn variant_arm(v: VariantModel) -> Seq<char> {
    match v.fields {
        FieldsModel::Named(fs) => named_variant_arm(v.name, fs),
        FieldsModel::Unnamed(ts) => unnamed_variant_arm(v.name, ts.len()),
        FieldsModel::Unit => unit_variant_arm(v.name),
    }
}

/// The duplicate of a struct.
pub open spec fn struct_body(fs: FieldsModel) -> Seq<char> {
    match fs {
        FieldsModel::Named(fs) => named_struct_body(fs),
        FieldsModel::Unnamed(ts) => unnamed_struct_body(ts.len()),
        FieldsModel::Unit => "Self"@,
    }
}

/// The duplicate of an enum with at least one variant.
pub open spec fn enum_body(vs: Seq<VariantModel>) -> Seq<char> {
    "match self { "@ + comma_list(vs.map_values(|v: VariantModel| variant_arm(v))) + " }"@
}

/// The body for a type without values: a match on the impossible value.
pub open spec fn uninhabited_body() -> Seq<char> {
    "match *self {}"@
}

/// The types of the fields of one shape, in order.
pub open spec fn fields_types(fs: FieldsModel) -> Seq<Seq<char>> {
    match fs {
        FieldsModel::Named(fs) => fs.map_values(|f: FieldModel| f.ty),
        FieldsModel::Unnamed(ts) => ts,
        FieldsModel::Unit => Seq::empty(),
    }
}

/// The field types of all variants, variant by variant.
pub open spec fn variants_types(vs: Seq<VariantModel>) -> Seq<Seq<char>>
    decreases vs.len(),
{
    if vs.len() == 0 {
        Seq::empty()
    } else {
        variants_types(vs.drop_last()) + fields_types(vs.last().fields)
    }
}

/// The types of every field of the declaration.
pub open spec fn field_types(d: DataModel) -> Seq<Seq<char>> {
    match d {
        DataModel::Struct(fs) => fields_types(fs),
        DataModel::Enum(vs) => variants_types(vs),
        DataModel::Union => Seq::empty(),
    }
}

/// The where-clause of the generated impls: the declaration's own
/// predicates, then the marker for each type parameter, then the marker for
/// each field type.
pub open spec fn bounds(d: DeclModel) -> Seq<Seq<char>> {
    d.where_predicates + d.type_params.map_values(|p: Seq<char>| marker_bound(p))
        + field_types(d.data).map_values(|t: Seq<char>| marker_bound(t))
}

/// The where-clause over the given predicates; nothing when there are none.
pub open spec fn where_text(preds: Seq<Seq<char>>) -> Seq<char> {
    if preds.len() == 0 {
        Seq::empty()
    } else {
        " where "@ + comma_list(preds)
    }
}

/// The head of an impl of `trait_path` for the declared type.
pub open spec fn impl_header(d: DeclModel, trait_path: Seq<char>) -> Seq<char> {
    "impl"@ + d.impl_generics + " "@ + trait_path + " for "@ + d.name + d.ty_generics
        + where_text(bounds(d))
}

/// The impl of the marker with the given body, followed by the impl of
/// `Clone` with the given body.
pub open spec fn impls_text(d: DeclModel, marker_body: Seq<char>, clone_body: Seq<char>) -> Seq<
    char,
> {
    impl_header(d, "light_clone::LightClone"@) + " { fn light_clone(&self) -> Self { "@
        + marker_body + " } } "@ + impl_header(d, "::core::clone::Clone"@)
        + " { fn clone(&self) -> Self { "@ + clone_body + " } }"@
}

/// `Clone` that forwards to the marker's duplicate operation.
pub open spec fn forward_body() -> Seq<char> {
    marker_call("self"@)
}

/// What the generator emits for a declaration.
pub open spec fn derive_spec(d: DeclModel) -> Result<Seq<char>, DeriveError> {
    match d.data {
        DataModel::Union => Err(DeriveError::Union),
        DataModel::Struct(fs) => Ok(impls_text(d, struct_body(fs), forward_body())),
        DataModel::Enum(vs) => if vs.len() == 0 {
            Ok(impls_text(d, uninhabited_body(), uninhabited_body()))
        } else {
            Ok(impls_text(d, enum_body(vs), forward_body()))
        },
    }
}

// ---- the generator ----

/// Appends the marker's duplicate operation applied to `arg`.
fn push_marker_call(out: &mut String, arg: &str)
    ensures
        final(out)@ == old(out)@ + marker_call(arg@),
{
    out.append("light_clone::LightClone::light_clone(");
    out.append(arg);
    out.append(")");
    assert(final(out)@ =~= old(out)@ + marker_call(arg@));
}

/// `&self.` followed by `member`.
fn self_member(member: &str) -> (r: String)
    ensures
        r@ == "&self."@ + member@,
{
    let mut r = String::from_str("&self.");
    r.append(member);
    r
}

/// The binding for positional field `i` of a variant.
fn binding_text(i: usize) -> (r: String)
    ensures
        r@ == binding(i as nat),
{
    let mut r = String::from_str("__field_");
    push_decimal(&mut r, i);
    r
}

/// The duplicate of a struct with named fields: each field rebuilt by name
/// from the duplicate of `self`'s field.
pub fn generate_named_struct_clones(fields: &Vec<NamedField>) -> (r: String)
    ensures
        r@ == named_struct_body(fields@.map_values(|f: NamedField| f@)),
{
    let ghost fs = fields@.map_values(|f: NamedField| f@);
    let mut parts: Vec<String> = Vec::new();
    let mut i: usize = 0;
    while i < fields.len()
        invariant
            i <= fields.len(),
            fs == fields@.map_values(|f: NamedField| f@),
            parts@.len() == i,
            forall|j: int| 0 <= j < i ==> #[trigger] parts@[j]@ == named_struct_field(fs[j]),
        decreases fields.len() - i,
    {
        let name = fields[i].name.as_str();
        let mut part = String::new();
        part.append(name);
        part.append(": ");
        let arg = self_member(name);
        push_marker_call(&mut part, arg.as_str());
        assert(part@ =~= named_struct_field(fs[i as int]));
        parts.push(part);
        i = i + 1;
    }
    let joined = join_comma(&parts);
    assert(parts@.map_values(|s: String| s@) =~= fs.map_values(
        |f: FieldModel| named_struct_field(f),
    ));
    let mut out = String::new();
    out.append("Self { ");
    out.append(joined.as_str());
    out.append(" }");
    assert(out@ =~= named_struct_body(fs));
    out
}


/// The duplicate of a struct with positional fields: each position filled
/// with the duplicate of `self`'s field at that position.
pub fn generate_unnamed_struct_clones(fields: &Vec<String>) -> (r: String)
    ensures
        r@ == unnamed_struct_body(fields@.len()),
{
    let ghost n = fields@.len();
    let mut parts: Vec<String> = Vec::new();
    let mut i: usize = 0;
    while i < fields.len()
        invariant
            i <= fields.len(),
            n == fields@.len(),
            parts@.len() == i,
            forall|j: int| 0 <= j < i ==> #[trigger] parts@[j]@ == unnamed_struct_field(j as nat),
        decreases fields.len() - i,
    {
        let mut index = String::new();
        push_decimal(&mut index, i);
        let arg = self_member(index.as_str());
        let mut part = String::new();
        push_marker_call(&mut part, arg.as_str());
        assert(part@ =~= unnamed_struct_field(i as nat));
        parts.push(part);
        i = i + 1;
    }
    let joined = join_comma(&parts);
    assert(parts@.map_values(|s: String| s@) =~= Seq::new(n, |j: int| unnamed_struct_field(j as nat)));
    let mut out = String::new();
    out.append("Self(");
    out.append(joined.as_str());
    out.append(")");
    assert(out@ =~= unnamed_struct_body(n));
    out
}

/// The match arm for a variant with named fields: the fields are bound by
/// name and the variant rebuilt from their duplicates.
pub fn generate_named_variant_arm(variant_ident: &String, fields: &Vec<NamedField>) -> (r: String)
    ensures
        r@ == named_variant_arm(variant_ident@, fields@.map_values(|f: NamedField| f@)),
{
    let ghost fs = fields@.map_values(|f: NamedField| f@);
    let mut names: Vec<String> = Vec::new();
    let mut clones: Vec<String> = Vec::new();
    let mut i: usize = 0;
    while i < fields.len()
        invariant
            i <= fields.len(),
            fs == fields@.map_values(|f: NamedField| f@),
            names@.len() == i,
            clones@.len() == i,
            forall|j: int| 0 <= j < i ==> #[trigger] names@[j]@ == fs[j].name,
            forall|j: int| 0 <= j < i ==> #[trigger] clones@[j]@ == named_variant_field(fs[j]),
        decreases fields.len() - i,
    {
        let name = fields[i].name.as_str();
        names.push(fields[i].name.clone());
        let mut part = String::new();
        part.append(name);
        part.append(": ");
        push_marker_call(&mut part, name);
        assert(part@ =~= named_variant_field(fs[i as int]));
        clones.push(part);
        i = i + 1;
    }
    let bound = join_comma(&names);
    let rebuilt = join_comma(&clones);
    assert(names@.map_values(|s: String| s@) =~= fs.map_values(|f: FieldModel| f.name));
    assert(clones@.map_values(|s: String| s@) =~= fs.map_values(
        |f: FieldModel| named_variant_field(f),
    ));
    let v = variant_ident.as_str();
    let mut out = String::from_str("Self::");
    out.append(v);
    out.append(" { ");
    out.append(bound.as_str());
    out.append(" } => Self::");
    out.append(v);
    out.append(" { ");
    out.append(rebuilt.as_str());
    out.append(" }");
    assert(out@ =~= named_variant_arm(variant_ident@, fs));
    out
}

/// The match arm for a variant with positional fields: the fields are bound
/// to `__field_0`, `__field_1`, ... and the variant rebuilt from their
/// duplicates.
pub fn generate_unnamed_variant_arm(variant_ident: &String, fields: &Vec<String>) -> (r: String)
    ensures
        r@ == unnamed_variant_arm(variant_ident@, fields@.len()),
{
    let ghost n = fields@.len();
    let mut bindings: Vec<String> = Vec::new();
    let mut clones: Vec<String> = Vec::new();
    let mut i: usize = 0;
    while i < fields.len()
        invariant
            i <= fields.len(),
            n == fields@.len(),
            bindings@.len() == i,
            clones@.len() == i,
            forall|j: int| 0 <= j < i ==> #[trigger] bindings@[j]@ == binding(j as nat),
            forall|j: int| 0 <= j < i ==> #[trigger] clones@[j]@ == marker_call(binding(j as nat)),
        decreases fields.len() - i,
    {
        let b = binding_text(i);
        let mut part = String::new();
        push_marker_call(&mut part, b.as_str());
        bindings.push(b);
        clones.push(part);
        i = i + 1;
    }
    let bound = join_comma(&bindings);
    let rebuilt = join_comma(&clones);
    assert(bindings@.map_values(|s: String| s@) =~= Seq::new(n, |j: int| binding(j as nat)));
    assert(clones@.map_values(|s: String| s@) =~= Seq::new(
        n,
        |j: int| marker_call(binding(j as nat)),
    ));
    let v = variant_ident.as_str();
    let mut out = String::from_str("Self::");
    out.append(v);
    out.append("(");
    out.append(bound.as_str());
    out.append(") => Self::");
    out.append(v);
    out.append("(");
    out.append(rebuilt.as_str());
    out.append(")");
    assert(out@ =~= unnamed_variant_arm(variant_ident@, n));
    out
}

/// The match arm for a variant without payload.
pub fn generate_unit_variant_arm(variant_ident: &String) -> (r: String)
    ensures
        r@ == unit_variant_arm(variant_ident@),
{
    let v = variant_ident.as_str();
    let mut out = String::from_str("Self::");
    out.append(v);
    out.append(" => Self::");
    out.append(v);
    assert(out@ =~= unit_variant_arm(variant_ident@));
    out
}


/// The match arm for one variant, by its shape.
fn generate_variant_arm(variant: &Variant) -> (r: String)
    ensures
        r@ == variant_arm(variant@),
{
    match &variant.fields {
        Fields::Named(fields) => generate_named_variant_arm(&variant.name, fields),
        Fields::Unnamed(fields) => generate_unnamed_variant_arm(&variant.name, fields),
        Fields::Unit => generate_unit_variant_arm(&variant.name),
    }
}

/// The duplicate of a struct, by its shape.
fn generate_struct_body(fields: &Fields) -> (r: String)
    ensures
        r@ == struct_body(fields@),
{
    match fields {
        Fields::Named(fields) => generate_named_struct_clones(fields),
        Fields::Unnamed(fields) => generate_unnamed_struct_clones(fields),
        Fields::Unit => String::from_str("Self"),
    }
}

/// The duplicate of an enum with at least one variant: a match with one arm
/// per variant, in order.
fn generate_enum_body(variants: &Vec<Variant>) -> (r: String)
    ensures
        r@ == enum_body(variants@.map_values(|v: Variant| v@)),
{
    let ghost vs = variants@.map_values(|v: Variant| v@);
    let mut arms: Vec<String> = Vec::new();
    let mut i: usize = 0;
    while i < variants.len()
        invariant
            i <= variants.len(),
            vs == variants@.map_values(|v: Variant| v@),
            arms@.len() == i,
            forall|j: int| 0 <= j < i ==> #[trigger] arms@[j]@ == variant_arm(vs[j]),
        decreases variants.len() - i,
    {
        arms.push(generate_variant_arm(&variants[i]));
        i = i + 1;
    }
    let joined = join_comma(&arms);
    assert(arms@.map_values(|s: String| s@) =~= vs.map_values(|v: VariantModel| variant_arm(v)));
    let mut out = String::from_str("match self { ");
    out.append(joined.as_str());
    out.append(" }");
    assert(out@ =~= enum_body(vs));
    out
}

/// Appends the types of one field shape.
fn push_field_types(out: &mut Vec<String>, fields: &Fields)
    ensures
        strings_view(final(out)@) == strings_view(old(out)@) + fields_types(fields@),
{
    let ghost start = strings_view(out@);
    match fields {
        Fields::Named(fs) => {
            let ghost fm = fs@.map_values(|f: NamedField| f@);
            let mut i: usize = 0;
            while i < fs.len()
                invariant
                    i <= fs.len(),
                    fm == fs@.map_values(|f: NamedField| f@),
                    strings_view(out@) =~= start + fm.take(i as int).map_values(
                        |f: FieldModel| f.ty,
                    ),
                decreases fs.len() - i,
            {
                push_string(out, fs[i].ty.clone());
                i = i + 1;
                assert(fm.take(i as int).map_values(|f: FieldModel| f.ty) =~= fm.take(
                    i - 1,
                ).map_values(|f: FieldModel| f.ty).push(fm[i - 1].ty));
            }
            assert(fm.take(fs.len() as int) =~= fm);
        },
        Fields::Unnamed(ts) => {
            let ghost tm = strings_view(ts@);
            let mut i: usize = 0;
            while i < ts.len()
                invariant
                    i <= ts.len(),
                    tm == strings_view(ts@),
                    strings_view(out@) =~= start + tm.take(i as int),
                decreases ts.len() - i,
            {
                push_string(out, ts[i].clone());
                i = i + 1;
                assert(tm.take(i as int) =~= tm.take(i - 1).push(tm[i - 1]));
            }
            assert(tm.take(ts.len() as int) =~= tm);
        },
        Fields::Unit => {
            assert(strings_view(out@) =~= start + fields_types(fields@));
        },
    }
}

/// The field types of one more variant follow those of the ones before.
proof fn lemma_variants_types_step(vs: Seq<VariantModel>, i: int)
    requires
        0 <= i < vs.len(),
    ensures
        variants_types(vs.take(i + 1)) == variants_types(vs.take(i)) + fields_types(vs[i].fields),
{
    assert(vs.take(i + 1).drop_last() =~= vs.take(i));
}

/// The types of every field of the declaration, variant by variant.
fn collect_field_types(data: &Data) -> (r: Vec<String>)
    ensures
        strings_view(r@) == field_types(data@),
{
    let mut out: Vec<String> = Vec::new();
    assert(strings_view(out@) =~= Seq::empty());
    match data {
        Data::Struct(fields) => {
            push_field_types(&mut out, fields);
            assert(strings_view(out@) =~= field_types(data@));
        },
        Data::Enum(variants) => {
            let ghost vs = variants@.map_values(|v: Variant| v@);
            let mut i: usize = 0;
            while i < variants.len()
                invariant
                    i <= variants.len(),
                    vs == variants@.map_values(|v: Variant| v@),
                    strings_view(out@) == variants_types(vs.take(i as int)),
                decreases variants.len() - i,
            {
                proof {
                    lemma_variants_types_step(vs, i as int);
                }
                push_field_types(&mut out, &variants[i].fields);
                i = i + 1;
            }
            assert(vs.take(variants.len() as int) =~= vs);
        },
        Data::Union => {},
    }
    out
}

/// Appends the requirement that each of `tys` carries the marker.
fn push_marker_bounds(out: &mut Vec<String>, tys: &Vec<String>)
    ensures
        strings_view(final(out)@) == strings_view(old(out)@) + strings_view(tys@).map_values(
            |t: Seq<char>| marker_bound(t),
        ),
{
    let ghost start = strings_view(out@);
    let ghost tm = strings_view(tys@).map_values(|t: Seq<char>| marker_bound(t));
    let mut i: usize = 0;
    while i < tys.len()
        invariant
            i <= tys.len(),
            tm == strings_view(tys@).map_values(|t: Seq<char>| marker_bound(t)),
            strings_view(out@) =~= start + tm.take(i as int),
        decreases tys.len() - i,
    {
        let mut b = tys[i].clone();
        b.append(": light_clone::LightClone");
        push_string(out, b);
        i = i + 1;
        assert(tm.take(i as int) =~= tm.take(i - 1).push(tm[i - 1]));
    }
    assert(tm.take(tys.len() as int) =~= tm);
}

/// The predicates of the generated impls: the declaration's own ones, kept,
/// then the marker for each type parameter and for each field type.
pub fn synthesize_bounds(decl: &TypeDecl) -> (r: Vec<String>)
    ensures
        strings_view(r@) == bounds(decl@),
{
    let mut out: Vec<String> = Vec::new();
    let ghost wp = strings_view(decl.where_predicates@);
    let mut i: usize = 0;
    while i < decl.where_predicates.len()
        invariant
            i <= decl.where_predicates.len(),
            wp == strings_view(decl.where_predicates@),
            strings_view(out@) =~= wp.take(i as int),
        decreases decl.where_predicates.len() - i,
    {
        push_string(&mut out, decl.where_predicates[i].clone());
        i = i + 1;
        assert(wp.take(i as int) =~= wp.take(i - 1).push(wp[i - 1]));
    }
    assert(wp.take(decl.where_predicates.len() as int) =~= wp);
    push_marker_bounds(&mut out, &decl.type_params);
    let tys = collect_field_types(&decl.data);
    push_marker_bounds(&mut out, &tys);
    out
}

/// The where-clause for the given predicates, empty when there are none.
fn where_clause_text(preds: &Vec<String>) -> (r: String)
    ensures
        r@ == where_text(strings_view(preds@)),
{
    if preds.len() == 0 {
        let r = String::new();
        assert(r@ =~= where_text(strings_view(preds@)));
        r
    } else {
        let joined = join_comma(preds);
        let mut r = String::from_str(" where ");
        r.append(joined.as_str());
        r
    }
}

/// The head of an impl of `trait_path` for the declared type, with the given
/// where-clause.
fn impl_header_text(decl: &TypeDecl, trait_path: &str, where_clause: &String) -> (r: String)
    requires
        where_clause@ == where_text(bounds(decl@)),
    ensures
        r@ == impl_header(decl@, trait_path@),
{
    let mut r = String::from_str("impl");
    r.append(decl.impl_generics.as_str());
    r.append(" ");
    r.append(trait_path);
    r.append(" for ");
    r.append(decl.name.as_str());
    r.append(decl.ty_generics.as_str());
    r.append(where_clause.as_str());
    assert(r@ =~= impl_header(decl@, trait_path@));
    r
}

/// The impl of the marker with `marker_body`, then the impl of `Clone` with
/// `clone_body`.
fn generate_impls(decl: &TypeDecl, marker_body: &String, clone_body: &String) -> (r: String)
    ensures
        r@ == impls_text(decl@, marker_body@, clone_body@),
{
    let preds = synthesize_bounds(decl);
    let where_clause = where_clause_text(&preds);
    let marker_head = impl_header_text(decl, "light_clone::LightClone", &where_clause);
    let clone_head = impl_header_text(decl, "::core::clone::Clone", &where_clause);
    let mut r = marker_head;
    r.append(" { fn light_clone(&self) -> Self { ");
    r.append(marker_body.as_str());
    r.append(" } } ");
    r.append(clone_head.as_str());
    r.append(" { fn clone(&self) -> Self { ");
    r.append(clone_body.as_str());
    r.append(" } }");
    assert(r@ =~= impls_text(decl@, marker_body@, clone_body@));
    r
}

/// Generates the impl of the marker for a declaration, and the impl of
/// `Clone` that forwards to it; a union is refused.
pub fn derive_light_clone_impl(decl: &TypeDecl) -> (r: Result<String, DeriveError>)
    ensures
        match r {
            Ok(text) => derive_spec(decl@) == Ok::<Seq<char>, DeriveError>(text@),
            Err(e) => derive_spec(decl@) == Err::<Seq<char>, DeriveError>(e),
        },
{
    match &decl.data {
        Data::Struct(fields) => {
            let body = generate_struct_body(fields);
            let mut forward = String::new();
            push_marker_call(&mut forward, "self");
            assert(forward@ =~= forward_body());
            Ok(generate_impls(decl, &body, &forward))
        },
        Data::Enum(variants) => {
            if variants.len() == 0 {
                let body = String::from_str("match *self {}");
                Ok(generate_impls(decl, &body, &body))
            } else {
                let body = generate_enum_body(variants);
                let mut forward = String::new();
                push_marker_call(&mut forward, "self");
                assert(forward@ =~= forward_body());
                Ok(generate_impls(decl, &body, &forward))
            }
        },
        Data::Union => Err(DeriveError::Union),
    }
}


/// The derive for the marker: the impl of `LightClone` whose duplicate is
/// built field by field, the impl of `Clone` that forwards to it, and a
/// where-clause that asks the marker of every type parameter and every field
/// type. A union is refused.
///
/// The emitted `Clone` impl means that the declared type must not have a
/// `Clone` impl of its own.
pub fn derive_light_clone(decl: &TypeDecl) -> (r: Result<String, DeriveError>)
    ensures
        match r {
            Ok(text) => derive_spec(decl@) == Ok::<Seq<char>, DeriveError>(text@),
            Err(e) => derive_spec(decl@) == Err::<Seq<char>, DeriveError>(e),
        },
{
    derive_light_clone_impl(decl)
}

/// The derive under its legacy name: the same output as
/// `derive_light_clone`.
pub fn derive_lc_clone(decl: &TypeDecl) -> (r: Result<String, DeriveError>)
    ensures
        match r {
            Ok(text) => derive_spec(decl@) == Ok::<Seq<char>, DeriveError>(text@),
            Err(e) => derive_spec(decl@) == Err::<Seq<char>, DeriveError>(e),
        },
{
    derive_light_clone_impl(decl)
}

// ---- laws of the generator ----

/// A declaration is refused exactly when it is a union.
pub proof fn lemma_only_unions_refused(d: DeclModel)
    ensures
        derive_spec(d).is_err() <==> d.data is Union,
{
}

/// The generated where-clause keeps every predicate the declaration had, in
/// place, and asks the marker of every type parameter and of every field
/// type: a derive over a field whose type lacks the marker cannot compile.
pub proof fn lemma_every_field_bounded(d: DeclModel)
    ensures
        forall|k: int|
            0 <= k < d.where_predicates.len() ==> #[trigger] bounds(d)[k]
                == d.where_predicates[k],
        forall|k: int|
            0 <= k < d.type_params.len() ==> bounds(d).contains(
                marker_bound(#[trigger] d.type_params[k]),
            ),
        forall|k: int|
            0 <= k < field_types(d.data).len() ==> bounds(d).contains(
                marker_bound(#[trigger] field_types(d.data)[k]),
            ),
        d.where_predicates.len() + d.type_params.len() + field_types(d.data).len() > 0 ==> (
        where_text(bounds(d)) == " where "@ + comma_list(bounds(d))),
{
    let wp = d.where_predicates;
    let tp = d.type_params.map_values(|p: Seq<char>| marker_bound(p));
    let ft = field_types(d.data).map_values(|t: Seq<char>| marker_bound(t));
    assert forall|k: int| 0 <= k < d.type_params.len() implies bounds(d).contains(
        marker_bound(#[trigger] d.type_params[k]),
    ) by {
        assert(bounds(d)[wp.len() + k] == tp[k]);
    }
    assert forall|k: int| 0 <= k < field_types(d.data).len() implies bounds(d).contains(
        marker_bound(#[trigger] field_types(d.data)[k]),
    ) by {
        assert(bounds(d)[wp.len() + tp.len() + k] == ft[k]);
    }
}

/// Every field of a struct is duplicated through the marker: the generated
/// duplicate holds, for each field and in order, one marker call on that
/// field and nothing else.
pub proof fn lemma_struct_fields_duplicated_through_marker(d: DeclModel)
    requires
        d.data is Struct,
    ensures
        derive_spec(d) == Ok::<Seq<char>, DeriveError>(
            impls_text(d, struct_body(d.data->Struct_0), forward_body()),
        ),
        match d.data->Struct_0 {
            FieldsModel::Named(fs) => struct_body(d.data->Struct_0) == "Self { "@ + comma_list(
                Seq::new(
                    fs.len(),
                    |k: int| fs[k].name + ": "@ + marker_call("&self."@ + fs[k].name),
                ),
            ) + " }"@,
            FieldsModel::Unnamed(ts) => struct_body(d.data->Struct_0) == "Self("@ + comma_list(
                Seq::new(ts.len(), |k: int| marker_call("&self."@ + decimal(k as nat))),
            ) + ")"@,
            FieldsModel::Unit => struct_body(d.data->Struct_0) == "Self"@,
        },
{
    match d.data->Struct_0 {
        FieldsModel::Named(fs) => {
            assert(fs.map_values(|f: FieldModel| named_struct_field(f)) =~= Seq::new(
                fs.len(),
                |k: int| fs[k].name + ": "@ + marker_call("&self."@ + fs[k].name),
            ));
        },
        FieldsModel::Unnamed(ts) => {
            assert(Seq::new(ts.len(), |i: int| unnamed_struct_field(i as nat)) =~= Seq::new(
                ts.len(),
                |k: int| marker_call("&self."@ + decimal(k as nat)),
            ));
        },
        FieldsModel::Unit => {},
    }
}

/// For every inhabited declaration the emitted `Clone` does nothing but
/// call the marker's duplicate operation, so the two agree on every value.
pub proof fn lemma_clone_forwards_to_marker(d: DeclModel)
    requires
        !(d.data is Union),
        !(d.data matches DataModel::Enum(vs) && vs.len() == 0),
    ensures
        derive_spec(d) is Ok,
        exists|body: Seq<char>|
            derive_spec(d) == Ok::<Seq<char>, DeriveError>(
                #[trigger] impls_text(d, body, forward_body()),
            ),
{
    match d.data {
        DataModel::Struct(fs) => {
            assert(derive_spec(d) == Ok::<Seq<char>, DeriveError>(
                impls_text(d, struct_body(fs), forward_body()),
            ));
        },
        DataModel::Enum(vs) => {
            assert(derive_spec(d) == Ok::<Seq<char>, DeriveError>(
                impls_text(d, enum_body(vs), forward_body()),
            ));
        },
        DataModel::Union => {},
    }
}

/// A type without values still gets both impls, each a match on the
/// impossible value.
pub proof fn lemma_uninhabited_still_derives(d: DeclModel)
    requires
        d.data matches DataModel::Enum(vs) && vs.len() == 0,
    ensures
        derive_spec(d) == Ok::<Seq<char>, DeriveError>(
            impls_text(d, uninhabited_body(), uninhabited_body()),
        ),
{
}

/// Generating twice for the same declaration gives the same text: the
/// output depends on the declaration alone.
pub proof fn lemma_derive_deterministic(
    a: TypeDecl,
    b: TypeDecl,
    ra: Result<String, DeriveError>,
    rb: Result<String, DeriveError>,
)
    requires
        a@ == b@,
        match ra {
            Ok(text) => derive_spec(a@) == Ok::<Seq<char>, DeriveError>(text@),
            Err(e) => derive_spec(a@) == Err::<Seq<char>, DeriveError>(e),
        },
        match rb {
            Ok(text) => derive_spec(b@) == Ok::<Seq<char>, DeriveError>(text@),
            Err(e) => derive_spec(b@) == Err::<Seq<char>, DeriveError>(e),
        },
    ensures
        ra is Ok <==> rb is Ok,
        ra is Ok ==> ra->Ok_0@ == rb->Ok_0@,
        ra is Err ==> ra->Err_0 == rb->Err_0,
{
}

} // verus!

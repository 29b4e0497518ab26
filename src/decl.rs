use vstd::prelude::*;

verus! {

/// A named field of a struct or of an enum variant: its name and the text
/// of its declared type.
#[derive(Clone, Debug, PartialEq, Eq)]
pub struct NamedField {
    pub name: String,
    pub ty: String,
}

/// The field shape of a struct or of an enum variant. Positional fields are
/// given by the text of their types, in order.
#[derive(Clone, Debug, PartialEq, Eq)]
pub enum Fields {
    Named(Vec<NamedField>),
    Unnamed(Vec<String>),
    Unit,
}

/// One variant of an enum.
#[derive(Clone, Debug, PartialEq, Eq)]
pub struct Variant {
    pub name: String,
    pub fields: Fields,
}

/// What a declaration holds.
#[derive(Clone, Debug, PartialEq, Eq)]
pub enum Data {
    Struct(Fields),
    Enum(Vec<Variant>),
    Union,
}

/// A type declaration as the generator reads it.
///
/// `impl_generics` and `ty_generics` are the generic parameter lists as they
/// stand after `impl` and after the type's name (with their angle brackets,
/// or empty); `type_params` names the type parameters; `where_predicates`
/// holds the predicates of the declaration's own where-clause.
#[derive(Clone, Debug, PartialEq, Eq)]
pub struct TypeDecl {
    pub name: String,
    pub impl_generics: String,
    pub ty_generics: String,
    pub type_params: Vec<String>,
    pub where_predicates: Vec<String>,
    pub data: Data,
}

/// A named field, as text.
pub struct FieldModel {
    pub name: Seq<char>,
    pub ty: Seq<char>,
}

/// A field shape, as text.
pub enum FieldsModel {
    Named(Seq<FieldModel>),
    Unnamed(Seq<Seq<char>>),
    Unit,
}

/// A variant, as text.
pub struct VariantModel {
    pub name: Seq<char>,
    pub fields: FieldsModel,
}

/// What a declaration holds, as text.
pub enum DataModel {
    Struct(FieldsModel),
    Enum(Seq<VariantModel>),
    Union,
}

/// A type declaration, as text.
pub struct DeclModel {
    pub name: Seq<char>,
    pub impl_generics: Seq<char>,
    pub ty_generics: Seq<char>,
    pub type_params: Seq<Seq<char>>,
    pub where_predicates: Seq<Seq<char>>,
    pub data: DataModel,
}

/// The texts of a sequence of strings.
pub open spec fn strings_view(v: Seq<String>) -> Seq<Seq<char>> {
    v.map_values(|s: String| s@)
}

impl View for NamedField {
    type V = FieldModel;

    open spec fn view(&self) -> FieldModel {
        FieldModel { name: self.name@, ty: self.ty@ }
    }
}

impl View for Fields {
    type V = FieldsModel;

    open spec fn view(&self) -> FieldsModel {
        match self {
            Fields::Named(fs) => FieldsModel::Named(fs@.map_values(|f: NamedField| f@)),
            Fields::Unnamed(ts) => FieldsModel::Unnamed(strings_view(ts@)),
            Fields::Unit => FieldsModel::Unit,
        }
    }
}

impl View for Variant {
    type V = VariantModel;

    open spec fn view(&self) -> VariantModel {
        VariantModel { name: self.name@, fields: self.fields@ }
    }
}

impl View for Data {
    type V = DataModel;

    open spec fn view(&self) -> DataModel {
        match self {
            Data::Struct(fs) => DataModel::Struct(fs@),
            Data::Enum(vs) => DataModel::Enum(vs@.map_values(|v: Variant| v@)),
            Data::Union => DataModel::Union,
        }
    }
}

impl View for TypeDecl {
    type V = DeclModel;

    open spec fn view(&self) -> DeclModel {
        DeclModel {
            name: self.name@,
            impl_generics: self.impl_generics@,
            ty_generics: self.ty_generics@,
            type_params: strings_view(self.type_params@),
            where_predicates: strings_view(self.where_predicates@),
            data: self.data@,
        }
    }
}

} // verus!

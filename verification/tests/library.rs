// The library's functions one by one, with their edge cases.

#![allow(dead_code)]

use typestate_builder::generate::derive_from_model;
use typestate_builder::model::{
    ArgumentsModel, AttrArgs, AttributeModel, BoundKind, BoundModel, DataModel, DeriveInputModel,
    FieldModel, FieldsModel, GenericArgModel, SegmentModel, TypeModel,
};

fn segment(ident: &str, args: Vec<TypeModel>) -> SegmentModel {
    SegmentModel {
        ident: ident.to_string(),
        arguments: if args.is_empty() {
            ArgumentsModel::Bare
        } else {
            ArgumentsModel::AngleBracketed(args.into_iter().map(GenericArgModel::Type).collect())
        },
    }
}

fn path(ident: &str, args: Vec<TypeModel>) -> TypeModel {
    TypeModel::Path(vec![segment(ident, args)])
}

fn field(name: &str, ty_text: &str, ty: TypeModel) -> FieldModel {
    FieldModel { name: name.to_string(), ty_text: ty_text.to_string(), ty, attrs: vec![] }
}

fn plain(name: &str, ty: &str) -> FieldModel {
    field(name, ty, path(ty, vec![]))
}

fn incomplete(mut f: FieldModel) -> FieldModel {
    f.attrs.push(AttributeModel { path_ident: Some("incomplete".to_string()), args: AttrArgs::Absent });
    f
}

fn with_default(mut f: FieldModel, tokens: &str) -> FieldModel {
    f.attrs.push(AttributeModel {
        path_ident: Some("default".to_string()),
        args: AttrArgs::Expression(tokens.to_string()),
    });
    f
}

fn bound(text: &str) -> BoundModel {
    BoundModel { kind: BoundKind::Trait, text: text.to_string() }
}

fn dyn_field(name: &str, wrapper: &str, bounds: &[&str]) -> FieldModel {
    let dyn_ty = TypeModel::TraitObject(bounds.iter().map(|b| bound(b)).collect());
    let text = format!("{}<dyn {}>", wrapper, bounds.join(" + "));
    field(name, &text, path(wrapper, vec![dyn_ty]))
}

fn derive(name: &str, fields: Vec<FieldModel>) -> String {
    let input = DeriveInputModel {
        ident: name.to_string(),
        data: DataModel::Struct(FieldsModel::Named(fields)),
    };
    let text = derive_from_model(&input).unwrap();
    assert!(syn::parse_file(&text).is_ok(), "not Rust: {}", text);
    text
}

fn has(text: &str, piece: &str) {
    assert!(text.contains(piece), "missing `{}` in:\n{}", piece, text);
}

use typestate_builder::analysis::{analyze_field_type, is_arc_dyn_trait, is_box_dyn_trait, WrapperType};
use typestate_builder::attrs::{extract_default_value, find_invalid_default, has_any_incomplete_fields, has_default_attr, has_incomplete_attr};
use typestate_builder::categorize::{
    categorize_field, create_builder_name, create_type_alias_name, field_name_to_type_param, FieldCategory,
};
use typestate_builder::generate::{
    extract_fields, generate_build_method, generate_builder_methods, generate_builder_struct,
    generate_constructor, generate_type_aliases, DeriveError,
};

fn input(data: DataModel) -> DeriveInputModel {
    DeriveInputModel { ident: "Thing".to_string(), data }
}

fn attr(path: Option<&str>, args: AttrArgs) -> AttributeModel {
    AttributeModel { path_ident: path.map(|p| p.to_string()), args }
}

fn expr(tokens: &str) -> AttrArgs {
    AttrArgs::Expression(tokens.to_string())
}

#[test]
fn enum_is_refused() {
    let r = derive_from_model(&input(DataModel::Enum));
    assert_eq!(r, Err(DeriveError::NotStruct));
    assert_eq!(DeriveError::NotStruct.message(), "Builder can only be derived for structs");
}

#[test]
fn union_is_refused() {
    assert_eq!(derive_from_model(&input(DataModel::Union)), Err(DeriveError::NotStruct));
}

#[test]
fn tuple_and_unit_structs_are_refused() {
    assert_eq!(
        derive_from_model(&input(DataModel::Struct(FieldsModel::Unnamed))),
        Err(DeriveError::NotNamedFields)
    );
    assert_eq!(derive_from_model(&input(DataModel::Struct(FieldsModel::Unit))), Err(DeriveError::NotNamedFields));
    assert_eq!(
        DeriveError::NotNamedFields.message(),
        "Builder can only be derived for structs with named fields"
    );
}

#[test]
fn extract_fields_gives_the_named_fields() {
    let i = input(DataModel::Struct(FieldsModel::Named(vec![plain("a", "u8"), plain("b", "u16")])));
    let fields = extract_fields(&i).unwrap();
    assert_eq!(fields.len(), 2);
    assert_eq!(fields[1].name, "b");
    assert!(extract_fields(&input(DataModel::Enum)).is_err());
}

#[test]
fn struct_without_fields() {
    let text = derive("Empty", vec![]);
    assert_eq!(
        text,
        "struct EmptyBuilder<> {  }  impl EmptyBuilder<> { pub fn new() -> Self { Self {  } } } impl<> EmptyBuilder<> { } impl EmptyBuilder<> { pub fn build(self) -> Empty { Empty {  } } }"
    );
}

#[test]
fn type_param_names() {
    assert_eq!(field_name_to_type_param(&"api_key".to_string()), "ApiKey");
    assert_eq!(field_name_to_type_param(&"x".to_string()), "X");
    assert_eq!(field_name_to_type_param(&"Already".to_string()), "Already");
    assert_eq!(field_name_to_type_param(&"éclair".to_string()), "éclair");
    assert_eq!(field_name_to_type_param(&"_port".to_string()), "_Port");
    assert_eq!(field_name_to_type_param(&"port".to_string()), "Port");
    assert_eq!(field_name_to_type_param(&String::new()), "");
}

#[test]
fn item_names() {
    assert_eq!(create_builder_name(&"Config".to_string()), "ConfigBuilder");
    assert_eq!(create_type_alias_name(&"Config".to_string(), "Incomplete"), "ConfigIncomplete");
}

#[test]
fn arc_detection() {
    let arc = TypeModel::Path(vec![
        segment("std", vec![]),
        segment("sync", vec![]),
        segment("Arc", vec![TypeModel::TraitObject(vec![bound("Log"), bound("Send")])]),
    ]);
    let bounds = is_arc_dyn_trait(&arc).unwrap();
    assert_eq!(bounds.len(), 2);
    assert_eq!(bounds[1].text, "Send");
    assert!(is_box_dyn_trait(&arc).is_none());
    assert!(matches!(analyze_field_type(&arc), WrapperType::Arc(_)));

    let arc_string = path("Arc", vec![path("String", vec![])]);
    assert!(is_arc_dyn_trait(&arc_string).is_none());
    let rc = path("Rc", vec![TypeModel::TraitObject(vec![bound("Log")])]);
    assert!(is_arc_dyn_trait(&rc).is_none());
    assert!(matches!(analyze_field_type(&rc), WrapperType::Plain));
    assert!(is_arc_dyn_trait(&path("Arc", vec![])).is_none());
    assert!(is_arc_dyn_trait(&TypeModel::TraitObject(vec![bound("Log")])).is_none());
    assert!(is_arc_dyn_trait(&TypeModel::Path(vec![])).is_none());
    let parenthesized = TypeModel::Path(vec![SegmentModel { ident: "Arc".to_string(), arguments: ArgumentsModel::Parenthesized }]);
    assert!(is_arc_dyn_trait(&parenthesized).is_none());
    let lifetime_first = TypeModel::Path(vec![SegmentModel {
        ident: "Arc".to_string(),
        arguments: ArgumentsModel::AngleBracketed(vec![GenericArgModel::Other, GenericArgModel::Type(TypeModel::TraitObject(vec![bound("Log")]))]),
    }]);
    assert!(is_arc_dyn_trait(&lifetime_first).is_none());
}

#[test]
fn box_detection() {
    let boxed = path("Box", vec![TypeModel::TraitObject(vec![bound("Fn(u8) -> u8")])]);
    assert_eq!(is_box_dyn_trait(&boxed).unwrap()[0].text, "Fn(u8) -> u8");
    assert!(is_arc_dyn_trait(&boxed).is_none());
    assert!(matches!(analyze_field_type(&boxed), WrapperType::Box(_)));
}

#[test]
fn lifetime_bound_suppresses_static() {
    let ty = path(
        "Box",
        vec![TypeModel::TraitObject(vec![bound("Log"), BoundModel { kind: BoundKind::Lifetime, text: "'a".to_string() }])],
    );
    let text = derive("Holder", vec![field("log", "Box<dyn Log + 'a>", ty)]);
    assert!(text.contains("pub fn with_log(self, log: impl Log + 'a) -> HolderBuilder<Box<dyn Log + 'a>> { HolderBuilder { log: Box::new(log),  } } "));
    assert!(!text.contains("'static"));
}

#[test]
fn incomplete_attribute() {
    let f = incomplete(plain("a", "u8"));
    assert!(has_incomplete_attr(&f));
    let mut g = plain("a", "u8");
    g.attrs.push(attr(None, AttrArgs::Absent));
    g.attrs.push(attr(Some("incompletes"), AttrArgs::Absent));
    assert!(!has_incomplete_attr(&g));
}

#[test]
fn default_values() {
    let f = with_default(plain("f", "u8"), "Arc::new(DefaultFormatter)");
    assert_eq!(extract_default_value(&f), Some("Arc::new(DefaultFormatter)".to_string()));
    assert!(has_default_attr(&f));

    let mut bad = plain("f", "u8");
    bad.attrs.push(attr(Some("default"), AttrArgs::NotExpression));
    assert_eq!(extract_default_value(&bad), None);
    assert!(!has_default_attr(&bad));

    let mut bare = plain("f", "u8");
    bare.attrs.push(attr(Some("default"), AttrArgs::Absent));
    assert_eq!(extract_default_value(&bare), None);

    let mut qualified = plain("f", "u8");
    qualified.attrs.push(attr(None, expr("5")));
    assert_eq!(extract_default_value(&qualified), None);

    let mut second = plain("f", "u8");
    second.attrs.push(attr(Some("default"), AttrArgs::NotExpression));
    second.attrs.push(attr(Some("default"), expr("7")));
    second.attrs.push(attr(Some("default"), expr("8")));
    assert_eq!(extract_default_value(&second), Some("7".to_string()));
}

#[test]
fn invalid_defaults_are_found() {
    let mut bad = plain("b", "u8");
    bad.attrs.push(attr(Some("incomplete"), AttrArgs::Absent));
    bad.attrs.push(attr(Some("default"), AttrArgs::NotExpression));
    let mut bare = plain("c", "u8");
    bare.attrs.push(attr(Some("default"), AttrArgs::Absent));
    let mut other = plain("d", "u8");
    other.attrs.push(attr(Some("serde"), AttrArgs::NotExpression));
    let good = with_default(plain("a", "u8"), "1");
    assert_eq!(find_invalid_default(&[good, bad, bare]), Some((1, 1)));
    let good = with_default(plain("a", "u8"), "1");
    assert_eq!(find_invalid_default(&[good, other]), None);
}

#[test]
fn default_takes_precedence_over_incomplete() {
    let f = with_default(incomplete(plain("level", "u8")), "3");
    let c = categorize_field(&f);
    assert!(matches!(c.category, FieldCategory::Default { ref value, .. } if value == "3"));
    assert!(!c.has_incomplete);
    assert!(!has_any_incomplete_fields(&[f]));

    let g = incomplete(plain("level", "u8"));
    let c = categorize_field(&g);
    assert!(matches!(c.category, FieldCategory::Regular { .. }));
    assert!(c.has_incomplete);
    assert!(has_any_incomplete_fields(&[plain("a", "u8"), g]));
}

#[test]
fn unparsable_default_is_refused() {
    let mut bad = plain("n", "u8");
    bad.attrs.push(attr(Some("default"), AttrArgs::NotExpression));
    let i = input(DataModel::Struct(FieldsModel::Named(vec![plain("m", "u8"), bad])));
    let r = derive_from_model(&i);
    assert_eq!(r, Err(DeriveError::InvalidDefault { field: 1, attr: 0 }));
    assert_eq!(
        DeriveError::InvalidDefault { field: 1, attr: 0 }.message(),
        "expected a single expression: #[default(expression)]"
    );
}

#[test]
fn bare_default_is_refused() {
    let mut bare = plain("n", "u8");
    bare.attrs.push(attr(Some("default"), AttrArgs::Absent));
    let i = input(DataModel::Struct(FieldsModel::Named(vec![bare])));
    assert_eq!(derive_from_model(&i), Err(DeriveError::InvalidDefault { field: 0, attr: 0 }));
}

#[test]
fn shape_errors_come_before_default_errors() {
    assert_eq!(derive_from_model(&input(DataModel::Enum)), Err(DeriveError::NotStruct));
}

#[test]
fn generators_one_by_one() {
    let fields = vec![plain("host", "String"), incomplete(plain("port", "u16")), with_default(plain("tries", "u8"), "2")];
    let b = "NetBuilder".to_string();
    let s = "Net".to_string();
    assert_eq!(generate_builder_struct(&b, &fields), "struct NetBuilder<Host, Port> { host: Host, port: Port, tries: u8 }");
    assert_eq!(generate_type_aliases(&s, &b, &fields), "pub type NetIncomplete = NetBuilder<String, ()>;");
    assert_eq!(generate_type_aliases(&s, &b, &fields[..1]), "");
    assert_eq!(generate_constructor(&b, &fields), "impl NetBuilder<(), ()> { pub fn new() -> Self { Self { host: (), port: (), tries: 2 } } }");
    assert_eq!(
        generate_builder_methods(&b, &fields),
        "impl<Host, Port> NetBuilder<Host, Port> { \
         pub fn with_host(self, host: String) -> NetBuilder<String, Port> { NetBuilder { host, port: self.port, tries: self.tries } } \
         pub fn with_port(self, port: u16) -> NetBuilder<Host, u16> { NetBuilder { port, host: self.host, tries: self.tries } } \
         pub fn with_tries(mut self, tries: u8) -> Self { self.tries = tries; self } }"
    );
    assert_eq!(
        generate_build_method(&s, &b, &fields),
        "impl NetBuilder<String, u16> { pub fn build(self) -> Net { Net { host: self.host, port: self.port, tries: self.tries } } }"
    );
}

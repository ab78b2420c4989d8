use derive_error_kind::decl::{Arg, AttrArgs, Attribute, Data, Declaration, FieldShape, Variant};
use derive_error_kind::eval::{eval_kind, Fields, KindValue, Value};
use derive_error_kind::method::{error_kind, ArmBody, KindMethod, Pattern};
use derive_error_kind::plan::{find_attribute, get_kind_ty, resolve_variant, DeriveError, Resolution};

fn path(s: &str) -> Arg {
    Arg::Path(s.to_string())
}

fn attr(args: Vec<Arg>) -> Attribute {
    Attribute { path: "error_kind".to_string(), args: AttrArgs::List(args) }
}

fn direct(k: &str, v: &str) -> Attribute {
    attr(vec![path(k), path(v)])
}

fn transparent() -> Attribute {
    attr(vec![path("transparent")])
}

fn variant(name: &str, attrs: Vec<Attribute>, fields: FieldShape) -> Variant {
    Variant { name: name.to_string(), attrs, fields }
}

fn enum_decl(name: &str, attrs: Vec<Attribute>, variants: Vec<Variant>) -> Declaration {
    Declaration { name: name.to_string(), attrs, data: Data::Enum(variants) }
}

fn value(ty: &str, variant: &str, fields: Fields) -> Value {
    Value { ty: ty.to_string(), variant: variant.to_string(), fields }
}

fn kind(k: &str, v: &str) -> Option<KindValue> {
    Some(KindValue { kind_enum: k.to_string(), kind_variant: v.to_string() })
}

fn cache_decl() -> Declaration {
    enum_decl(
        "CacheError",
        vec![attr(vec![path("ErrorType")])],
        vec![
            variant("Poisoned", vec![direct("ErrorType", "A")], FieldShape::NoFields),
            variant("Missing", vec![direct("ErrorType", "B")], FieldShape::NoFields),
        ],
    )
}

fn service_decl() -> Declaration {
    enum_decl(
        "ServiceError",
        vec![attr(vec![path("ErrorType")])],
        vec![
            variant("Cache", vec![transparent()], FieldShape::UnnamedFields(1)),
            variant("Db", vec![direct("ErrorType", "C")], FieldShape::NoFields),
        ],
    )
}

fn derived(d: &Declaration) -> KindMethod {
    error_kind(d).unwrap()
}

#[test]
fn cache_and_service_scenario() {
    let methods = vec![derived(&cache_decl()), derived(&service_decl())];
    let nested = value(
        "ServiceError",
        "Cache",
        Fields::Wrapping(Box::new(value("CacheError", "Missing", Fields::Unit))),
    );
    assert_eq!(eval_kind(&methods, &nested), kind("ErrorType", "B"));
    assert_eq!(eval_kind(&methods, &value("ServiceError", "Db", Fields::Unit)), kind("ErrorType", "C"));
    assert_eq!(eval_kind(&methods, &value("CacheError", "Poisoned", Fields::Unit)), kind("ErrorType", "A"));
}

#[test]
fn delegation_through_two_levels() {
    let app = enum_decl(
        "AppError",
        vec![attr(vec![path("ErrorType")])],
        vec![
            variant("Service", vec![transparent()], FieldShape::UnnamedFields(1)),
            variant("Config", vec![direct("ErrorType", "A")], FieldShape::NamedFields),
        ],
    );
    let methods = vec![derived(&app), derived(&service_decl()), derived(&cache_decl())];
    let inner = value("CacheError", "Missing", Fields::Unit);
    let middle = value("ServiceError", "Cache", Fields::Wrapping(Box::new(inner)));
    let outer = value("AppError", "Service", Fields::Wrapping(Box::new(middle)));
    assert_eq!(eval_kind(&methods, &outer), kind("ErrorType", "B"));
    let poisoned = value(
        "AppError",
        "Service",
        Fields::Wrapping(Box::new(value(
            "ServiceError",
            "Cache",
            Fields::Wrapping(Box::new(value("CacheError", "Poisoned", Fields::Unit))),
        ))),
    );
    assert_eq!(eval_kind(&methods, &poisoned), kind("ErrorType", "A"));
    let db = value("AppError", "Service", Fields::Wrapping(Box::new(value("ServiceError", "Db", Fields::Unit))));
    assert_eq!(eval_kind(&methods, &db), kind("ErrorType", "C"));
}

#[test]
fn direct_variants_of_every_shape() {
    let d = enum_decl(
        "MyError",
        vec![attr(vec![path("ErrorKind")])],
        vec![
            variant("ResourceNotFound", vec![direct("ErrorKind", "NotFound")], FieldShape::NoFields),
            variant("BadRequest", vec![direct("ErrorKind", "InvalidInput")], FieldShape::NamedFields),
            variant("ServerError", vec![direct("ErrorKind", "InternalError")], FieldShape::UnnamedFields(1)),
            variant("Pair", vec![direct("ErrorKind", "InternalError")], FieldShape::UnnamedFields(2)),
        ],
    );
    let m = derived(&d);
    assert_eq!(m.owner, "MyError");
    assert_eq!(m.return_kind, "ErrorKind");
    let patterns: Vec<Pattern> = m.arms.iter().map(|a| a.pattern).collect();
    assert_eq!(
        patterns,
        vec![Pattern::Bare, Pattern::IgnoreNamed, Pattern::IgnorePositional, Pattern::IgnorePositional]
    );
    let methods = vec![m];
    assert_eq!(eval_kind(&methods, &value("MyError", "ResourceNotFound", Fields::Unit)), kind("ErrorKind", "NotFound"));
    let named = Fields::Named(vec![("details".to_string(), 7)]);
    assert_eq!(eval_kind(&methods, &value("MyError", "BadRequest", named)), kind("ErrorKind", "InvalidInput"));
    let unnamed = Fields::Unnamed(vec![42]);
    assert_eq!(eval_kind(&methods, &value("MyError", "ServerError", unnamed)), kind("ErrorKind", "InternalError"));
    let pair = Fields::Unnamed(vec![1, 2]);
    assert_eq!(eval_kind(&methods, &value("MyError", "Pair", pair)), kind("ErrorKind", "InternalError"));
}

#[test]
fn field_values_do_not_change_the_kind() {
    let named = enum_decl(
        "Named",
        vec![attr(vec![path("K")])],
        vec![variant("V", vec![direct("K", "X")], FieldShape::NamedFields)],
    );
    let unit = enum_decl("Unit", vec![attr(vec![path("K")])], vec![variant("V", vec![direct("K", "X")], FieldShape::NoFields)]);
    let methods = vec![derived(&named), derived(&unit)];
    let a = value("Named", "V", Fields::Named(vec![("code".to_string(), 0), ("len".to_string(), 99)]));
    let b = value("Named", "V", Fields::Named(vec![("code".to_string(), u64::MAX), ("len".to_string(), 1)]));
    let c = value("Unit", "V", Fields::Unit);
    assert_eq!(eval_kind(&methods, &a), kind("K", "X"));
    assert_eq!(eval_kind(&methods, &b), kind("K", "X"));
    assert_eq!(eval_kind(&methods, &c), kind("K", "X"));
}

#[test]
fn regenerating_gives_the_same_method() {
    let first = derived(&service_decl());
    let cache = derived(&cache_decl());
    let again = derived(&service_decl());
    assert_eq!(first, again);
    assert_eq!(cache, derived(&cache_decl()));
}

#[test]
fn delegating_arm_binds_inner() {
    let m = derived(&service_decl());
    assert_eq!(m.arms[0].variant, "Cache");
    assert_eq!(m.arms[0].pattern, Pattern::BindInner);
    assert_eq!(m.arms[0].body, ArmBody::CallInner);
    assert_eq!(
        m.arms[1].body,
        ArmBody::Literal { kind_enum: "ErrorType".to_string(), kind_variant: "C".to_string() }
    );
}

#[test]
fn return_kind_comes_from_first_variant() {
    let d = enum_decl(
        "E",
        vec![attr(vec![path("TopKind")])],
        vec![
            variant("A", vec![direct("OtherKind", "X")], FieldShape::NoFields),
            variant("B", vec![transparent()], FieldShape::UnnamedFields(1)),
        ],
    );
    assert_eq!(derived(&d).return_kind, "OtherKind");
    let d = enum_decl(
        "E",
        vec![attr(vec![path("TopKind")])],
        vec![
            variant("B", vec![transparent()], FieldShape::UnnamedFields(1)),
            variant("A", vec![direct("OtherKind", "X")], FieldShape::NoFields),
        ],
    );
    assert_eq!(derived(&d).return_kind, "TopKind");
}

#[test]
fn delegate_on_unit_variant_cannot_run() {
    let d = enum_decl("E", vec![attr(vec![path("K")])], vec![variant("A", vec![transparent()], FieldShape::NoFields)]);
    let m = derived(&d);
    assert_eq!(m.arms[0].pattern, Pattern::Bare);
    assert_eq!(m.arms[0].body, ArmBody::CallInner);
    assert_eq!(eval_kind(&vec![m], &value("E", "A", Fields::Unit)), None);
}

#[test]
fn unknown_type_or_variant_has_no_kind() {
    let methods = vec![derived(&cache_decl())];
    assert_eq!(eval_kind(&methods, &value("Other", "Missing", Fields::Unit)), None);
    assert_eq!(eval_kind(&methods, &value("CacheError", "Gone", Fields::Unit)), None);
}

#[test]
fn struct_is_rejected() {
    let d = Declaration { name: "S".to_string(), attrs: vec![attr(vec![path("K")])], data: Data::Struct };
    assert_eq!(error_kind(&d), Err(DeriveError::NotAnEnum));
    let u = Declaration { name: "U".to_string(), attrs: vec![attr(vec![path("K")])], data: Data::Union };
    assert_eq!(error_kind(&u), Err(DeriveError::NotAnEnum));
}

#[test]
fn missing_type_attribute_is_rejected() {
    let d = enum_decl("E", vec![], vec![variant("A", vec![direct("K", "X")], FieldShape::NoFields)]);
    assert_eq!(error_kind(&d), Err(DeriveError::MissingKindAttribute));
    let s = Declaration { name: "S".to_string(), attrs: vec![], data: Data::Struct };
    assert_eq!(error_kind(&s), Err(DeriveError::MissingKindAttribute));
}

#[test]
fn type_attribute_argument_count_is_checked() {
    let vs = || vec![variant("A", vec![direct("K", "X")], FieldShape::NoFields)];
    assert_eq!(error_kind(&enum_decl("E", vec![attr(vec![])], vs())), Err(DeriveError::MalformedKindAttribute));
    assert_eq!(
        error_kind(&enum_decl("E", vec![attr(vec![path("K"), path("L")])], vs())),
        Err(DeriveError::MalformedKindAttribute)
    );
    assert_eq!(error_kind(&enum_decl("E", vec![attr(vec![Arg::Other])], vs())), Err(DeriveError::MalformedKindAttribute));
}

#[test]
fn type_attribute_skips_other_forms() {
    let attrs = vec![
        Attribute { path: "doc".to_string(), args: AttrArgs::List(vec![path("hidden")]) },
        Attribute { path: "error_kind".to_string(), args: AttrArgs::Malformed },
        attr(vec![path("Kind")]),
    ];
    assert_eq!(find_attribute(&attrs).map(|a| a.len()), Some(1));
    assert_eq!(get_kind_ty(&attrs), Ok("Kind".to_string()));
    assert_eq!(get_kind_ty(&attrs[..2].to_vec()), Err(DeriveError::MissingKindAttribute));
}

#[test]
fn variant_without_attribute_is_rejected() {
    let d = enum_decl(
        "E",
        vec![attr(vec![path("K")])],
        vec![
            variant("A", vec![direct("K", "X")], FieldShape::NoFields),
            variant("B", vec![], FieldShape::NoFields),
        ],
    );
    assert_eq!(error_kind(&d), Err(DeriveError::MissingVariantAttribute { variant: 1 }));
}

#[test]
fn variant_argument_count_is_checked() {
    let three = attr(vec![path("K"), path("X"), path("Y")]);
    let d = enum_decl("E", vec![attr(vec![path("K")])], vec![variant("A", vec![three], FieldShape::NoFields)]);
    assert_eq!(error_kind(&d), Err(DeriveError::WrongArgumentCount { variant: 0 }));
    let none = attr(vec![]);
    let d = enum_decl("E", vec![attr(vec![path("K")])], vec![variant("A", vec![none], FieldShape::NoFields)]);
    assert_eq!(error_kind(&d), Err(DeriveError::WrongArgumentCount { variant: 0 }));
}

#[test]
fn variant_argument_kinds_are_checked() {
    let lit = attr(vec![path("K"), Arg::Other]);
    assert_eq!(
        resolve_variant(3, &variant("A", vec![lit], FieldShape::NoFields)),
        Err(DeriveError::InvalidArgument { variant: 3 })
    );
    let one = attr(vec![Arg::Other]);
    assert_eq!(
        resolve_variant(0, &variant("A", vec![one], FieldShape::NoFields)),
        Err(DeriveError::InvalidArgument { variant: 0 })
    );
    let bad = Attribute { path: "error_kind".to_string(), args: AttrArgs::Malformed };
    assert_eq!(
        resolve_variant(2, &variant("A", vec![bad], FieldShape::NoFields)),
        Err(DeriveError::UnparsableVariantAttribute { variant: 2 })
    );
}

#[test]
fn single_argument_must_be_the_marker() {
    let other = attr(vec![path("opaque")]);
    let d = enum_decl(
        "E",
        vec![attr(vec![path("K")])],
        vec![
            variant("A", vec![direct("K", "X")], FieldShape::NoFields),
            variant("B", vec![other], FieldShape::UnnamedFields(1)),
        ],
    );
    assert_eq!(error_kind(&d), Err(DeriveError::UnknownMarker { variant: 1 }));
}

#[test]
fn first_variant_attribute_wins() {
    let doc = Attribute { path: "doc".to_string(), args: AttrArgs::Malformed };
    let v = variant("A", vec![doc, direct("K", "X"), direct("K", "Y")], FieldShape::NoFields);
    assert_eq!(
        resolve_variant(0, &v),
        Ok(Resolution::Direct { kind_enum: "K".to_string(), kind_variant: "X".to_string() })
    );
}

#[test]
fn empty_enum_is_rejected() {
    let d = enum_decl("E", vec![attr(vec![path("K")])], vec![]);
    assert_eq!(error_kind(&d), Err(DeriveError::NoVariants));
}

#[test]
fn first_error_in_declaration_order_is_reported() {
    let d = enum_decl(
        "E",
        vec![attr(vec![path("K")])],
        vec![
            variant("A", vec![], FieldShape::NoFields),
            variant("B", vec![attr(vec![])], FieldShape::NoFields),
        ],
    );
    assert_eq!(error_kind(&d), Err(DeriveError::MissingVariantAttribute { variant: 0 }));
}

use builder::error::Error;
use builder::fields::{index_text, FieldInput, Fields, FieldsInput, Form};
use builder::generics::{ConstParamInput, GenericsInput, LifetimeInput, TypeArg, TypeParamInput};
use builder::synth::{DataInput, DeriveInput, StructAttrs};
use builder::generics::Member;

fn s(x: &str) -> String {
    x.to_string()
}

fn named(name: &str, ty: &str, has_default: bool) -> FieldInput {
    FieldInput { ident: Some(s(name)), ty: s(ty), has_default }
}

fn positional(ty: &str) -> FieldInput {
    FieldInput { ident: None, ty: s(ty), has_default: false }
}

fn no_generics() -> GenericsInput {
    GenericsInput { lifetimes: vec![], types: vec![], consts: vec![], where_predicates: vec![] }
}

fn attrs(ident: &str, generics: GenericsInput, fields: FieldsInput) -> StructAttrs {
    let input = DeriveInput { vis: s("pub"), ident: s(ident), generics, data: DataInput::Struct(fields) };
    match StructAttrs::try_from(input) {
        Ok(a) => a,
        Err(e) => panic!("unexpected error {:?}", e),
    }
}

#[test]
fn named_field_identifiers() {
    let a = attrs(
        "FieldStruct",
        no_generics(),
        FieldsInput::Named(vec![named("name", "String", false), named("maxValue", "u32", false)]),
    );
    assert_eq!(a.builder_ident, "FieldStructBuilder");
    assert_eq!(a.callback, "__Callback");
    let fs = a.fields.fields();
    assert_eq!(fs[0].field_ident, "field_name");
    assert_eq!(fs[0].setter, "set_name");
    assert_eq!(fs[0].builder, "build_name");
    assert_eq!(fs[0].generic_ident, "__FieldName");
    assert_eq!(fs[1].field_ident, "field_max_value");
    assert_eq!(fs[1].generic_ident, "__FieldMaxValue");
}

#[test]
fn positional_field_identifiers() {
    let a = attrs("TupleStruct", no_generics(), FieldsInput::Unnamed(vec![positional("String"), positional("u32")]));
    let fs = a.fields.fields();
    assert_eq!(fs[0].setter, "set_0");
    assert_eq!(fs[1].setter, "set_1");
    assert_eq!(fs[1].field_ident, "field_1");
    assert_eq!(fs[1].generic_ident, "__Field1");
    let many: Vec<FieldInput> = (0..12).map(|_| positional("u8")).collect();
    let b = attrs("Wide", no_generics(), FieldsInput::Unnamed(many));
    assert_eq!(b.fields.fields()[11].setter, "set_11");
}

#[test]
fn enum_and_union_are_rejected() {
    let e = DeriveInput { vis: s(""), ident: s("E"), generics: no_generics(), data: DataInput::Enum };
    assert!(matches!(StructAttrs::try_from(e), Err(Error::InvalidShape("struct", "enum"))));
    let u = DeriveInput { vis: s(""), ident: s("U"), generics: no_generics(), data: DataInput::Union };
    assert!(matches!(StructAttrs::try_from(u), Err(Error::InvalidShape("struct", "union"))));
}

#[test]
fn malformed_fields_are_all_reported() {
    let r = Fields::try_from(&FieldsInput::Named(vec![
        positional("u8"),
        named("ok", "u8", false),
        positional("u16"),
    ]));
    match r {
        Err(Error::Multiple(es)) => {
            assert_eq!(es.len(), 2);
            assert!(es.iter().all(|e| matches!(e, Error::MissingIdent)));
        }
        _ => panic!("expected every missing name reported"),
    }
    let r = Fields::try_from(&FieldsInput::Unnamed(vec![named("a", "u8", false), positional("u8")]));
    match r {
        Err(Error::Multiple(es)) => {
            assert_eq!(es.len(), 1);
            assert!(matches!(es[0], Error::UnexpectedIdent));
        }
        _ => panic!("expected the unexpected name reported"),
    }
    assert!(matches!(Fields::try_from(&FieldsInput::Unit), Ok(Fields::Unit)));
}

#[test]
fn setter_changes_only_its_field_state() {
    let a = attrs(
        "FieldStruct",
        no_generics(),
        FieldsInput::Named(vec![named("name", "String", false), named("value", "u32", false)]),
    );
    let p = a.setter(1);
    assert_eq!(p.setter, "set_value");
    assert_eq!(p.callback_ident, "__FieldStructBuilder__FieldValue");
    assert_eq!(
        p.in_args,
        vec![TypeArg::Param(s("__Callback")), TypeArg::Param(s("__FieldName")), TypeArg::NoData(s("u32"))]
    );
    assert_eq!(
        p.out_args,
        vec![TypeArg::Param(s("__Callback")), TypeArg::Param(s("__FieldName")), TypeArg::Concrete(s("u32"))]
    );
    assert_eq!(p.impl_params, vec![TypeArg::Param(s("__Callback")), TypeArg::Param(s("__FieldName"))]);
    assert_eq!(a.setters().len(), 2);
}

#[test]
fn generics_keep_their_order() {
    let g = GenericsInput {
        lifetimes: vec![LifetimeInput { name: s("'a"), decl: s("'a: 'static") }],
        types: vec![TypeParamInput { attrs: s("#[allow(unused)]"), ident: s("ItemType"), bounds: s("Clone") }],
        consts: vec![ConstParamInput { attrs: s(""), ident: s("N"), ty: s("usize") }],
        where_predicates: vec![s("ItemType: Default")],
    };
    let a = attrs("ConstGeneric", g, FieldsInput::Unnamed(vec![positional("[ItemType; N]")]));
    assert_eq!(
        a.builder_generics(),
        vec![
            TypeArg::Lifetime(s("'a: 'static")),
            TypeArg::Bounded(s("#[allow(unused)]"), s("ItemType"), s("Clone")),
            TypeArg::Param(s("__Callback")),
            TypeArg::Param(s("__Field0")),
            TypeArg::Const(s(""), s("N"), s("usize")),
        ]
    );
    assert_eq!(
        a.ty_generics(a.fields.no_data_generics()),
        vec![
            TypeArg::Lifetime(s("'a")),
            TypeArg::Param(s("ItemType")),
            TypeArg::Param(s("__Callback")),
            TypeArg::NoData(s("[ItemType; N]")),
            TypeArg::Param(s("N")),
        ]
    );
    assert_eq!(a.generics.types[0].field_name, "_generic_item_type");
    let markers = a.generics.field_definitions();
    assert_eq!(markers[0].ty, TypeArg::Marker(s("ItemType")));
    let w = a.where_clause();
    assert_eq!(w.predicates, vec![s("ItemType: Default")]);
    assert_eq!(w.built_args, vec![TypeArg::Lifetime(s("'a")), TypeArg::Param(s("ItemType")), TypeArg::Param(s("N"))]);
}

#[test]
fn finish_resolves_defaults() {
    let a = attrs(
        "WithDefaults",
        no_generics(),
        FieldsInput::Named(vec![named("name", "String", false), named("value", "u32", true)]),
    );
    let b = a.build();
    assert_eq!(
        b.args,
        vec![TypeArg::Param(s("__Callback")), TypeArg::Concrete(s("String")), TypeArg::Param(s("__FieldValue"))]
    );
    assert_eq!(
        b.impl_params,
        vec![TypeArg::Param(s("__Callback")), TypeArg::OrDefault(s("__FieldValue"), s("u32"))]
    );
    assert_eq!(b.values[0].name, Some(s("name")));
    assert!(!b.values[0].or_default);
    assert_eq!(b.values[1].member, "field_value");
    assert!(b.values[1].or_default);
    let c = a.default_constructor();
    assert_eq!(c.unset_inits, vec![s("field_name"), s("field_value")]);
    assert_eq!(a.fields.fields_except(0, Form::Omit, Form::Declared), vec![TypeArg::Concrete(s("String"))]);
}

#[test]
fn unit_record_has_no_state() {
    let a = attrs("UnitStruct", no_generics(), FieldsInput::Unit);
    assert_eq!(a.builder_generics(), vec![TypeArg::Param(s("__Callback"))]);
    assert!(a.build().values.is_empty());
    assert!(a.setters().is_empty());
}

#[test]
fn setter_moves_other_members_over() {
    let a = attrs(
        "FieldStruct",
        no_generics(),
        FieldsInput::Named(vec![named("name", "String", false), named("value", "u32", false)]),
    );
    let p = a.setter(0);
    assert_eq!(p.inits.len(), 2);
    assert_eq!(p.inits[0].member, "field_name");
    assert!(p.inits[0].from_value);
    assert_eq!(p.inits[1].member, "field_value");
    assert!(!p.inits[1].from_value);
}

#[test]
fn nested_record_plan() {
    let a = attrs("Nested", no_generics(), FieldsInput::Named(vec![named("inner", "FieldStruct", false)]));
    assert_eq!(a.builder_ident, "NestedBuilder");
    let p = a.setter(0);
    assert_eq!(p.setter, "set_inner");
    assert_eq!(p.builder_fn, "build_inner");
    assert_eq!(p.ty, "FieldStruct");
    assert_eq!(p.callback_ident, "__NestedBuilder__FieldInner");
    assert_eq!(p.callback_args, vec![TypeArg::Param(s("__Callback"))]);
    assert_eq!(
        p.in_args,
        vec![TypeArg::Param(s("__Callback")), TypeArg::NoData(s("FieldStruct"))]
    );
    assert_eq!(
        p.out_args,
        vec![TypeArg::Param(s("__Callback")), TypeArg::Concrete(s("FieldStruct"))]
    );
    let b = a.build();
    assert_eq!(b.args, vec![TypeArg::Param(s("__Callback")), TypeArg::Concrete(s("FieldStruct"))]);
    assert_eq!(b.values[0].name, Some(s("inner")));
    assert_eq!(b.values[0].member, "field_inner");
    assert!(!b.values[0].or_default);
}

#[test]
fn generic_record_plan() {
    let g = GenericsInput {
        lifetimes: vec![],
        types: vec![TypeParamInput { attrs: s(""), ident: s("T"), bounds: s("") }],
        consts: vec![],
        where_predicates: vec![],
    };
    let a = attrs("GenericStruct", g, FieldsInput::Unnamed(vec![positional("T")]));
    assert_eq!(
        a.struct_members(),
        vec![
            Member { name: s("_generic_t"), ty: TypeArg::Marker(s("T")) },
            Member { name: s("callback"), ty: TypeArg::Param(s("__Callback")) },
            Member { name: s("field_0"), ty: TypeArg::Param(s("__Field0")) },
        ]
    );
    let w = a.builder_with_callback();
    assert_eq!(w.impl_params, vec![TypeArg::Bounded(s(""), s("T"), s("")), TypeArg::Param(s("__Callback"))]);
    assert_eq!(w.built_args, vec![TypeArg::Param(s("T"))]);
    assert_eq!(
        w.builder_args,
        vec![TypeArg::Param(s("T")), TypeArg::Param(s("__Callback")), TypeArg::NoData(s("T"))]
    );
    let p = a.setter(0);
    assert_eq!(p.setter, "set_0");
    assert_eq!(
        p.out_args,
        vec![TypeArg::Param(s("T")), TypeArg::Param(s("__Callback")), TypeArg::Concrete(s("T"))]
    );
    let b = a.build();
    assert_eq!(b.values[0].name, None);
    assert_eq!(b.values[0].member, "field_0");
}

#[test]
fn index_text_is_decimal() {
    assert_eq!(index_text(0), "0");
    assert_eq!(index_text(9), "9");
    assert_eq!(index_text(10), "10");
    assert_eq!(index_text(407), "407");
    assert_eq!(index_text(usize::MAX), usize::MAX.to_string());
}

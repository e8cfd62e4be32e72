use std::any::TypeId;
use std::sync::Arc;

use dusk_api::catalog::{copy_by_id, entry_by_id, ids_by_name, type_by_native_id};
use dusk_api::flatten::module_list;
use dusk_api::harvest::{function_list, trait_definition_list, type_list};
use dusk_api::{InterplugRequest, Parameter, Version};
use dusk_api::{
    DuskCallable, DuskError, EmptyCallable, Function, Module, TraitDefinition, TraitFunction,
    TraitImplementation, Type, U8,
};

fn func(name: &str, id: usize) -> Function {
    Function {
        name: name.to_string(),
        callable: Arc::new(Box::new(EmptyCallable) as Box<dyn DuskCallable>),
        fn_id: id,
        ..Default::default()
    }
}

fn module(name: &str, id: usize) -> Module {
    Module { name: name.to_string(), md_id: id, ..Default::default() }
}

fn ty(name: &str, id: usize) -> Type {
    let mut t = Type::placeholder();
    t.name = name.to_string();
    t.tp_id = id;
    t
}

fn trait_def(name: &str, id: usize) -> TraitDefinition {
    TraitDefinition { name: name.to_string(), td_id: id, ..Default::default() }
}

fn names<T>(list: &[T], name: impl Fn(&T) -> &str) -> Vec<String> {
    list.iter().map(|x| name(x).to_string()).collect()
}

#[test]
fn submodule_function_gets_full_name() {
    let mut sub = module("sub", 1);
    sub.functions.push(func("f", 0));
    let mut top = module("top", 0);
    top.submodules.push(sub);
    let modules = module_list(vec![top]).unwrap();
    assert_eq!(names(&modules, |m| &m.name), vec!["top", "top::sub"]);
    assert!(modules[0].submodules.is_empty());
    let functions = function_list(Vec::new(), modules).unwrap();
    assert_eq!(functions.len(), 1);
    assert_eq!(functions[0].name, "top::sub::f");
    assert_eq!(functions[0].fn_id, 0);
}

#[test]
fn duplicate_function_id_is_import_error() {
    let mut m = module("m", 0);
    m.functions.push(func("a", 5));
    m.functions.push(func("b", 5));
    let modules = module_list(vec![m]).unwrap();
    assert!(matches!(function_list(Vec::new(), modules), Err(DuskError::ImportError(_))));
}

#[test]
fn duplicate_ids_rejected_in_every_kind() {
    let a = module("a", 5);
    let b = module("b", 5);
    assert!(matches!(module_list(vec![a, b]), Err(DuskError::ImportError(_))));
    let mut m = module("m", 0);
    m.types.push(ty("T", 5));
    m.types.push(ty("U", 5));
    m.trait_definitions.push(trait_def("X", 5));
    m.trait_definitions.push(trait_def("Y", 5));
    let modules = module_list(vec![m]).unwrap();
    assert!(matches!(type_list(modules.clone()), Err(DuskError::ImportError(_))));
    assert!(matches!(trait_definition_list(modules), Err(DuskError::ImportError(_))));
}

#[test]
fn sparse_ids_are_padded_with_placeholders() {
    let mut m = module("m", 0);
    m.functions.push(func("later", 3));
    m.functions.push(func("first", 0));
    let modules = module_list(vec![m]).unwrap();
    let functions = function_list(Vec::new(), modules).unwrap();
    assert_eq!(functions.len(), 4);
    assert_eq!(functions[0].name, "m::first");
    assert_eq!(functions[1].name, "");
    assert_eq!(functions[2].name, "");
    assert_eq!(functions[3].name, "m::later");
    assert_eq!(functions[3].fn_id, 3);
}

#[test]
fn every_kind_of_function_is_harvested() {
    let mut t = ty("T", 0);
    t.methods.push(func("meth", 2));
    t.fields.push(func("x", 3));
    t.trait_implementations.push(TraitImplementation {
        name: "Tr".to_string(),
        methods: vec![TraitFunction { fn_trait_id: 0, function: func("tm", 4) }],
    });
    let mut m = module("m", 0);
    m.functions.push(func("f", 1));
    m.constants.push(func("c", 5));
    m.types.push(t);
    let modules = module_list(vec![m]).unwrap();
    let functions = function_list(vec![func("+", 0)], modules).unwrap();
    assert_eq!(
        names(&functions, |f| &f.name),
        vec!["+", "m::f", "m::T::meth", "@m::T::x", "m::T::tm", "@m::c"]
    );
}

#[test]
fn nested_modules_flatten_in_every_slot() {
    let mut inner = module("inner", 2);
    inner.types.push(ty("I", 1));
    let mut outer = module("outer", 1);
    outer.submodules.push(inner);
    outer.types.push(ty("O", 0));
    let mut root = module("root", 0);
    root.submodules.push(outer);
    root.trait_definitions.push(trait_def("Show", 0));
    let second = module("second", 4);
    let modules = module_list(vec![root, second]).unwrap();
    assert_eq!(
        names(&modules, |m| &m.name),
        vec!["root", "root::outer", "root::outer::inner", "", "second"]
    );
    let types = type_list(modules.clone()).unwrap();
    assert_eq!(names(&types, |t| &t.name), vec!["root::outer::O", "root::outer::inner::I"]);
    let traits = trait_definition_list(modules).unwrap();
    assert_eq!(names(&traits, |t| &t.name), vec!["root::Show"]);
}

#[test]
fn empty_names_are_import_errors() {
    let mut top = module("top", 0);
    top.submodules.push(module("", 1));
    assert!(matches!(module_list(vec![top]), Err(DuskError::ImportError(_))));
    assert!(matches!(module_list(vec![module("", 0)]), Err(DuskError::ImportError(_))));
    let mut m = module("m", 0);
    m.functions.push(func("", 0));
    assert!(matches!(function_list(Vec::new(), vec![m]), Err(DuskError::ImportError(_))));
    let mut m = module("m", 0);
    m.types.push(ty("", 0));
    assert!(matches!(function_list(Vec::new(), vec![m]), Err(DuskError::ImportError(_))));
    assert!(matches!(function_list(vec![func("", 0)], Vec::new()), Err(DuskError::ImportError(_))));
}

#[test]
fn flattening_twice_gives_the_same_catalog() {
    let build = || {
        let mut sub = module("s", 2);
        sub.functions.push(func("g", 4));
        let mut m = module("m", 0);
        m.functions.push(func("f", 1));
        m.submodules.push(sub);
        vec![m]
    };
    let first = function_list(Vec::new(), module_list(build()).unwrap()).unwrap();
    let second = function_list(Vec::new(), module_list(build()).unwrap()).unwrap();
    assert_eq!(names(&first, |f| &f.name), names(&second, |f| &f.name));
    let ids1: Vec<usize> = first.iter().map(|f| f.fn_id).collect();
    let ids2: Vec<usize> = second.iter().map(|f| f.fn_id).collect();
    assert_eq!(ids1, ids2);
}

#[test]
fn lookups_by_id_and_name() {
    let mut m = module("m", 0);
    m.functions.push(func("f", 0));
    m.functions.push(func("g", 2));
    let functions = function_list(Vec::new(), module_list(vec![m]).unwrap()).unwrap();
    assert_eq!(entry_by_id(&functions, 2).unwrap().name, "m::g");
    assert!(matches!(entry_by_id(&functions, 1), Err(DuskError::IndexError(_))));
    assert!(matches!(copy_by_id(&functions, 9), Err(DuskError::IndexError(_))));
    assert_eq!(copy_by_id(&functions, 0).unwrap().name, "m::f");
    assert_eq!(ids_by_name(&functions, &"m::g".to_string()), vec![2]);
    assert!(ids_by_name(&functions, &"g".to_string()).is_empty());
}

#[test]
fn lookup_by_native_id() {
    let mut t = U8::init();
    t.tp_id = 1;
    let mut m = module("m", 0);
    m.types.push(ty("A", 0));
    m.types.push(t);
    let types = type_list(module_list(vec![m]).unwrap()).unwrap();
    assert_eq!(type_by_native_id(&types, &TypeId::of::<U8>()).unwrap().name, "m::u8");
    assert!(matches!(type_by_native_id(&types, &TypeId::of::<String>()), Err(DuskError::IndexError(_))));
}

#[test]
fn empty_callable_is_not_implemented() {
    let f = func("f", 0);
    assert!(matches!(f.callable.call(Vec::new()), Err(DuskError::NotImplementedError(_))));
}

#[test]
fn default_type_describes_the_byte() {
    let t = Type::default();
    assert_eq!(t.name, "u8");
    assert_eq!(t.tp_id, 0);
    assert_eq!(t.native_id, TypeId::of::<U8>());
    assert_eq!(Type::placeholder().name, "");
}

#[test]
fn lookups_return_full_copies() {
    let mut f = func("f", 0);
    f.parameters.push(Parameter { max_amount: 3, keyword: Some("k".to_string()), ..Default::default() });
    f.dependencies.push(InterplugRequest::PlugRequestAll { plugin: "p".to_string(), version: Version::default() });
    let mut t = ty("T", 0);
    t.methods.push(func("m", 1));
    let mut m = module("m", 0);
    m.functions.push(f);
    m.types.push(t);
    let modules = module_list(vec![m]).unwrap();
    let functions = function_list(Vec::new(), modules.clone()).unwrap();
    let copy = copy_by_id(&functions, 0).unwrap();
    assert_eq!(copy.parameters.len(), 1);
    assert_eq!(copy.parameters[0].max_amount, 3);
    assert_eq!(copy.parameters[0].keyword, Some("k".to_string()));
    assert_eq!(copy.dependencies.len(), 1);
    let types = type_list(modules).unwrap();
    let found = type_by_native_id(&types, &types[0].native_id).unwrap().clone();
    assert_eq!(found.methods.len(), 1);
    assert_eq!(found.methods[0].name, "m");
}

#[test]
fn native_id_lookup_skips_placeholders() {
    let mut m = module("m", 0);
    m.types.push(ty("Late", 2));
    let types = type_list(module_list(vec![m]).unwrap()).unwrap();
    assert_eq!(types.len(), 3);
    assert_eq!(types[0].name, "");
    let found = type_by_native_id(&types, &types[0].native_id).unwrap();
    assert_eq!(found.name, "m::Late");
}

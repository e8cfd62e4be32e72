use std::sync::atomic::{AtomicBool, Ordering};
use std::sync::Arc;

use dusk_api::registration::check_versions;
use dusk_api::{
    DuskCallable, DuskError, EmptyCallable, Freight, FreightDeclaration, FreightProxy,
    FreightRegister, FreightRegistrar, Function, Module, Registration, Version,
};

struct Plugin;

impl Freight for Plugin {
    fn top_modules(&mut self) -> Vec<Module> {
        let mut sub = Module { name: "sub".to_string(), md_id: 1, ..Default::default() };
        sub.functions.push(Function {
            name: "f".to_string(),
            callable: Arc::new(Box::new(EmptyCallable) as Box<dyn DuskCallable>),
            fn_id: 0,
            ..Default::default()
        });
        let mut top = Module { name: "plug".to_string(), md_id: 0, ..Default::default() };
        top.submodules.push(sub);
        vec![top]
    }
}

struct Register {
    ran: Arc<AtomicBool>,
}

impl FreightRegister for Register {
    fn register(&self, registrar: &mut Registration) {
        self.ran.store(true, Ordering::SeqCst);
        registrar.register_freight(Box::new(Plugin));
    }
}

fn declaration(rustc: &str, api: &str, ran: Arc<AtomicBool>) -> FreightDeclaration {
    FreightDeclaration {
        rustc_version: rustc.to_string(),
        api_version: api.to_string(),
        freight_version: Version { major: 1, minor: 2, release: 0, build: 0 },
        backwards_compat_version: Version { major: 1, ..Default::default() },
        name: "plug".to_string(),
        register: Box::new(Register { ran }),
    }
}

#[test]
fn version_mismatch_fails_before_registration() {
    let ran = Arc::new(AtomicBool::new(false));
    let decl = declaration("1.0.0", "0.2.1", ran.clone());
    let r = FreightProxy::load_from_declaration(&decl, &"1.1.0".to_string(), &"0.2.1".to_string());
    assert!(matches!(r, Err(DuskError::ImportError(_))));
    let r = FreightProxy::load_from_declaration(&decl, &"1.0.0".to_string(), &"0.3.0".to_string());
    assert!(matches!(r, Err(DuskError::ImportError(_))));
    assert!(!ran.load(Ordering::SeqCst));
}

#[test]
fn matching_versions_register_the_plugin() {
    let ran = Arc::new(AtomicBool::new(false));
    let decl = declaration("1.0.0", "0.2.1", ran.clone());
    let mut proxy =
        FreightProxy::load_from_declaration(&decl, &"1.0.0".to_string(), &"0.2.1".to_string()).unwrap();
    assert!(ran.load(Ordering::SeqCst));
    assert_eq!(proxy.name, "plug");
    assert_eq!(proxy.version, Version { major: 1, minor: 2, release: 0, build: 0 });
    let functions = proxy.get_function_list().unwrap();
    assert_eq!(functions.len(), 1);
    assert_eq!(functions[0].name, "plug::sub::f");
}

#[test]
fn check_versions_requires_both_equal() {
    let a = "1".to_string();
    let b = "2".to_string();
    assert!(check_versions(&a, &a, &a, &a).is_ok());
    assert!(matches!(check_versions(&a, &a, &b, &a), Err(DuskError::ImportError(_))));
    assert!(matches!(check_versions(&a, &b, &a, &a), Err(DuskError::ImportError(_))));
}

#[test]
fn proxy_catalogs_are_memoized() {
    let decl = declaration("r", "a", Arc::new(AtomicBool::new(false)));
    let mut proxy = FreightProxy::load_from_declaration_no_vcheck(&decl);
    let first = proxy.get_function_list().unwrap();
    let second = proxy.get_function_list().unwrap();
    assert_eq!(first.len(), second.len());
    assert_eq!(first[0].name, second[0].name);
    let modules = proxy.get_module_list().unwrap();
    assert_eq!(modules.len(), 2);
    assert_eq!(modules[1].name, "plug::sub");
    assert_eq!(proxy.get_function_by_id(0).unwrap().name, "plug::sub::f");
    assert!(matches!(proxy.get_function_by_id(1), Err(DuskError::IndexError(_))));
    assert_eq!(proxy.get_functions_by_name(&"plug::sub::f".to_string()).unwrap().len(), 1);
    assert_eq!(proxy.get_modules_by_name(&"plug".to_string()).unwrap().len(), 1);
    assert_eq!(proxy.get_module_by_id(1).unwrap().name, "plug::sub");
    assert!(proxy.get_type_list().unwrap().is_empty());
    assert!(matches!(proxy.get_type_by_id(0), Err(DuskError::IndexError(_))));
    assert!(proxy.get_trait_definition_list().unwrap().is_empty());
    assert_eq!(proxy.get_callable_list().unwrap().len(), 1);
    let callable = proxy.get_callable_by_id(0).unwrap();
    assert!(matches!(callable.call(Vec::new()), Err(DuskError::NotImplementedError(_))));
}

#[test]
fn registration_without_callback_leaves_queries_failing() {
    struct Nothing;
    impl FreightRegister for Nothing {
        fn register(&self, _registrar: &mut Registration) {}
    }
    let decl = FreightDeclaration {
        rustc_version: "r".to_string(),
        api_version: "a".to_string(),
        freight_version: Version::default(),
        backwards_compat_version: Version::default(),
        name: "none".to_string(),
        register: Box::new(Nothing),
    };
    let mut proxy = FreightProxy::load_from_declaration_no_vcheck(&decl);
    assert!(matches!(proxy.get_module_list(), Err(DuskError::NotImplementedError(_))));
    assert!(matches!(proxy.get_function_list(), Err(DuskError::NotImplementedError(_))));
    assert!(matches!(proxy.get_type_by_id(0), Err(DuskError::NotImplementedError(_))));
    assert!(matches!(proxy.get_callable_list(), Err(DuskError::NotImplementedError(_))));
    assert!(proxy.top_modules().is_empty());
}

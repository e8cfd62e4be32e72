//! Registration of a plugin's implementor, the version handshake that must
//! precede it, and the proxy through which a host uses a loaded plugin.

use vstd::prelude::*;
use std::any::TypeId;
use std::rc::Rc;
use std::sync::Arc;
use crate::callables::DuskCallable;
use crate::catalog::{
    callables_of, copies_named, copy_by_id, copy_entries, declares_native_id, entry_by_id,
    has_native_id, same_entries, type_by_native_id, CatalogEntry,
};
use crate::error::DuskError;
use crate::freights::{
    callables_match, copies_of_named, copy_of_slot, holds_entry, is_function_catalog,
    is_module_catalog, is_trait_catalog, is_type_catalog, Freight,
};
use crate::functions::Function;
use crate::interplugin::{InterplugRequest, Limitation};
use crate::modules::Module;
use crate::traits::TraitDefinition;
use crate::types::Type;
use crate::version::Version;

verus! {

/// Relies on `libloading::Library` as an opaque value: an open shared
/// library, which a proxy only keeps alive.
#[verifier::external_type_specification]
#[verifier::external_body]
pub struct ExLibrary(libloading::Library);

/// Receives the implementor a plugin registers.
pub trait FreightRegistrar {
    /// Takes `freight` as the plugin's implementor.
    fn register_freight(&mut self, freight: Box<dyn Freight>);
}

/// The registrar handed to a plugin's registration entry point; it keeps
/// the implementor the plugin registers.
pub struct Registration {
    freight: Option<Box<dyn Freight>>,
}

impl FreightRegistrar for Registration {
    fn register_freight(&mut self, freight: Box<dyn Freight>) {
        self.freight = Some(freight);
    }
}

/// A plugin's registration entry point: it hands its implementor to the
/// registrar, exactly once.
pub trait FreightRegister {
    /// Calls back into `registrar` with the plugin's implementor.
    fn register(&self, registrar: &mut Registration);
}

/// The record a plugin exports to declare itself: the compiler and API
/// versions it was built with, its own version and the oldest version it
/// stays compatible with, its name, and its registration entry point.
pub struct FreightDeclaration {
    /// Compiler version the plugin was built with
    pub rustc_version: String,
    /// API version the plugin was built against
    pub api_version: String,
    /// Version of the plugin
    pub freight_version: Version,
    /// Oldest plugin version that code written against this one runs with
    pub backwards_compat_version: Version,
    /// Name of the plugin
    pub name: String,
    /// Registration entry point
    pub register: Box<dyn FreightRegister>,
}

/// Checks a plugin's compiler and API versions against the host's own: both
/// must be equal, else an [`DuskError::ImportError`].
pub fn check_versions(
    rustc_version: &String,
    api_version: &String,
    host_rustc_version: &String,
    host_api_version: &String,
) -> (r: Result<(), DuskError>)
    ensures
        r is Ok <==> rustc_version@ == host_rustc_version@ && api_version@ == host_api_version@,
        r matches Err(e) ==> e is ImportError,
{
    if !rustc_version.eq(host_rustc_version) {
        return Err(DuskError::ImportError("Compiler version mismatch".to_string()));
    }
    if !api_version.eq(host_api_version) {
        return Err(DuskError::ImportError("Dusk API version mismatch".to_string()));
    }
    Ok(())
}

/// What a memoized catalog query does: an existing cache is kept and
/// copied out; without one, a successful result is cached and copied out,
/// and a failure caches nothing.
pub open spec fn memoized<E: CatalogEntry>(
    before: Option<Seq<E>>,
    after: Option<Seq<E>>,
    r: Result<Vec<E>, DuskError>,
) -> bool {
    match before {
        Some(c) => after == before && (r matches Ok(l) && same_entries(l@, c)),
        None => match r {
            Ok(l) => (after matches Some(c) && same_entries(l@, c)),
            Err(_) => after is None,
        },
    }
}

/// Asking a memoized catalog query twice, the first time successfully,
/// gives copies of one and the same kept catalog both times, and the second
/// answer comes from the cache the first one left.
pub proof fn lemma_memoized_twice<E: CatalogEntry>(
    before: Option<Seq<E>>,
    middle: Option<Seq<E>>,
    after: Option<Seq<E>>,
    first: Result<Vec<E>, DuskError>,
    second: Result<Vec<E>, DuskError>,
)
    requires
        memoized(before, middle, first),
        memoized(middle, after, second),
        first is Ok,
    ensures
        second is Ok,
        after == middle,
        middle is Some,
        same_entries(first->Ok_0@, middle->Some_0),
        same_entries(second->Ok_0@, middle->Some_0),
{
}

/// What a catalog query of a proxy may fail with: an
/// [`DuskError::ImportError`] from a malformed declared tree, or a
/// [`DuskError::NotImplementedError`] when no plugin registered.
pub open spec fn catalog_query_error(e: DuskError) -> bool {
    e is ImportError || e is NotImplementedError
}

/// A loaded plugin: its implementor (none until the plugin registers one,
/// and then every catalog query fails), the library it came from (kept
/// open as long as the proxy lives), its name and versions, and catalogs
/// built on first use and kept for the proxy's lifetime.
pub struct FreightProxy {
    freight: Option<Box<dyn Freight>>,
    lib: Option<Rc<libloading::Library>>,
    /// Name of the plugin
    pub name: String,
    /// Version of the plugin
    pub version: Version,
    /// Oldest plugin version that code written against this one runs with
    pub backwards_compat_version: Version,
    functions: Option<Vec<Function>>,
    types: Option<Vec<Type>>,
    trait_definitions: Option<Vec<TraitDefinition>>,
    modules: Option<Vec<Module>>,
}

/// The view of an optional catalog.
pub open spec fn cache_view<E>(c: Option<Vec<E>>) -> Option<Seq<E>> {
    match c {
        Some(v) => Some(v@),
        None => None,
    }
}

/// `after` is the proxy `before` with the same plugin: name, versions,
/// implementor and library.
pub open spec fn same_plugin(before: FreightProxy, after: FreightProxy) -> bool {
    &&& after.plugin_name() == before.plugin_name()
    &&& after.plugin_version() == before.plugin_version()
    &&& after.plugin_backwards_compat_version() == before.plugin_backwards_compat_version()
    &&& after.is_registered() == before.is_registered()
    &&& after.holds_library() == before.holds_library()
}

impl FreightProxy {
    /// The cached function catalog.
    pub closed spec fn cached_functions(&self) -> Option<Seq<Function>> {
        cache_view(self.functions)
    }

    /// The cached type catalog.
    pub closed spec fn cached_types(&self) -> Option<Seq<Type>> {
        cache_view(self.types)
    }

    /// The cached trait definition catalog.
    pub closed spec fn cached_trait_definitions(&self) -> Option<Seq<TraitDefinition>> {
        cache_view(self.trait_definitions)
    }

    /// The cached module catalog.
    pub closed spec fn cached_modules(&self) -> Option<Seq<Module>> {
        cache_view(self.modules)
    }

    /// Every kept catalog is the catalog of a declared tree.
    pub open spec fn caches_valid(&self) -> bool {
        &&& (self.cached_modules() matches Some(c) ==> is_module_catalog(c))
        &&& (self.cached_functions() matches Some(c) ==> is_function_catalog(c))
        &&& (self.cached_types() matches Some(c) ==> is_type_catalog(c))
        &&& (self.cached_trait_definitions() matches Some(c) ==> is_trait_catalog(c))
    }

    /// Name of the plugin.
    pub closed spec fn plugin_name(&self) -> Seq<char> {
        self.name@
    }

    /// Version of the plugin.
    pub closed spec fn plugin_version(&self) -> Version {
        self.version
    }

    /// Oldest plugin version that code written against this one runs with.
    pub closed spec fn plugin_backwards_compat_version(&self) -> Version {
        self.backwards_compat_version
    }

    /// Whether the plugin registered an implementor.
    pub closed spec fn is_registered(&self) -> bool {
        self.freight is Some
    }

    /// Whether the proxy holds the library it was loaded from.
    pub closed spec fn holds_library(&self) -> bool {
        self.lib is Some
    }

    /// Checks the declaration's compiler and API versions against the
    /// host's, and only when both match runs its registration entry point on
    /// a new proxy; an [`DuskError::ImportError`] on a mismatch.
    pub fn load_from_declaration(
        declaration: &FreightDeclaration,
        host_rustc_version: &String,
        host_api_version: &String,
    ) -> (r: Result<FreightProxy, DuskError>)
        ensures
            r is Ok <==> declaration.rustc_version@ == host_rustc_version@
                && declaration.api_version@ == host_api_version@,
            r matches Err(e) ==> e is ImportError,
            r matches Ok(p) ==> p.plugin_name() == declaration.name@ && p.plugin_version()
                == declaration.freight_version && p.plugin_backwards_compat_version()
                == declaration.backwards_compat_version && !p.holds_library() && p.caches_valid()
                && p.cached_functions() is None && p.cached_types() is None
                && p.cached_trait_definitions() is None && p.cached_modules() is None,
    {
        check_versions(
            &declaration.rustc_version,
            &declaration.api_version,
            host_rustc_version,
            host_api_version,
        )?;
        Ok(FreightProxy::load_from_declaration_no_vcheck(declaration))
    }

    /// Runs the declaration's registration entry point on a new proxy
    /// without checking versions; for plugins linked in by trusted means.
    pub fn load_from_declaration_no_vcheck(declaration: &FreightDeclaration) -> (r: FreightProxy)
        ensures
            r.plugin_name() == declaration.name@,
            r.plugin_version() == declaration.freight_version,
            r.plugin_backwards_compat_version() == declaration.backwards_compat_version,
            !r.holds_library(),
            r.caches_valid(),
            r.cached_functions() is None,
            r.cached_types() is None,
            r.cached_trait_definitions() is None,
            r.cached_modules() is None,
    {
        let mut registration = Registration { freight: None };
        declaration.register.register(&mut registration);
        FreightProxy {
            freight: registration.freight,
            lib: None,
            name: declaration.name.clone(),
            version: declaration.freight_version,
            backwards_compat_version: declaration.backwards_compat_version,
            functions: None,
            types: None,
            trait_definitions: None,
            modules: None,
        }
    }

    /// Keeps `lib`, the library the plugin came from, open for as long as
    /// this proxy lives.
    pub fn set_library(&mut self, lib: Rc<libloading::Library>)
        ensures
            final(self).holds_library(),
            final(self).plugin_name() == old(self).plugin_name(),
            final(self).plugin_version() == old(self).plugin_version(),
            final(self).plugin_backwards_compat_version() == old(self).plugin_backwards_compat_version(),
            final(self).is_registered() == old(self).is_registered(),
            final(self).cached_functions() == old(self).cached_functions(),
            final(self).cached_types() == old(self).cached_types(),
            final(self).cached_trait_definitions() == old(self).cached_trait_definitions(),
            final(self).cached_modules() == old(self).cached_modules(),
    {
        self.lib = Some(lib);
    }

    /// The plugin's module catalog, built by its implementor on first use and
    /// then kept; a [`DuskError::NotImplementedError`] while no plugin is
    /// registered.
    pub fn get_module_list(&mut self) -> (r: Result<Vec<Module>, DuskError>)
        requires
            old(self).caches_valid(),
        ensures
            final(self).caches_valid(),
            same_plugin(*old(self), *final(self)),
            memoized(old(self).cached_modules(), final(self).cached_modules(), r),
            final(self).cached_functions() == old(self).cached_functions(),
            final(self).cached_types() == old(self).cached_types(),
            final(self).cached_trait_definitions() == old(self).cached_trait_definitions(),
            r matches Err(e) ==> catalog_query_error(e),
            !old(self).is_registered() && old(self).cached_modules() is None ==> r matches Err(
                DuskError::NotImplementedError(_),
            ),
    {
        match &self.modules {
            Some(list) => Ok(copy_entries(list)),
            None => match &mut self.freight {
                None => Err(DuskError::NotImplementedError("No plugin is registered".to_string())),
                Some(freight) => {
                    let list = freight.get_module_list()?;
                    let copy = copy_entries(&list);
                    self.modules = Some(list);
                    Ok(copy)
                },
            },
        }
    }

    /// Builds the module catalog if it is not kept yet.
    fn ensure_modules(&mut self) -> (r: Result<(), DuskError>)
        requires
            old(self).caches_valid(),
        ensures
            final(self).caches_valid(),
            same_plugin(*old(self), *final(self)),
            r is Ok <==> final(self).cached_modules() is Some,
            !old(self).is_registered() && old(self).cached_modules() is None ==> r matches Err(
                DuskError::NotImplementedError(_),
            ),
            old(self).cached_modules() is Some ==> final(self).cached_modules() == old(self).cached_modules(),
            final(self).cached_functions() == old(self).cached_functions(),
            final(self).cached_types() == old(self).cached_types(),
            final(self).cached_trait_definitions() == old(self).cached_trait_definitions(),
            r matches Err(e) ==> catalog_query_error(e),
    {
        if self.modules.is_none() {
            match &mut self.freight {
                None => {
                    return Err(DuskError::NotImplementedError("No plugin is registered".to_string()));
                },
                Some(freight) => {
                    let list = freight.get_module_list()?;
                    self.modules = Some(list);
                },
            }
        }
        Ok(())
    }

    /// The plugin's function catalog, built by its implementor on first use and
    /// then kept; a [`DuskError::NotImplementedError`] while no plugin is
    /// registered.
    pub fn get_function_list(&mut self) -> (r: Result<Vec<Function>, DuskError>)
        requires
            old(self).caches_valid(),
        ensures
            final(self).caches_valid(),
            same_plugin(*old(self), *final(self)),
            memoized(old(self).cached_functions(), final(self).cached_functions(), r),
            final(self).cached_modules() == old(self).cached_modules(),
            final(self).cached_types() == old(self).cached_types(),
            final(self).cached_trait_definitions() == old(self).cached_trait_definitions(),
            r matches Err(e) ==> catalog_query_error(e),
            !old(self).is_registered() && old(self).cached_functions() is None ==> r matches Err(
                DuskError::NotImplementedError(_),
            ),
    {
        match &self.functions {
            Some(list) => Ok(copy_entries(list)),
            None => match &mut self.freight {
                None => Err(DuskError::NotImplementedError("No plugin is registered".to_string())),
                Some(freight) => {
                    let list = freight.get_function_list()?;
                    let copy = copy_entries(&list);
                    self.functions = Some(list);
                    Ok(copy)
                },
            },
        }
    }

    /// Builds the function catalog if it is not kept yet.
    fn ensure_functions(&mut self) -> (r: Result<(), DuskError>)
        requires
            old(self).caches_valid(),
        ensures
            final(self).caches_valid(),
            same_plugin(*old(self), *final(self)),
            r is Ok <==> final(self).cached_functions() is Some,
            !old(self).is_registered() && old(self).cached_functions() is None ==> r matches Err(
                DuskError::NotImplementedError(_),
            ),
            old(self).cached_functions() is Some ==> final(self).cached_functions() == old(self).cached_functions(),
            final(self).cached_modules() == old(self).cached_modules(),
            final(self).cached_types() == old(self).cached_types(),
            final(self).cached_trait_definitions() == old(self).cached_trait_definitions(),
            r matches Err(e) ==> catalog_query_error(e),
    {
        if self.functions.is_none() {
            match &mut self.freight {
                None => {
                    return Err(DuskError::NotImplementedError("No plugin is registered".to_string()));
                },
                Some(freight) => {
                    let list = freight.get_function_list()?;
                    self.functions = Some(list);
                },
            }
        }
        Ok(())
    }

    /// The plugin's type catalog, built by its implementor on first use and
    /// then kept; a [`DuskError::NotImplementedError`] while no plugin is
    /// registered.
    pub fn get_type_list(&mut self) -> (r: Result<Vec<Type>, DuskError>)
        requires
            old(self).caches_valid(),
        ensures
            final(self).caches_valid(),
            same_plugin(*old(self), *final(self)),
            memoized(old(self).cached_types(), final(self).cached_types(), r),
            final(self).cached_modules() == old(self).cached_modules(),
            final(self).cached_functions() == old(self).cached_functions(),
            final(self).cached_trait_definitions() == old(self).cached_trait_definitions(),
            r matches Err(e) ==> catalog_query_error(e),
            !old(self).is_registered() && old(self).cached_types() is None ==> r matches Err(
                DuskError::NotImplementedError(_),
            ),
    {
        match &self.types {
            Some(list) => Ok(copy_entries(list)),
            None => match &mut self.freight {
                None => Err(DuskError::NotImplementedError("No plugin is registered".to_string())),
                Some(freight) => {
                    let list = freight.get_type_list()?;
                    let copy = copy_entries(&list);
                    self.types = Some(list);
                    Ok(copy)
                },
            },
        }
    }

    /// Builds the type catalog if it is not kept yet.
    fn ensure_types(&mut self) -> (r: Result<(), DuskError>)
        requires
            old(self).caches_valid(),
        ensures
            final(self).caches_valid(),
            same_plugin(*old(self), *final(self)),
            r is Ok <==> final(self).cached_types() is Some,
            !old(self).is_registered() && old(self).cached_types() is None ==> r matches Err(
                DuskError::NotImplementedError(_),
            ),
            old(self).cached_types() is Some ==> final(self).cached_types() == old(self).cached_types(),
            final(self).cached_modules() == old(self).cached_modules(),
            final(self).cached_functions() == old(self).cached_functions(),
            final(self).cached_trait_definitions() == old(self).cached_trait_definitions(),
            r matches Err(e) ==> catalog_query_error(e),
    {
        if self.types.is_none() {
            match &mut self.freight {
                None => {
                    return Err(DuskError::NotImplementedError("No plugin is registered".to_string()));
                },
                Some(freight) => {
                    let list = freight.get_type_list()?;
                    self.types = Some(list);
                },
            }
        }
        Ok(())
    }

    /// The plugin's trait definition catalog, built by its implementor on first use and
    /// then kept; a [`DuskError::NotImplementedError`] while no plugin is
    /// registered.
    pub fn get_trait_definition_list(&mut self) -> (r: Result<Vec<TraitDefinition>, DuskError>)
        requires
            old(self).caches_valid(),
        ensures
            final(self).caches_valid(),
            same_plugin(*old(self), *final(self)),
            memoized(old(self).cached_trait_definitions(), final(self).cached_trait_definitions(), r),
            final(self).cached_modules() == old(self).cached_modules(),
            final(self).cached_functions() == old(self).cached_functions(),
            final(self).cached_types() == old(self).cached_types(),
            r matches Err(e) ==> catalog_query_error(e),
            !old(self).is_registered() && old(self).cached_trait_definitions() is None ==> r matches Err(
                DuskError::NotImplementedError(_),
            ),
    {
        match &self.trait_definitions {
            Some(list) => Ok(copy_entries(list)),
            None => match &mut self.freight {
                None => Err(DuskError::NotImplementedError("No plugin is registered".to_string())),
                Some(freight) => {
                    let list = freight.get_trait_definition_list()?;
                    let copy = copy_entries(&list);
                    self.trait_definitions = Some(list);
                    Ok(copy)
                },
            },
        }
    }

    /// Builds the trait definition catalog if it is not kept yet.
    fn ensure_trait_definitions(&mut self) -> (r: Result<(), DuskError>)
        requires
            old(self).caches_valid(),
        ensures
            final(self).caches_valid(),
            same_plugin(*old(self), *final(self)),
            r is Ok <==> final(self).cached_trait_definitions() is Some,
            !old(self).is_registered() && old(self).cached_trait_definitions() is None ==> r matches Err(
                DuskError::NotImplementedError(_),
            ),
            old(self).cached_trait_definitions() is Some ==> final(self).cached_trait_definitions() == old(self).cached_trait_definitions(),
            final(self).cached_modules() == old(self).cached_modules(),
            final(self).cached_functions() == old(self).cached_functions(),
            final(self).cached_types() == old(self).cached_types(),
            r matches Err(e) ==> catalog_query_error(e),
    {
        if self.trait_definitions.is_none() {
            match &mut self.freight {
                None => {
                    return Err(DuskError::NotImplementedError("No plugin is registered".to_string()));
                },
                Some(freight) => {
                    let list = freight.get_trait_definition_list()?;
                    self.trait_definitions = Some(list);
                },
            }
        }
        Ok(())
    }

    /// A copy of the module at slot `id` of the kept catalog; an
    /// [`DuskError::IndexError`] when that slot is beyond it or a placeholder.
    pub fn get_module_by_id(&mut self, id: usize) -> (r: Result<Module, DuskError>)
        requires
            old(self).caches_valid(),
        ensures
            final(self).caches_valid(),
            same_plugin(*old(self), *final(self)),
            old(self).cached_modules() is Some ==> final(self).cached_modules() == old(self).cached_modules(),
            final(self).cached_modules() matches Some(c) ==> (r is Ok <==> holds_entry(c, id as int)) && (r matches Ok(x) ==> copy_of_slot(
                c,
                id as int,
                x,
            )) && (r matches Err(e) ==> e is IndexError),
            final(self).cached_modules() is None ==> (r matches Err(e) && catalog_query_error(e)),
            !old(self).is_registered() && old(self).cached_modules() is None ==> r matches Err(
                DuskError::NotImplementedError(_),
            ),
            (r matches Err(e) && catalog_query_error(e)) ==> final(self).cached_modules() is None,
    {
        self.ensure_modules()?;
        match &self.modules {
            Some(list) => {
                let r = copy_by_id(list, id);
                if let Ok(x) = &r {
                    assert(copy_of_slot(list@, id as int, *x));
                }
                r
            },
            None => Err(DuskError::NotImplementedError("No plugin is registered".to_string())),
        }
    }

    /// Copies of the modules of the kept catalog named `name`, by slot.
    pub fn get_modules_by_name(&mut self, name: &String) -> (r: Result<Vec<Module>, DuskError>)
        requires
            old(self).caches_valid(),
        ensures
            final(self).caches_valid(),
            same_plugin(*old(self), *final(self)),
            old(self).cached_modules() is Some ==> final(self).cached_modules() == old(self).cached_modules(),
            final(self).cached_modules() matches Some(c) ==> (r matches Ok(v) && copies_of_named(c, name@, v@)),
            final(self).cached_modules() is None ==> (r matches Err(e) && catalog_query_error(e)),
            !old(self).is_registered() && old(self).cached_modules() is None ==> r matches Err(
                DuskError::NotImplementedError(_),
            ),
            (r matches Err(e) && catalog_query_error(e)) ==> final(self).cached_modules() is None,
    {
        self.ensure_modules()?;
        match &self.modules {
            Some(list) => {
                let v = copies_named(list, name);
                assert(copies_of_named(list@, name@, v@));
                Ok(v)
            },
            None => Err(DuskError::NotImplementedError("No plugin is registered".to_string())),
        }
    }

    /// A copy of the function at slot `id` of the kept catalog; an
    /// [`DuskError::IndexError`] when that slot is beyond it or a placeholder.
    pub fn get_function_by_id(&mut self, id: usize) -> (r: Result<Function, DuskError>)
        requires
            old(self).caches_valid(),
        ensures
            final(self).caches_valid(),
            same_plugin(*old(self), *final(self)),
            old(self).cached_functions() is Some ==> final(self).cached_functions() == old(self).cached_functions(),
            final(self).cached_functions() matches Some(c) ==> (r is Ok <==> holds_entry(c, id as int)) && (r matches Ok(x) ==> copy_of_slot(
                c,
                id as int,
                x,
            )) && (r matches Err(e) ==> e is IndexError),
            final(self).cached_functions() is None ==> (r matches Err(e) && catalog_query_error(e)),
            !old(self).is_registered() && old(self).cached_functions() is None ==> r matches Err(
                DuskError::NotImplementedError(_),
            ),
            (r matches Err(e) && catalog_query_error(e)) ==> final(self).cached_functions() is None,
    {
        self.ensure_functions()?;
        match &self.functions {
            Some(list) => {
                let r = copy_by_id(list, id);
                if let Ok(x) = &r {
                    assert(copy_of_slot(list@, id as int, *x));
                }
                r
            },
            None => Err(DuskError::NotImplementedError("No plugin is registered".to_string())),
        }
    }

    /// Copies of the functions of the kept catalog named `name`, by slot.
    pub fn get_functions_by_name(&mut self, name: &String) -> (r: Result<Vec<Function>, DuskError>)
        requires
            old(self).caches_valid(),
        ensures
            final(self).caches_valid(),
            same_plugin(*old(self), *final(self)),
            old(self).cached_functions() is Some ==> final(self).cached_functions() == old(self).cached_functions(),
            final(self).cached_functions() matches Some(c) ==> (r matches Ok(v) && copies_of_named(c, name@, v@)),
            final(self).cached_functions() is None ==> (r matches Err(e) && catalog_query_error(e)),
            !old(self).is_registered() && old(self).cached_functions() is None ==> r matches Err(
                DuskError::NotImplementedError(_),
            ),
            (r matches Err(e) && catalog_query_error(e)) ==> final(self).cached_functions() is None,
    {
        self.ensure_functions()?;
        match &self.functions {
            Some(list) => {
                let v = copies_named(list, name);
                assert(copies_of_named(list@, name@, v@));
                Ok(v)
            },
            None => Err(DuskError::NotImplementedError("No plugin is registered".to_string())),
        }
    }

    /// A copy of the type at slot `id` of the kept catalog; an
    /// [`DuskError::IndexError`] when that slot is beyond it or a placeholder.
    pub fn get_type_by_id(&mut self, id: usize) -> (r: Result<Type, DuskError>)
        requires
            old(self).caches_valid(),
        ensures
            final(self).caches_valid(),
            same_plugin(*old(self), *final(self)),
            old(self).cached_types() is Some ==> final(self).cached_types() == old(self).cached_types(),
            final(self).cached_types() matches Some(c) ==> (r is Ok <==> holds_entry(c, id as int)) && (r matches Ok(x) ==> copy_of_slot(
                c,
                id as int,
                x,
            )) && (r matches Err(e) ==> e is IndexError),
            final(self).cached_types() is None ==> (r matches Err(e) && catalog_query_error(e)),
            !old(self).is_registered() && old(self).cached_types() is None ==> r matches Err(
                DuskError::NotImplementedError(_),
            ),
            (r matches Err(e) && catalog_query_error(e)) ==> final(self).cached_types() is None,
    {
        self.ensure_types()?;
        match &self.types {
            Some(list) => {
                let r = copy_by_id(list, id);
                if let Ok(x) = &r {
                    assert(copy_of_slot(list@, id as int, *x));
                }
                r
            },
            None => Err(DuskError::NotImplementedError("No plugin is registered".to_string())),
        }
    }

    /// Copies of the types of the kept catalog named `name`, by slot.
    pub fn get_types_by_name(&mut self, name: &String) -> (r: Result<Vec<Type>, DuskError>)
        requires
            old(self).caches_valid(),
        ensures
            final(self).caches_valid(),
            same_plugin(*old(self), *final(self)),
            old(self).cached_types() is Some ==> final(self).cached_types() == old(self).cached_types(),
            final(self).cached_types() matches Some(c) ==> (r matches Ok(v) && copies_of_named(c, name@, v@)),
            final(self).cached_types() is None ==> (r matches Err(e) && catalog_query_error(e)),
            !old(self).is_registered() && old(self).cached_types() is None ==> r matches Err(
                DuskError::NotImplementedError(_),
            ),
            (r matches Err(e) && catalog_query_error(e)) ==> final(self).cached_types() is None,
    {
        self.ensure_types()?;
        match &self.types {
            Some(list) => {
                let v = copies_named(list, name);
                assert(copies_of_named(list@, name@, v@));
                Ok(v)
            },
            None => Err(DuskError::NotImplementedError("No plugin is registered".to_string())),
        }
    }

    /// A copy of the trait definition at slot `id` of the kept catalog; an
    /// [`DuskError::IndexError`] when that slot is beyond it or a placeholder.
    pub fn get_trait_definition_by_id(&mut self, id: usize) -> (r: Result<TraitDefinition, DuskError>)
        requires
            old(self).caches_valid(),
        ensures
            final(self).caches_valid(),
            same_plugin(*old(self), *final(self)),
            old(self).cached_trait_definitions() is Some ==> final(self).cached_trait_definitions() == old(self).cached_trait_definitions(),
            final(self).cached_trait_definitions() matches Some(c) ==> (r is Ok <==> holds_entry(c, id as int)) && (r matches Ok(x) ==> copy_of_slot(
                c,
                id as int,
                x,
            )) && (r matches Err(e) ==> e is IndexError),
            final(self).cached_trait_definitions() is None ==> (r matches Err(e) && catalog_query_error(e)),
            !old(self).is_registered() && old(self).cached_trait_definitions() is None ==> r matches Err(
                DuskError::NotImplementedError(_),
            ),
            (r matches Err(e) && catalog_query_error(e)) ==> final(self).cached_trait_definitions() is None,
    {
        self.ensure_trait_definitions()?;
        match &self.trait_definitions {
            Some(list) => {
                let r = copy_by_id(list, id);
                if let Ok(x) = &r {
                    assert(copy_of_slot(list@, id as int, *x));
                }
                r
            },
            None => Err(DuskError::NotImplementedError("No plugin is registered".to_string())),
        }
    }

    /// Copies of the trait definitions of the kept catalog named `name`, by slot.
    pub fn get_trait_definitions_by_name(&mut self, name: &String) -> (r: Result<Vec<TraitDefinition>, DuskError>)
        requires
            old(self).caches_valid(),
        ensures
            final(self).caches_valid(),
            same_plugin(*old(self), *final(self)),
            old(self).cached_trait_definitions() is Some ==> final(self).cached_trait_definitions() == old(self).cached_trait_definitions(),
            final(self).cached_trait_definitions() matches Some(c) ==> (r matches Ok(v) && copies_of_named(c, name@, v@)),
            final(self).cached_trait_definitions() is None ==> (r matches Err(e) && catalog_query_error(e)),
            !old(self).is_registered() && old(self).cached_trait_definitions() is None ==> r matches Err(
                DuskError::NotImplementedError(_),
            ),
            (r matches Err(e) && catalog_query_error(e)) ==> final(self).cached_trait_definitions() is None,
    {
        self.ensure_trait_definitions()?;
        match &self.trait_definitions {
            Some(list) => {
                let v = copies_named(list, name);
                assert(copies_of_named(list@, name@, v@));
                Ok(v)
            },
            None => Err(DuskError::NotImplementedError("No plugin is registered".to_string())),
        }
    }

    /// The callable of the function at slot `id` of the kept function
    /// catalog; an [`DuskError::IndexError`] when that slot is beyond it or a
    /// placeholder.
    pub fn get_callable_by_id(&mut self, id: usize) -> (r: Result<Arc<Box<dyn DuskCallable>>, DuskError>)
        requires
            old(self).caches_valid(),
        ensures
            final(self).caches_valid(),
            same_plugin(*old(self), *final(self)),
            old(self).cached_functions() is Some ==> final(self).cached_functions() == old(self).cached_functions(),
            final(self).cached_functions() matches Some(c) ==> (r is Ok <==> holds_entry(c, id as int)) && (r matches Ok(f) ==> f == c[id as int].callable) && (
                r matches Err(e) ==> e is IndexError),
            final(self).cached_functions() is None ==> (r matches Err(e) && catalog_query_error(e)),
            !old(self).is_registered() && old(self).cached_functions() is None ==> r matches Err(
                DuskError::NotImplementedError(_),
            ),
            (r matches Err(e) && catalog_query_error(e)) ==> final(self).cached_functions() is None,
    {
        self.ensure_functions()?;
        match &self.functions {
            Some(list) => {
                let f = entry_by_id(list, id)?;
                Ok(f.callable.clone())
            },
            None => Err(DuskError::NotImplementedError("No plugin is registered".to_string())),
        }
    }

    /// The callables of the kept function catalog, slot by slot.
    pub fn get_callable_list(&mut self) -> (r: Result<Vec<Arc<Box<dyn DuskCallable>>>, DuskError>)
        requires
            old(self).caches_valid(),
        ensures
            final(self).caches_valid(),
            same_plugin(*old(self), *final(self)),
            old(self).cached_functions() is Some ==> final(self).cached_functions() == old(self).cached_functions(),
            final(self).cached_functions() matches Some(c) ==> (r matches Ok(l) && callables_match(l@, c)),
            final(self).cached_functions() is None ==> (r matches Err(e) && catalog_query_error(e)),
            !old(self).is_registered() && old(self).cached_functions() is None ==> r matches Err(
                DuskError::NotImplementedError(_),
            ),
            (r matches Err(e) && catalog_query_error(e)) ==> final(self).cached_functions() is None,
    {
        self.ensure_functions()?;
        match &self.functions {
            Some(list) => {
                let l = callables_of(list);
                assert(callables_match(l@, list@));
                Ok(l)
            },
            None => Err(DuskError::NotImplementedError("No plugin is registered".to_string())),
        }
    }

    /// A copy of the first declared type of the kept type catalog whose
    /// native identity is `native_id`; an [`DuskError::IndexError`] when
    /// there is none.
    pub fn get_type_by_native_id(&mut self, native_id: TypeId) -> (r: Result<Type, DuskError>)
        requires
            old(self).caches_valid(),
        ensures
            final(self).caches_valid(),
            same_plugin(*old(self), *final(self)),
            old(self).cached_types() is Some ==> final(self).cached_types() == old(self).cached_types(),
            final(self).cached_types() matches Some(c) ==> (r is Ok <==> has_native_id(c, native_id)) && (r matches Ok(t) ==> exists|i: int|
                #[trigger] declares_native_id(c, i, native_id) && t.same_content(c[i])) && (
                r matches Err(e) ==> e is IndexError),
            final(self).cached_types() is None ==> (r matches Err(e) && catalog_query_error(e)),
            !old(self).is_registered() && old(self).cached_types() is None ==> r matches Err(
                DuskError::NotImplementedError(_),
            ),
            (r matches Err(e) && catalog_query_error(e)) ==> final(self).cached_types() is None,
    {
        self.ensure_types()?;
        match &self.types {
            Some(list) => {
                let t = type_by_native_id(list, &native_id)?;
                let copy = t.clone();
                proof {
                    let i = choose|i: int|
                        #[trigger] declares_native_id(list@, i, native_id) && *t == list@[i] && forall|j: int|
                            0 <= j < i ==> !declares_native_id(list@, j, native_id);
                    assert(copy.same_content(list@[i]));
                }
                Ok(copy)
            },
            None => Err(DuskError::NotImplementedError("No plugin is registered".to_string())),
        }
    }

    /// Passes the host's system limitations to the plugin; returns its
    /// requests for other plugins, none while no plugin is registered.
    pub fn init(&mut self, limitations: &Option<Vec<Limitation>>) -> (r: Vec<InterplugRequest>) {
        match &mut self.freight {
            Some(freight) => freight.init(limitations),
            None => Vec::new(),
        }
    }

    /// Passes new system limitations to the plugin.
    pub fn update_limitations(&mut self, limitations: &Vec<Limitation>) {
        if let Some(freight) = &mut self.freight {
            freight.update_limitations(limitations);
        }
    }

    /// Tells the plugin that `request` was denied.
    pub fn interplug_deny(&mut self, request: InterplugRequest) {
        if let Some(freight) = &mut self.freight {
            freight.interplug_deny(request);
        }
    }

    /// The top modules the plugin declares; none while no plugin is
    /// registered.
    pub fn top_modules(&mut self) -> (r: Vec<Module>) {
        match &mut self.freight {
            Some(freight) => freight.top_modules(),
            None => Vec::new(),
        }
    }

    /// The plugin's operator functions; none while no plugin is registered.
    pub fn get_operator_list(&mut self) -> (r: Vec<Function>) {
        match &mut self.freight {
            Some(freight) => freight.get_operator_list(),
            None => Vec::new(),
        }
    }
}

impl FreightRegistrar for FreightProxy {
    fn register_freight(&mut self, freight: Box<dyn Freight>) {
        self.freight = Some(freight);
    }
}

} // verus!

//! Catalogs: dense lists in which slot `i` holds the entity declared with
//! id `i`, or an empty-named placeholder where none was; their
//! construction from declared entities and the lookups they answer.

use vstd::prelude::*;
use std::any::TypeId;
use std::sync::Arc;
use crate::callables::DuskCallable;
use crate::copies::DeepCopy;
use crate::error::DuskError;
use crate::flatten::module_entry;
use crate::functions::Function;
use crate::modules::Module;
use crate::traits::TraitDefinition;
use crate::types::{same_type_id, Type};

verus! {

/// An entity that can stand in a catalog: it has a name and declares the
/// slot it must occupy.
pub trait CatalogEntry: Sized {
    /// The entity's name; empty for a placeholder.
    spec fn entry_name(&self) -> Seq<char>;

    /// The slot the entity declares.
    spec fn entry_id(&self) -> nat;

    /// `self` is the entity `declared` as a catalog holds it, under the
    /// full name `name`.
    spec fn declared_as(&self, name: Seq<char>, declared: Self) -> bool;

    /// The slot the entity declares.
    fn id(&self) -> (r: usize)
        ensures
            r == self.entry_id(),
    ;

    /// Whether the name is empty, as that of a placeholder.
    fn has_empty_name(&self) -> (r: bool)
        ensures
            r == (self.entry_name().len() == 0),
    ;

    /// Whether the entity is named `name`.
    fn name_equals(&self, name: &String) -> (r: bool)
        ensures
            r == (self.entry_name() == name@),
    ;

    /// `self` holds, field by field, what `other` holds.
    spec fn same_content(&self, other: Self) -> bool;

    /// A copy with the same name, slot and content.
    fn duplicate(&self) -> (r: Self)
        ensures
            r.entry_name() == self.entry_name(),
            r.entry_id() == self.entry_id(),
            r.same_content(*self),
    ;

    /// The entity has the shape of a placeholder: no name, slot zero, and
    /// nothing declared inside it.
    spec fn is_placeholder(&self) -> bool;

    /// An entity that fills an unclaimed slot.
    fn placeholder() -> (r: Self)
        ensures
            r.entry_name().len() == 0,
            r.is_placeholder(),
    ;
}

impl CatalogEntry for Function {
    open spec fn is_placeholder(&self) -> bool {
        &&& self.name@.len() == 0
        &&& self.fn_id == 0
        &&& self.parameters@.len() == 0
        &&& !self.no_check_args
        &&& self.dependencies@.len() == 0
    }

    open spec fn same_content(&self, other: Function) -> bool {
        self.is_copy_of(other)
    }

    open spec fn entry_name(&self) -> Seq<char> {
        self.name@
    }

    open spec fn entry_id(&self) -> nat {
        self.fn_id as nat
    }

    open spec fn declared_as(&self, name: Seq<char>, declared: Function) -> bool {
        &&& self.name@ == name
        &&& self.fn_id == declared.fn_id
        &&& self.callable == declared.callable
        &&& self.parameters == declared.parameters
        &&& self.return_type == declared.return_type
        &&& self.no_check_args == declared.no_check_args
        &&& self.dependencies == declared.dependencies
    }

    fn id(&self) -> (r: usize) {
        self.fn_id
    }

    fn has_empty_name(&self) -> (r: bool) {
        self.name.as_str().is_empty()
    }

    fn name_equals(&self, name: &String) -> (r: bool) {
        self.name.eq(name)
    }

    fn duplicate(&self) -> (r: Self) {
        self.clone()
    }

    fn placeholder() -> (r: Self) {
        Function::default()
    }
}

impl CatalogEntry for Type {
    open spec fn is_placeholder(&self) -> bool {
        &&& self.name@.len() == 0
        &&& self.tp_id == 0
        &&& self.methods@.len() == 0
        &&& self.fields@.len() == 0
        &&& self.trait_implementations@.len() == 0
    }

    open spec fn same_content(&self, other: Type) -> bool {
        self.is_copy_of(other)
    }

    open spec fn entry_name(&self) -> Seq<char> {
        self.name@
    }

    open spec fn entry_id(&self) -> nat {
        self.tp_id as nat
    }

    open spec fn declared_as(&self, name: Seq<char>, declared: Type) -> bool {
        &&& self.name@ == name
        &&& self.tp_id == declared.tp_id
        &&& self.methods == declared.methods
        &&& self.fields == declared.fields
        &&& self.trait_implementations == declared.trait_implementations
        &&& self.native_id == declared.native_id
    }

    fn id(&self) -> (r: usize) {
        self.tp_id
    }

    fn has_empty_name(&self) -> (r: bool) {
        self.name.as_str().is_empty()
    }

    fn name_equals(&self, name: &String) -> (r: bool) {
        self.name.eq(name)
    }

    fn duplicate(&self) -> (r: Self) {
        self.clone()
    }

    fn placeholder() -> (r: Self) {
        Type::placeholder()
    }
}

impl CatalogEntry for TraitDefinition {
    open spec fn is_placeholder(&self) -> bool {
        &&& self.name@.len() == 0
        &&& self.td_id == 0
        &&& self.methods@.len() == 0
    }

    open spec fn same_content(&self, other: TraitDefinition) -> bool {
        self.is_copy_of(other)
    }

    open spec fn entry_name(&self) -> Seq<char> {
        self.name@
    }

    open spec fn entry_id(&self) -> nat {
        self.td_id as nat
    }

    open spec fn declared_as(&self, name: Seq<char>, declared: TraitDefinition) -> bool {
        &&& self.name@ == name
        &&& self.td_id == declared.td_id
        &&& self.methods == declared.methods
    }

    fn id(&self) -> (r: usize) {
        self.td_id
    }

    fn has_empty_name(&self) -> (r: bool) {
        self.name.as_str().is_empty()
    }

    fn name_equals(&self, name: &String) -> (r: bool) {
        self.name.eq(name)
    }

    fn duplicate(&self) -> (r: Self) {
        self.clone()
    }

    fn placeholder() -> (r: Self) {
        TraitDefinition::default()
    }
}

impl CatalogEntry for Module {
    open spec fn is_placeholder(&self) -> bool {
        &&& self.name@.len() == 0
        &&& self.md_id == 0
        &&& self.types@.len() == 0
        &&& self.functions@.len() == 0
        &&& self.submodules@.len() == 0
        &&& self.trait_definitions@.len() == 0
        &&& self.constants@.len() == 0
    }

    open spec fn same_content(&self, other: Module) -> bool {
        self.is_copy_of(other)
    }

    open spec fn entry_name(&self) -> Seq<char> {
        self.name@
    }

    open spec fn entry_id(&self) -> nat {
        self.md_id as nat
    }

    open spec fn declared_as(&self, name: Seq<char>, declared: Module) -> bool {
        module_entry(*self, name, declared)
    }

    fn id(&self) -> (r: usize) {
        self.md_id
    }

    fn has_empty_name(&self) -> (r: bool) {
        self.name.as_str().is_empty()
    }

    fn name_equals(&self, name: &String) -> (r: bool) {
        self.name.eq(name)
    }

    fn duplicate(&self) -> (r: Self) {
        self.clone()
    }

    fn placeholder() -> (r: Self) {
        Module::default()
    }
}

/// `e` fills an unclaimed slot: a placeholder, with an empty name.
pub open spec fn is_blank<E: CatalogEntry>(e: E) -> bool {
    e.entry_name().len() == 0 && e.is_placeholder()
}

/// No two entries of `s` declare the same slot.
pub open spec fn ids_distinct<E: CatalogEntry>(s: Seq<E>) -> bool {
    forall|i: int, j: int| 0 <= i < j < s.len() ==> s[i].entry_id() != s[j].entry_id()
}

/// Some entry of `s` declares slot `k`.
pub open spec fn claims<E: CatalogEntry>(s: Seq<E>, k: int) -> bool {
    exists|i: int| 0 <= i < s.len() && s[i].entry_id() == k
}

/// `c` is the catalog of the entries `s`: each entry stands at the slot it
/// declares, every other slot holds a placeholder, and the last slot is
/// the highest one declared.
pub open spec fn is_catalog_of<E: CatalogEntry>(c: Seq<E>, s: Seq<E>) -> bool {
    &&& forall|i: int|
        #![trigger s[i]]
        0 <= i < s.len() ==> s[i].entry_id() < c.len() && c[s[i].entry_id() as int] == s[i]
    &&& forall|k: int| 0 <= k < c.len() ==> claims(s, k) || is_blank(#[trigger] c[k])
    &&& c.len() == 0 || claims(s, c.len() - 1)
}

/// Message of the error for two entities that declare one slot; relies on
/// `format!` to write the id in decimal.
#[verifier::external_body]
fn duplicate_id_message(id: usize) -> (r: String) {
    format!("Several entities with same id ({}) found", id)
}

/// Places each entry at the slot it declares, padding unclaimed slots with
/// placeholders; an [`DuskError::ImportError`] when two entries declare the
/// same slot.
pub fn place_by_id<E: CatalogEntry>(entries: Vec<E>) -> (r: Result<Vec<E>, DuskError>)
    requires
        forall|i: int| 0 <= i < entries.len() ==> #[trigger] entries[i].entry_name().len() > 0,
    ensures
        r is Ok <==> ids_distinct(entries@),
        r matches Ok(c) ==> is_catalog_of(c@, entries@),
        r matches Err(e) ==> e is ImportError,
{
    let ghost s = entries@;
    let mut pending = entries;
    let mut result: Vec<E> = Vec::new();
    while pending.len() > 0
        invariant
            s == entries@,
            pending@ == s.subrange(0, pending.len() as int),
            pending.len() <= s.len(),
            forall|i: int| 0 <= i < s.len() ==> #[trigger] s[i].entry_name().len() > 0,
            ids_distinct(s.subrange(pending.len() as int, s.len() as int)),
            is_catalog_of(result@, s.subrange(pending.len() as int, s.len() as int)),
        decreases pending.len(),
    {
        let ghost n = pending.len() as int;
        let ghost done = s.subrange(n, s.len() as int);
        let e = pending.pop().unwrap();
        let ghost done2 = s.subrange(n - 1, s.len() as int);
        assert(e == s[n - 1]);
        assert(done2 =~= seq![e] + done);
        let id = e.id();
        if id < result.len() {
            if !result[id].has_empty_name() {
                assert(claims(done, id as int));
                let ghost j = choose|j: int| 0 <= j < done.len() && done[j].entry_id() == id;
                assert(done[j] == s[n + j]);
                assert(s[n - 1].entry_id() == s[n + j].entry_id());
                assert(0 <= n - 1 < n + j < s.len());
                assert(!ids_distinct(s));
                return Err(DuskError::ImportError(duplicate_id_message(id)));
            }
            assert(!claims(done, id as int)) by {
                if claims(done, id as int) {
                    let j = choose|j: int| 0 <= j < done.len() && done[j].entry_id() == id;
                    assert(result@[done[j].entry_id() as int] == done[j]);
                }
            }
            let ghost old_result = result@;
            result.set(id, e);
            assert(result@ == old_result.update(id as int, e));
            assert(ids_distinct(done2)) by {
                assert forall|i: int, j: int| 0 <= i < j < done2.len() implies done2[i].entry_id()
                    != done2[j].entry_id() by {
                    if i > 0 {
                        assert(done2[i] == done[i - 1]);
                    } else {
                        assert(done2[j] == done[j - 1]);
                        assert(!(0 <= j - 1 < done.len() && done[j - 1].entry_id() == id));
                    }
                }
            }
            assert(is_catalog_of(result@, done2)) by {
                assert forall|i: int| 0 <= i < done2.len() implies #[trigger] done2[i].entry_id() < result@.len()
                    && result@[done2[i].entry_id() as int] == done2[i] by {
                    if i > 0 {
                        assert(done2[i] == done[i - 1]);
                        assert(!(0 <= i - 1 < done.len() && done[i - 1].entry_id() == id));
                        assert(old_result[done[i - 1].entry_id() as int] == done[i - 1]);
                    }
                }
                assert forall|k: int| 0 <= k < result@.len() implies claims(done2, k)
                    || is_blank(#[trigger] result@[k]) by {
                    if k != id {
                        if claims(done, k) {
                            let j = choose|j: int| 0 <= j < done.len() && done[j].entry_id() == k;
                            assert(done2[j + 1] == done[j]);
                        }
                    } else {
                        assert(done2[0] == e);
                    }
                }
                if result@.len() > 0 {
                    let j = choose|j: int| 0 <= j < done.len() && done[j].entry_id() == result@.len() - 1;
                    assert(done2[j + 1] == done[j]);
                    assert(claims(done2, result@.len() - 1));
                }
            }
        } else {
            let ghost before = result@;
            while result.len() < id
                invariant
                    before.len() <= result.len() <= id,
                    forall|k: int| 0 <= k < before.len() ==> #[trigger] result@[k] == before[k],
                    forall|k: int|
                        before.len() <= k < result.len() ==> is_blank(#[trigger] result@[k]),
                decreases id - result.len(),
            {
                result.push(E::placeholder());
            }
            result.push(e);
            assert(is_catalog_of(result@, done2)) by {
                assert forall|i: int| 0 <= i < done2.len() implies #[trigger] done2[i].entry_id() < result@.len()
                    && result@[done2[i].entry_id() as int] == done2[i] by {
                    if i > 0 {
                        assert(done2[i] == done[i - 1]);
                        assert(before[done[i - 1].entry_id() as int] == done[i - 1]);
                    }
                }
                assert forall|k: int| 0 <= k < result@.len() implies claims(done2, k)
                    || is_blank(#[trigger] result@[k]) by {
                    if k < before.len() {
                        assert(result@[k] == before[k]);
                        if claims(done, k) {
                            let j = choose|j: int| 0 <= j < done.len() && done[j].entry_id() == k;
                            assert(done2[j + 1] == done[j]);
                        }
                    } else if k == id {
                        assert(done2[0] == e);
                    }
                }
                assert(done2[0] == e);
                assert(result@.len() == id + 1);
                assert(claims(done2, id as int));
            }
            assert(ids_distinct(done2)) by {
                assert forall|i: int, j: int| 0 <= i < j < done2.len() implies done2[i].entry_id()
                    != done2[j].entry_id() by {
                    if i > 0 {
                        assert(done2[i] == done[i - 1]);
                    } else {
                        assert(done2[j] == done[j - 1]);
                        assert(before[done[j - 1].entry_id() as int] == done[j - 1]);
                    }
                }
            }
        }
    }
    assert(s.subrange(0, s.len() as int) =~= s);
    Ok(result)
}

/// Every entity of `d` has a non-empty name of its own.
pub open spec fn all_named<E: CatalogEntry>(d: Seq<(Seq<char>, E)>) -> bool {
    forall|i: int| 0 <= i < d.len() ==> (#[trigger] d[i]).1.entry_name().len() > 0
}

/// No two entities of `d` declare the same slot.
pub open spec fn declared_ids_distinct<E: CatalogEntry>(d: Seq<(Seq<char>, E)>) -> bool {
    forall|i: int, j: int| 0 <= i < j < d.len() ==> d[i].1.entry_id() != d[j].1.entry_id()
}

/// Some entity of `d` declares slot `k`.
pub open spec fn declares<E: CatalogEntry>(d: Seq<(Seq<char>, E)>, k: int) -> bool {
    exists|i: int| 0 <= i < d.len() && d[i].1.entry_id() == k
}

/// `c` is the catalog of the declared entities `d`, each paired with its
/// full name: each stands, under its full name, at the slot it declares;
/// every other slot holds a placeholder; the last slot is the highest one
/// declared.
pub open spec fn is_catalog_of_declared<E: CatalogEntry>(c: Seq<E>, d: Seq<(Seq<char>, E)>) -> bool {
    &&& forall|i: int|
        #![trigger d[i]]
        0 <= i < d.len() ==> d[i].1.entry_id() < c.len() && c[d[i].1.entry_id() as int].declared_as(
            d[i].0,
            d[i].1,
        )
    &&& forall|k: int| 0 <= k < c.len() ==> declares(d, k) || is_blank(#[trigger] c[k])
    &&& c.len() == 0 || declares(d, c.len() - 1)
}

/// `out` holds the entities of `d`, one for one, as a catalog holds them.
pub open spec fn entries_match<E: CatalogEntry>(out: Seq<E>, d: Seq<(Seq<char>, E)>) -> bool {
    &&& out.len() == d.len()
    &&& forall|i: int|
        #![trigger out[i]]
        0 <= i < out.len() ==> out[i].declared_as(d[i].0, d[i].1) && out[i].entry_id()
            == d[i].1.entry_id() && out[i].entry_name().len() > 0
}

/// Places the entities `out`, which stand for the declared `d`, by the
/// slots they declare.
pub(crate) fn place_declared<E: CatalogEntry>(out: Vec<E>, Ghost(d): Ghost<Seq<(Seq<char>, E)>>) -> (r: Result<
    Vec<E>,
    DuskError,
>)
    requires
        entries_match(out@, d),
    ensures
        r is Ok <==> declared_ids_distinct(d),
        r matches Ok(c) ==> is_catalog_of_declared(c@, d),
        r matches Err(e) ==> e is ImportError,
{
    let ghost s = out@;
    assert forall|i: int| 0 <= i < s.len() implies #[trigger] s[i].entry_name().len() > 0 by {
        assert(out@[i] == s[i]);
    }
    let r = place_by_id(out);
    assert(ids_distinct(s) <==> declared_ids_distinct(d)) by {
        if ids_distinct(s) {
            assert forall|i: int, j: int| 0 <= i < j < d.len() implies d[i].1.entry_id()
                != d[j].1.entry_id() by {
                assert(s[i].entry_id() == d[i].1.entry_id());
                assert(s[j].entry_id() == d[j].1.entry_id());
            }
        }
        if declared_ids_distinct(d) {
            assert forall|i: int, j: int| 0 <= i < j < s.len() implies s[i].entry_id()
                != s[j].entry_id() by {
                assert(s[i].entry_id() == d[i].1.entry_id());
                assert(s[j].entry_id() == d[j].1.entry_id());
            }
        }
    }
    if let Ok(c) = &r {
        assert(is_catalog_of_declared(c@, d)) by {
            assert forall|i: int| #![trigger d[i]] 0 <= i < d.len() implies d[i].1.entry_id() < c@.len()
                && c@[d[i].1.entry_id() as int].declared_as(d[i].0, d[i].1) by {
                assert(s[i].entry_id() == d[i].1.entry_id());
                assert(c@[s[i].entry_id() as int] == s[i]);
            }
            assert forall|k: int| 0 <= k < c@.len() implies declares(d, k)
                || is_blank(#[trigger] c@[k]) by {
                if claims(s, k) {
                    let i = choose|i: int| 0 <= i < s.len() && s[i].entry_id() == k;
                    assert(d[i].1.entry_id() == s[i].entry_id());
                }
            }
            if c@.len() > 0 {
                let i = choose|i: int| 0 <= i < s.len() && s[i].entry_id() == c@.len() - 1;
                assert(d[i].1.entry_id() == s[i].entry_id());
            }
        }
    }
    r
}

/// Matching entries appended to matching entries still match.
pub(crate) proof fn lemma_entries_match_append<E: CatalogEntry>(
    a: Seq<E>,
    da: Seq<(Seq<char>, E)>,
    b: Seq<E>,
    db: Seq<(Seq<char>, E)>,
)
    requires
        entries_match(a, da),
        entries_match(b, db),
    ensures
        entries_match(a + b, da + db),
{
    assert forall|i: int| #![trigger (a + b)[i]] 0 <= i < (a + b).len() implies (a + b)[i].declared_as(
        (da + db)[i].0,
        (da + db)[i].1,
    ) && (a + b)[i].entry_id() == (da + db)[i].1.entry_id() && (a + b)[i].entry_name().len() > 0 by {
        if i < a.len() {
            assert(a[i] == (a + b)[i]);
        } else {
            assert(b[i - a.len()] == (a + b)[i]);
        }
    }
}

/// `new` is `old` with entries matching `d` appended.
pub open spec fn appended<E: CatalogEntry>(old: Seq<E>, new: Seq<E>, d: Seq<(Seq<char>, E)>) -> bool {
    &&& new.len() >= old.len()
    &&& new.subrange(0, old.len() as int) == old
    &&& entries_match(new.subrange(old.len() as int, new.len() as int), d)
}

pub(crate) proof fn lemma_appended_trans<E: CatalogEntry>(
    a: Seq<E>,
    b: Seq<E>,
    c: Seq<E>,
    d1: Seq<(Seq<char>, E)>,
    d2: Seq<(Seq<char>, E)>,
)
    requires
        appended(a, b, d1),
        appended(b, c, d2),
    ensures
        appended(a, c, d1 + d2),
{
    lemma_entries_match_append(
        b.subrange(a.len() as int, b.len() as int),
        d1,
        c.subrange(b.len() as int, c.len() as int),
        d2,
    );
    assert(c.subrange(0, b.len() as int) == b);
    assert(c.subrange(0, a.len() as int) =~= b.subrange(0, a.len() as int));
    assert(c.subrange(a.len() as int, c.len() as int) =~= b.subrange(a.len() as int, b.len() as int)
        + c.subrange(b.len() as int, c.len() as int));
}

pub(crate) proof fn lemma_appended_nothing<E: CatalogEntry>(a: Seq<E>)
    ensures
        appended(a, a, seq![]),
{
    assert(a.subrange(0, a.len() as int) =~= a);
    assert(a.subrange(a.len() as int, a.len() as int) =~= seq![]);
}

/// Message of the error for a slot that holds no entity; relies on
/// `format!` to write the id in decimal.
#[verifier::external_body]
fn missing_id_message(id: usize) -> (r: String) {
    format!("Entity with index {} does not exist", id)
}

/// The entity at slot `id` of the catalog `list`; an
/// [`DuskError::IndexError`] when the slot lies beyond the catalog or holds
/// a placeholder.
pub fn entry_by_id<E: CatalogEntry>(list: &Vec<E>, id: usize) -> (r: Result<&E, DuskError>)
    ensures
        r is Ok <==> id < list.len() && list@[id as int].entry_name().len() > 0,
        r matches Ok(e) ==> *e == list@[id as int],
        r matches Err(e) ==> e is IndexError,
{
    if id >= list.len() || list[id].has_empty_name() {
        return Err(DuskError::IndexError(missing_id_message(id)));
    }
    Ok(&list[id])
}

/// `r` lists, in increasing order, exactly the slots of the catalog `list`
/// below `end` whose entities are named `name`.
pub open spec fn lists_slots_named<E: CatalogEntry>(r: Seq<usize>, list: Seq<E>, name: Seq<char>, end: int) -> bool {
    &&& forall|j: int|
        #![trigger r[j]]
        0 <= j < r.len() ==> r[j] < end && list[r[j] as int].entry_name() == name
    &&& forall|j: int, k: int| 0 <= j < k < r.len() ==> r[j] < r[k]
    &&& forall|i: int| 0 <= i < end && #[trigger] list[i].entry_name() == name ==> r.contains(i as usize)
}

/// The slots of the catalog `list` whose entities are named `name`, in
/// increasing order.
pub fn ids_by_name<E: CatalogEntry>(list: &Vec<E>, name: &String) -> (r: Vec<usize>)
    ensures
        lists_slots_named(r@, list@, name@, list.len() as int),
{
    let mut r: Vec<usize> = Vec::new();
    let mut i: usize = 0;
    while i < list.len()
        invariant
            i <= list.len(),
            lists_slots_named(r@, list@, name@, i as int),
        decreases list.len() - i,
    {
        let ghost before = r@;
        if list[i].name_equals(name) {
            r.push(i);
            assert forall|x: int| 0 <= x < i + 1 && #[trigger] list@[x].entry_name() == name@ implies r@.contains(x as usize) by {
                if x < i {
                    let j = choose|j: int| 0 <= j < before.len() && before[j] == x as usize;
                    assert(r@[j] == x as usize);
                } else {
                    assert(r@[before.len() as int] == x as usize);
                }
            }
            assert(lists_slots_named(r@, list@, name@, i + 1));
        } else {
            assert(r@ == before);
            assert forall|x: int| 0 <= x < i + 1 && #[trigger] list@[x].entry_name() == name@ implies r@.contains(x as usize) by {
                assert(x != i);
            }
            assert(lists_slots_named(r@, list@, name@, i + 1));
        }
        i += 1;
    }
    r
}

/// Catalogs are determined by what was declared: two catalogs of the same
/// declared entities, whose slots are distinct and names non-empty, have
/// the same length, hold at every declared slot that entity under its full
/// name, and hold placeholders at every other slot.
pub proof fn lemma_catalog_determined<E: CatalogEntry>(c1: Seq<E>, c2: Seq<E>, d: Seq<(Seq<char>, E)>)
    requires
        is_catalog_of_declared(c1, d),
        is_catalog_of_declared(c2, d),
        declared_ids_distinct(d),
    ensures
        c1.len() == c2.len(),
        forall|i: int|
            #![trigger d[i]]
            0 <= i < d.len() ==> c1[d[i].1.entry_id() as int].declared_as(d[i].0, d[i].1)
                && c2[d[i].1.entry_id() as int].declared_as(d[i].0, d[i].1),
        forall|k: int|
            0 <= k < c1.len() && !declares(d, k) ==> is_blank(#[trigger] c1[k]) && is_blank(c2[k]),
{
    if c1.len() > 0 {
        let i = choose|i: int| 0 <= i < d.len() && d[i].1.entry_id() == c1.len() - 1;
        assert(d[i].1.entry_id() < c2.len());
    }
    if c2.len() > 0 {
        let i = choose|i: int| 0 <= i < d.len() && d[i].1.entry_id() == c2.len() - 1;
        assert(d[i].1.entry_id() < c1.len());
    }
}

/// `copy` holds, slot by slot, copies of the entities of `list`.
pub open spec fn same_entries<E: CatalogEntry>(copy: Seq<E>, list: Seq<E>) -> bool {
    &&& copy.len() == list.len()
    &&& forall|i: int|
        #![trigger copy[i]]
        0 <= i < copy.len() ==> copy[i].entry_name() == list[i].entry_name() && copy[i].entry_id()
            == list[i].entry_id() && copy[i].same_content(list[i])
}

/// A copy of the catalog `list`.
pub fn copy_entries<E: CatalogEntry>(list: &Vec<E>) -> (r: Vec<E>)
    ensures
        same_entries(r@, list@),
{
    let mut r: Vec<E> = Vec::new();
    let mut i: usize = 0;
    while i < list.len()
        invariant
            i <= list.len(),
            r.len() == i,
            forall|j: int|
                #![trigger r@[j]]
                0 <= j < i ==> r@[j].entry_name() == list@[j].entry_name() && r@[j].entry_id()
                    == list@[j].entry_id() && r@[j].same_content(list@[j]),
        decreases list.len() - i,
    {
        r.push(list[i].duplicate());
        i += 1;
    }
    r
}

/// The callables of the function catalog `list`, slot by slot.
pub fn callables_of(list: &Vec<Function>) -> (r: Vec<Arc<Box<dyn DuskCallable>>>)
    ensures
        r.len() == list.len(),
        forall|i: int| 0 <= i < r.len() ==> #[trigger] r@[i] == list@[i].callable,
{
    let mut r: Vec<Arc<Box<dyn DuskCallable>>> = Vec::new();
    let mut i: usize = 0;
    while i < list.len()
        invariant
            i <= list.len(),
            r.len() == i,
            forall|j: int| 0 <= j < i ==> #[trigger] r@[j] == list@[j].callable,
        decreases list.len() - i,
    {
        r.push(list[i].callable.clone());
        i += 1;
    }
    r
}

/// The type at slot `i` of the type catalog `list` is a declared type (not
/// a placeholder) with the native identity `native_id`.
pub open spec fn declares_native_id(list: Seq<Type>, i: int, native_id: TypeId) -> bool {
    0 <= i < list.len() && list[i].name@.len() > 0 && list[i].native_id == native_id
}

/// Some declared type of the type catalog `list` has the native identity
/// `native_id`.
pub open spec fn has_native_id(list: Seq<Type>, native_id: TypeId) -> bool {
    exists|i: int| #[trigger] declares_native_id(list, i, native_id)
}

/// The first declared type of the type catalog `list` whose native
/// identity is `native_id`; an [`DuskError::IndexError`] when there is
/// none. Placeholder slots are never found.
pub fn type_by_native_id<'a>(list: &'a Vec<Type>, native_id: &TypeId) -> (r: Result<&'a Type, DuskError>)
    ensures
        r is Ok <==> has_native_id(list@, *native_id),
        r matches Ok(t) ==> exists|i: int|
            #[trigger] declares_native_id(list@, i, *native_id) && *t == list@[i] && forall|j: int|
                0 <= j < i ==> !declares_native_id(list@, j, *native_id),
        r matches Err(e) ==> e is IndexError,
{
    let mut i: usize = 0;
    while i < list.len()
        invariant
            i <= list.len(),
            forall|j: int| 0 <= j < i ==> !#[trigger] declares_native_id(list@, j, *native_id),
        decreases list.len() - i,
    {
        if !list[i].name.as_str().is_empty() && same_type_id(&list[i].native_id, native_id) {
            assert(declares_native_id(list@, i as int, *native_id));
            return Ok(&list[i]);
        }
        i += 1;
    }
    Err(DuskError::IndexError("Could not find type with the native id in list".to_string()))
}

/// A copy of the entity at slot `id` of the catalog `list`; an
/// [`DuskError::IndexError`] when the slot lies beyond the catalog or holds
/// a placeholder.
pub fn copy_by_id<E: CatalogEntry>(list: &Vec<E>, id: usize) -> (r: Result<E, DuskError>)
    ensures
        r is Ok <==> id < list.len() && list@[id as int].entry_name().len() > 0,
        r matches Ok(e) ==> e.entry_name() == list@[id as int].entry_name() && e.entry_id()
            == list@[id as int].entry_id() && e.same_content(list@[id as int]),
        r matches Err(e) ==> e is IndexError,
{
    let e = entry_by_id(list, id)?;
    Ok(e.duplicate())
}

/// Copies of the entities of the catalog `list` named `name`, by slot.
pub fn copies_named<E: CatalogEntry>(list: &Vec<E>, name: &String) -> (r: Vec<E>)
    ensures
        exists|ids: Seq<usize>|
            lists_slots_named(ids, list@, name@, list.len() as int) && #[trigger] ids.len() == r.len()
                && forall|j: int|
                0 <= j < r.len() ==> (#[trigger] r@[j]).entry_name() == list@[ids[j] as int].entry_name()
                    && r@[j].entry_id() == list@[ids[j] as int].entry_id() && r@[j].same_content(
                    list@[ids[j] as int],
                ),
{
    let ids = ids_by_name(list, name);
    let mut r: Vec<E> = Vec::new();
    let mut i: usize = 0;
    while i < ids.len()
        invariant
            i <= ids.len(),
            r.len() == i,
            lists_slots_named(ids@, list@, name@, list.len() as int),
            forall|j: int|
                0 <= j < i ==> (#[trigger] r@[j]).entry_name() == list@[ids@[j] as int].entry_name()
                    && r@[j].entry_id() == list@[ids@[j] as int].entry_id() && r@[j].same_content(
                    list@[ids@[j] as int],
                ),
        decreases ids.len() - i,
    {
        assert(ids@[i as int] < list.len());
        r.push(list[ids[i]].duplicate());
        i += 1;
    }
    assert(ids@.len() == r.len());
    r
}

/// Two declared entities that claim one slot leave the declared set without
/// distinct slots, so every catalog builder rejects it with an
/// [`DuskError::ImportError`] and returns no catalog.
pub proof fn lemma_shared_slot_rejected<E: CatalogEntry>(d: Seq<(Seq<char>, E)>, i: int, j: int)
    requires
        0 <= i < d.len(),
        0 <= j < d.len(),
        i != j,
        d[i].1.entry_id() == d[j].1.entry_id(),
    ensures
        !declared_ids_distinct(d),
{
    if i > j {
        assert(!(d[j].1.entry_id() != d[i].1.entry_id()));
    }
}

} // verus!

//! The shared virtual-machine context: the class registry, the object store
//! and the instruction budget.

use crate::class::method::Argument;
use crate::class::method::MethodType;
use crate::class::resolve_class_name;
use crate::class::Class;
use crate::error::ExecError;
use broom::Handle;
use vstd::prelude::*;

verus! {

/// `broom::Handle`, the handle of an object on a garbage-collected heap. It
/// is opaque here: a frame and the registry carry it and compare it, and
/// never look at what it refers to.
#[verifier::external_type_specification]
#[verifier::external_body]
#[verifier::reject_recursive_types(T)]
pub struct ExHandle<T>(broom::Handle<T>);

/// `broom::Handle`'s `PartialEq::eq`. It compares the generation and the
/// address, which are all that a handle holds, so it holds exactly when the
/// two handles are the same value.
#[verifier::external_body]
pub(crate) fn same_handle<T>(a: &Handle<T>, b: &Handle<T>) -> (r: bool)
    ensures
        r == (*a == *b),
{
    a == b
}

/// One named field of an instance.
#[derive(Debug)]
pub struct Field {
    pub name: String,
    pub value: Argument,
}

/// A heap object. It is read as a mapping from field names to values; of
/// two fields with one name only the first counts.
#[derive(Debug)]
pub struct Instance {
    pub fields: Vec<Field>,
}

/// The index of the first field at or after `from` whose name is `name`.
pub open spec fn field_position(fields: Seq<Field>, name: Seq<char>, from: int) -> Option<int>
    decreases fields.len() - from,
{
    if from < 0 || from >= fields.len() {
        None
    } else if fields[from].name@ == name {
        Some(from)
    } else {
        field_position(fields, name, from + 1)
    }
}

/// The mapping that a sequence of fields stands for.
pub open spec fn fields_map(fields: Seq<Field>) -> Map<Seq<char>, Argument> {
    Map::new(
        |n: Seq<char>| field_position(fields, n, 0) is Some,
        |n: Seq<char>| fields[field_position(fields, n, 0).unwrap()].value,
    )
}

impl View for Instance {
    type V = Map<Seq<char>, Argument>;

    open spec fn view(&self) -> Map<Seq<char>, Argument> {
        fields_map(self.fields@)
    }
}

/// A found position is in range, holds the name, and no earlier field from
/// `from` on holds it; nothing is found only if no field from `from` on
/// holds the name.
pub proof fn lemma_field_position(fields: Seq<Field>, name: Seq<char>, from: int)
    requires
        0 <= from,
    ensures
        match field_position(fields, name, from) {
            Some(i) => from <= i < fields.len() && fields[i].name@ == name && forall|j: int|
                from <= j < i ==> fields[j].name@ != name,
            None => forall|j: int| from <= j < fields.len() ==> fields[j].name@ != name,
        },
    decreases fields.len() - from,
{
    if from < fields.len() && fields[from].name@ != name {
        lemma_field_position(fields, name, from + 1);
    }
}

/// Replacing a field by one of the same name moves no position.
proof fn lemma_position_after_update(
    fields: Seq<Field>,
    at: int,
    field: Field,
    name: Seq<char>,
    from: int,
)
    requires
        0 <= from,
        0 <= at < fields.len(),
        fields[at].name@ == field.name@,
    ensures
        field_position(fields.update(at, field), name, from) == field_position(fields, name, from),
    decreases fields.len() - from,
{
    if from < fields.len() {
        lemma_position_after_update(fields, at, field, name, from + 1);
    }
}

/// Appending a field whose name is new adds one position, that of the
/// appended field, and moves no other.
proof fn lemma_position_after_push(fields: Seq<Field>, field: Field, name: Seq<char>, from: int)
    requires
        0 <= from <= fields.len(),
        field_position(fields, field.name@, from) is None,
    ensures
        field_position(fields.push(field), name, from) == if name == field.name@ {
            Some(fields.len() as int)
        } else {
            field_position(fields, name, from)
        },
    decreases fields.len() - from,
{
    if from < fields.len() {
        lemma_position_after_push(fields, field, name, from + 1);
    } else {
        assert(field_position(fields.push(field), name, from + 1) is None);
    }
}

impl Instance {
    /// An instance without fields.
    pub fn new() -> (r: Instance)
        ensures
            r@ == Map::<Seq<char>, Argument>::empty(),
    {
        let r = Instance { fields: Vec::new() };
        assert(r@ =~= Map::<Seq<char>, Argument>::empty());
        r
    }

    /// The index of the field called `name`, if there is one.
    fn position(&self, name: &String) -> (r: Option<usize>)
        ensures
            match r {
                Some(i) => i < self.fields.len() && field_position(self.fields@, name@, 0) == Some(
                    i as int,
                ),
                None => field_position(self.fields@, name@, 0) is None,
            },
    {
        let mut i: usize = 0;
        while i < self.fields.len()
            invariant
                i <= self.fields.len(),
                field_position(self.fields@, name@, 0) == field_position(
                    self.fields@,
                    name@,
                    i as int,
                ),
            decreases self.fields.len() - i,
        {
            if self.fields[i].name == *name {
                return Some(i);
            }
            i += 1;
        }
        None
    }

    /// The value of the field called `name`.
    pub fn get(&self, name: &String) -> (r: Option<Argument>)
        ensures
            match r {
                Some(v) => self@.contains_key(name@) && v == self@[name@],
                None => !self@.contains_key(name@),
            },
    {
        match self.position(name) {
            Some(i) => Some(self.fields[i].value.clone()),
            None => None,
        }
    }

    /// Writes the field called `name`, adding it if the instance has none
    /// of that name.
    pub fn insert(&mut self, name: String, value: Argument)
        ensures
            final(self)@ == old(self)@.insert(name@, value),
    {
        let ghost before = self.fields@;
        let ghost field = Field { name, value };
        match self.position(&name) {
            Some(i) => {
                self.fields[i].value = value;
                proof {
                    lemma_field_position(before, name@, 0);
                    let after = self.fields@;
                    let replaced = after[i as int];
                    assert(after =~= before.update(i as int, replaced));
                    assert forall|n: Seq<char>|
                        field_position(after, n, 0) == field_position(before, n, 0) by {
                        lemma_position_after_update(before, i as int, replaced, n, 0);
                    }
                    assert forall|n: Seq<char>|
                        n != name@ && field_position(before, n, 0) is Some implies after[field_position(
                            before,
                            n,
                            0,
                        ).unwrap()] == before[field_position(before, n, 0).unwrap()] by {
                        lemma_field_position(before, n, 0);
                    }
                    assert(fields_map(after) =~= fields_map(before).insert(name@, value));
                }
            },
            None => {
                self.fields.push(Field { name, value });
                proof {
                    let after = self.fields@;
                    assert(after == before.push(field));
                    assert forall|n: Seq<char>|
                        field_position(after, n, 0) == if n == name@ {
                            Some(before.len() as int)
                        } else {
                            field_position(before, n, 0)
                        } by {
                        lemma_position_after_push(before, field, n, 0);
                    }
                    assert forall|n: Seq<char>| n != name@ && field_position(before, n, 0) is Some
                        implies after[field_position(before, n, 0).unwrap()] == before[field_position(before, n, 0).unwrap()] by {
                        lemma_field_position(before, n, 0);
                    }
                    assert(fields_map(after) =~= fields_map(before).insert(name@, value));
                }
            },
        }
    }
}

/// A class with the handle under which the registry knows it.
#[verifier::reject_recursive_types(T)]
pub struct LoadedClass<T> {
    pub handle: Handle<T>,
    pub class: Class,
}

/// The context that every frame of one machine shares. `T` is the type of
/// the objects on the garbage-collected heap whose handles identify the
/// classes.
#[verifier::reject_recursive_types(T)]
pub struct Vastatrix<T> {
    /// The class registry, in the order of registration.
    pub classes: Vec<LoadedClass<T>>,
    /// The object store. The handle of an instance is its index.
    pub instances: Vec<Instance>,
    /// The number of instructions that may still be executed.
    pub budget: u64,
}

/// The shared context as the instructions see it.
#[verifier::reject_recursive_types(T)]
#[verifier::ext_equal]
pub struct World<T> {
    /// The class registry. No instruction changes it.
    pub classes: Seq<LoadedClass<T>>,
    /// The object store: one field mapping per instance.
    pub store: Seq<Map<Seq<char>, Argument>>,
    /// The number of instructions that may still be executed.
    pub budget: nat,
}

impl<T> View for Vastatrix<T> {
    type V = World<T>;

    open spec fn view(&self) -> World<T> {
        World { classes: self.classes@, store: store_of(self.instances@), budget: self.budget as nat }
    }
}

/// The index of the first class at or after `from` registered under
/// `handle`.
pub open spec fn class_position<T>(
    classes: Seq<LoadedClass<T>>,
    handle: Handle<T>,
    from: int,
) -> Option<int>
    decreases classes.len() - from,
{
    if from < 0 || from >= classes.len() {
        None
    } else if classes[from].handle == handle {
        Some(from)
    } else {
        class_position(classes, handle, from + 1)
    }
}

/// Whether the class names itself `name`.
pub open spec fn class_is_named(class: Class, name: Seq<char>) -> bool {
    match class.name() {
        Some(own) => own@ == name,
        None => false,
    }
}

/// The index of the first class at or after `from` that names itself
/// `name`.
pub open spec fn named_class_position<T>(
    classes: Seq<LoadedClass<T>>,
    name: Seq<char>,
    from: int,
) -> Option<int>
    decreases classes.len() - from,
{
    if from < 0 || from >= classes.len() {
        None
    } else if class_is_named(classes[from].class, name) {
        Some(from)
    } else {
        named_class_position(classes, name, from + 1)
    }
}

/// The value that a declared field of a fresh instance holds.
pub open spec fn initial_value() -> Argument {
    Argument { value: 0, kind: MethodType::Int }
}

/// The mapping of a fresh instance of a class that declares the fields
/// `names`: each of them holds the initial value.
pub open spec fn default_fields(names: Seq<String>) -> Map<Seq<char>, Argument> {
    Map::new(
        |n: Seq<char>| exists|i: int| 0 <= i < names.len() && (#[trigger] names[i])@ == n,
        |n: Seq<char>| initial_value(),
    )
}

/// What reading the field `name` of the instance `handle` yields.
pub open spec fn field_read(
    store: Seq<Map<Seq<char>, Argument>>,
    handle: int,
    name: Seq<char>,
) -> Result<Argument, ExecError> {
    if !(0 <= handle < store.len()) {
        Err(ExecError::UnknownInstance)
    } else if !store[handle].contains_key(name) {
        Err(ExecError::UnknownField)
    } else {
        Ok(store[handle][name])
    }
}

/// The store after the field `name` of the instance `handle` was written.
pub open spec fn field_written(
    store: Seq<Map<Seq<char>, Argument>>,
    handle: int,
    name: Seq<char>,
    value: Argument,
) -> Seq<Map<Seq<char>, Argument>>
    recommends
        0 <= handle < store.len(),
{
    store.update(handle, store[handle].insert(name, value))
}

/// The object store as a sequence of field mappings.
pub open spec fn store_of(instances: Seq<Instance>) -> Seq<Map<Seq<char>, Argument>> {
    instances.map_values(|i: Instance| i@)
}

impl<T> Vastatrix<T> {
    /// A context without classes or instances.
    pub fn new(budget: u64) -> (r: Self)
        ensures
            r.classes@.len() == 0,
            r.instances@.len() == 0,
            r.budget == budget,
    {
        Vastatrix { classes: Vec::new(), instances: Vec::new(), budget }
    }

    /// The object store as a sequence of field mappings.
    pub open spec fn store(&self) -> Seq<Map<Seq<char>, Argument>> {
        store_of(self.instances@)
    }

    /// Adds a class to the registry under `handle`.
    pub fn register_class(&mut self, handle: Handle<T>, class: Class)
        ensures
            final(self).classes@ == old(self).classes@.push(LoadedClass { handle, class }),
            final(self).instances == old(self).instances,
            final(self).budget == old(self).budget,
    {
        self.classes.push(LoadedClass { handle, class });
    }

    /// The index of the first class registered under `handle`.
    pub fn class_index(&self, handle: Handle<T>) -> (r: Option<usize>)
        ensures
            match r {
                Some(i) => i < self.classes@.len() && class_position(self.classes@, handle, 0)
                    == Some(i as int),
                None => class_position(self.classes@, handle, 0) is None,
            },
    {
        let mut i: usize = 0;
        while i < self.classes.len()
            invariant
                i <= self.classes.len(),
                class_position(self.classes@, handle, 0) == class_position(
                    self.classes@,
                    handle,
                    i as int,
                ),
            decreases self.classes.len() - i,
        {
            if same_handle(&self.classes[i].handle, &handle) {
                return Some(i);
            }
            i += 1;
        }
        None
    }

    /// The metadata of the first class registered under `handle`.
    pub fn get_class(&self, handle: Handle<T>) -> (r: Option<&Class>)
        ensures
            match class_position(self.classes@, handle, 0) {
                Some(i) => 0 <= i < self.classes@.len() && r == Some(&self.classes@[i].class),
                None => r is None,
            },
    {
        match self.class_index(handle) {
            Some(i) => Some(&self.classes[i].class),
            None => None,
        }
    }

    /// The handle of the first registered class that names itself `name`.
    /// Nothing is loaded here: a class that was not registered is unknown.
    pub fn load_or_get_class_handle(&self, name: &String) -> (r: Result<Handle<T>, ExecError>)
        ensures
            match named_class_position(self.classes@, name@, 0) {
                Some(i) => 0 <= i < self.classes@.len() && r == Ok::<Handle<T>, ExecError>(
                    self.classes@[i].handle,
                ),
                None => r == Err::<Handle<T>, ExecError>(ExecError::UnknownClass),
            },
    {
        match self.named_class_index(name) {
            Some(i) => Ok(self.classes[i].handle),
            None => Err(ExecError::UnknownClass),
        }
    }

    /// The metadata of the first registered class that names itself `name`.
    pub fn named_class(&self, name: &String) -> (r: Option<&Class>)
        ensures
            match named_class_position(self.classes@, name@, 0) {
                Some(i) => 0 <= i < self.classes@.len() && r == Some(&self.classes@[i].class),
                None => r is None,
            },
    {
        match self.named_class_index(name) {
            Some(i) => Some(&self.classes[i].class),
            None => None,
        }
    }

    /// The index of the first registered class that names itself `name`.
    pub fn named_class_index(&self, name: &String) -> (r: Option<usize>)
        ensures
            match r {
                Some(i) => i < self.classes@.len() && named_class_position(
                    self.classes@,
                    name@,
                    0,
                ) == Some(i as int),
                None => named_class_position(self.classes@, name@, 0) is None,
            },
    {
        let mut i: usize = 0;
        while i < self.classes.len()
            invariant
                i <= self.classes.len(),
                named_class_position(self.classes@, name@, 0) == named_class_position(
                    self.classes@,
                    name@,
                    i as int,
                ),
            decreases self.classes.len() - i,
        {
            let class = &self.classes[i].class;
            let named: bool = match resolve_class_name(&class.constant_pool, class.this_class) {
                Ok(own) => own == *name,
                Err(_) => false,
            };
            if named {
                return Some(i);
            }
            i += 1;
        }
        None
    }
}

impl<T> Vastatrix<T> {
    /// The instance under `handle`.
    pub fn get_instance(&self, handle: usize) -> (r: Option<&Instance>)
        ensures
            match r {
                Some(i) => handle < self.instances@.len() && *i == self.instances@[handle as int],
                None => handle >= self.instances@.len(),
            },
    {
        if handle < self.instances.len() {
            Some(&self.instances[handle])
        } else {
            None
        }
    }

    /// Reads the field `name` of the instance `handle`.
    pub fn get_field(&self, handle: i32, name: &String) -> (r: Result<Argument, ExecError>)
        ensures
            r == field_read(self.store(), handle as int, name@),
    {
        if handle < 0 || handle as usize >= self.instances.len() {
            return Err(ExecError::UnknownInstance);
        }
        match self.instances[handle as usize].get(name) {
            Some(v) => Ok(v),
            None => Err(ExecError::UnknownField),
        }
    }

    /// Writes the field `name` of the instance `handle`, adding the field if
    /// the instance has none of that name.
    pub fn put_field(&mut self, handle: i32, name: String, value: Argument) -> (r: Result<
        (),
        ExecError,
    >)
        ensures
            final(self).classes == old(self).classes,
            final(self).budget == old(self).budget,
            0 <= handle < old(self).store().len() ==> r is Ok && final(self).store()
                == field_written(old(self).store(), handle as int, name@, value),
            !(0 <= handle < old(self).store().len()) ==> r == Err::<(), ExecError>(
                ExecError::UnknownInstance,
            ) && final(self).store() == old(self).store(),
    {
        if handle < 0 || handle as usize >= self.instances.len() {
            return Err(ExecError::UnknownInstance);
        }
        self.instances[handle as usize].insert(name, value);
        assert(self.store() =~= field_written(old(self).store(), handle as int, name@, value));
        Ok(())
    }

    /// Adds a fresh instance of the first class registered under `handle`
    /// to the object store and returns the instance's handle.
    pub fn prepare_instance(&mut self, handle: Handle<T>) -> (r: Result<i32, ExecError>)
        ensures
            final(self).classes == old(self).classes,
            final(self).budget == old(self).budget,
            match class_position(old(self).classes@, handle, 0) {
                None => r == Err::<i32, ExecError>(ExecError::UnknownClass) && final(self).store()
                    == old(self).store(),
                Some(c) => if old(self).store().len() > i32::MAX {
                    r == Err::<i32, ExecError>(ExecError::StoreExhausted) && final(self).store()
                        == old(self).store()
                } else {
                    r == Ok::<i32, ExecError>(old(self).store().len() as i32)
                        && final(self).store() == old(self).store().push(
                        default_fields(old(self).classes@[c].class.fields@),
                    )
                },
            },
    {
        let c: usize = match self.class_index(handle) {
            Some(c) => c,
            None => { return Err(ExecError::UnknownClass); },
        };
        if self.instances.len() > 0x7fff_ffff {
            return Err(ExecError::StoreExhausted);
        }
        let names = &self.classes[c].class.fields;
        let mut instance = Instance::new();
        let mut i: usize = 0;
        while i < names.len()
            invariant
                i <= names.len(),
                instance@ == default_fields(names@.take(i as int)),
            decreases names.len() - i,
        {
            instance.insert(names[i].clone(), Argument::new(0, MethodType::Int));
            proof {
                let before = names@.take(i as int);
                let after = names@.take(i + 1);
                assert(after[i as int] == names@[i as int]);
                assert forall|n: Seq<char>|
                    default_fields(after).contains_key(n) <==> (n == names@[i as int]@
                        || default_fields(before).contains_key(n)) by {
                    if default_fields(before).contains_key(n) {
                        let j = choose|j: int| 0 <= j < before.len() && (#[trigger] before[j])@ == n;
                        assert(after[j] == before[j]);
                    }
                    if default_fields(after).contains_key(n) {
                        let j = choose|j: int| 0 <= j < after.len() && (#[trigger] after[j])@ == n;
                        if j < i {
                            assert(before[j] == after[j]);
                        }
                    }
                }
                assert(instance@ =~= default_fields(after));
            }
            i += 1;
        }
        assert(names@.take(names@.len() as int) =~= names@);
        let fresh: i32 = self.instances.len() as i32;
        self.instances.push(instance);
        assert(self.store() =~= old(self).store().push(default_fields(names@)));
        Ok(fresh)
    }
}

} // verus!

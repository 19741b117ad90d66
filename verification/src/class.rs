//! Class metadata consumed by the interpreter: the constant pool and the
//! walks that turn a symbolic reference into a name.

use crate::class::method::MethodType;
use crate::error::ExecError;
use vstd::prelude::*;

pub mod frame;
pub mod laws;
pub mod method;

verus! {

/// One entry of a constant pool. Every index is 1-based and addresses the
/// pool that holds the entry.
#[derive(Debug)]
#[allow(inconsistent_fields)]
pub enum ConstantsPoolInfo {
    Utf8 { bytes: String },
    Integer { bytes: u32 },
    Class { name_index: u16 },
    FieldRef { class_index: u16, name_and_type_index: u16 },
    MethodRef { class_index: u16, name_and_type_index: u16 },
    NameAndType { name_index: u16, descriptor_index: u16 },
}

/// One method body of a class.
#[derive(Debug)]
pub struct Method {
    pub name: String,
    pub descriptor: String,
    /// The declared parameter types, in order.
    pub params: Vec<MethodType>,
    /// The number of local slots of an activation.
    pub max_locals: u16,
    pub code: Vec<u8>,
}

/// The metadata of one class.
#[derive(Debug)]
pub struct Class {
    pub constant_pool: Vec<ConstantsPoolInfo>,
    /// The raw index of the Class entry that names this class.
    pub this_class: u16,
    /// The names of the fields that a fresh instance holds.
    pub fields: Vec<String>,
    pub methods: Vec<Method>,
}

/// The index of the first method at or after `from` with this name and
/// descriptor.
pub open spec fn method_position(
    methods: Seq<Method>,
    name: Seq<char>,
    descriptor: Seq<char>,
    from: int,
) -> Option<int>
    decreases methods.len() - from,
{
    if from < 0 || from >= methods.len() {
        None
    } else if methods[from].name@ == name && methods[from].descriptor@ == descriptor {
        Some(from)
    } else {
        method_position(methods, name, descriptor, from + 1)
    }
}

impl Class {
    /// The class's own name, as its constant pool gives it.
    pub open spec fn name(&self) -> Option<String> {
        class_name_at(self.constant_pool@, self.this_class as int)
    }

    pub fn get_constant_pool(&self) -> (r: &Vec<ConstantsPoolInfo>)
        ensures
            *r == self.constant_pool,
    {
        &self.constant_pool
    }

    pub fn get_this_class(&self) -> (r: u16)
        ensures
            r == self.this_class,
    {
        self.this_class
    }

    /// The first method with this name and descriptor.
    pub fn find_method(&self, name: &String, descriptor: &String) -> (r: Option<&Method>)
        ensures
            match method_position(self.methods@, name@, descriptor@, 0) {
                Some(i) => 0 <= i < self.methods@.len() && r == Some(&self.methods@[i]),
                None => r is None,
            },
    {
        let mut i: usize = 0;
        while i < self.methods.len()
            invariant
                i <= self.methods.len(),
                method_position(self.methods@, name@, descriptor@, 0) == method_position(
                    self.methods@,
                    name@,
                    descriptor@,
                    i as int,
                ),
            decreases self.methods.len() - i,
        {
            if self.methods[i].name == *name && self.methods[i].descriptor == *descriptor {
                return Some(&self.methods[i]);
            }
            i += 1;
        }
        None
    }
}

/// The entry that the raw index `index` addresses: entry `index - 1`.
pub open spec fn entry_at(pool: Seq<ConstantsPoolInfo>, index: int) -> Option<ConstantsPoolInfo> {
    if 1 <= index <= pool.len() {
        Some(pool[index - 1])
    } else {
        None
    }
}

/// The text of the Utf8 entry at `index`.
pub open spec fn utf8_at(pool: Seq<ConstantsPoolInfo>, index: int) -> Option<String> {
    match entry_at(pool, index) {
        Some(ConstantsPoolInfo::Utf8 { bytes }) => Some(bytes),
        _ => None,
    }
}

/// The name of the class at `index`: Class entry, then Utf8 entry.
pub open spec fn class_name_at(pool: Seq<ConstantsPoolInfo>, index: int) -> Option<String> {
    match entry_at(pool, index) {
        Some(ConstantsPoolInfo::Class { name_index }) => utf8_at(pool, name_index as int),
        _ => None,
    }
}

/// The index of the NameAndType entry that the field or method reference at
/// `index` points to.
pub open spec fn name_and_type_of(pool: Seq<ConstantsPoolInfo>, index: int) -> Option<int> {
    match entry_at(pool, index) {
        Some(ConstantsPoolInfo::FieldRef { name_and_type_index, .. }) => Some(
            name_and_type_index as int,
        ),
        Some(ConstantsPoolInfo::MethodRef { name_and_type_index, .. }) => Some(
            name_and_type_index as int,
        ),
        _ => None,
    }
}

/// The name of the field or method referenced at `index`: reference entry,
/// then NameAndType entry, then Utf8 entry.
pub open spec fn member_name_at(pool: Seq<ConstantsPoolInfo>, index: int) -> Option<String> {
    match name_and_type_of(pool, index) {
        Some(nat_index) => match entry_at(pool, nat_index) {
            Some(ConstantsPoolInfo::NameAndType { name_index, .. }) => utf8_at(
                pool,
                name_index as int,
            ),
            _ => None,
        },
        None => None,
    }
}

/// The descriptor text of the field or method referenced at `index`.
pub open spec fn member_descriptor_at(pool: Seq<ConstantsPoolInfo>, index: int) -> Option<
    String,
> {
    match name_and_type_of(pool, index) {
        Some(nat_index) => match entry_at(pool, nat_index) {
            Some(ConstantsPoolInfo::NameAndType { descriptor_index, .. }) => utf8_at(
                pool,
                descriptor_index as int,
            ),
            _ => None,
        },
        None => None,
    }
}

/// The name of the class that owns the field or method referenced at
/// `index`.
pub open spec fn member_class_at(pool: Seq<ConstantsPoolInfo>, index: int) -> Option<String> {
    match entry_at(pool, index) {
        Some(ConstantsPoolInfo::FieldRef { class_index, .. }) => class_name_at(
            pool,
            class_index as int,
        ),
        Some(ConstantsPoolInfo::MethodRef { class_index, .. }) => class_name_at(
            pool,
            class_index as int,
        ),
        _ => None,
    }
}

/// What a resolution yields: the text, or `MalformedConstantPool`.
pub open spec fn resolved(text: Option<String>) -> Result<String, ExecError> {
    match text {
        Some(t) => Ok(t),
        None => Err(ExecError::MalformedConstantPool),
    }
}

/// Looks up the entry under a raw index.
pub fn pool_entry(pool: &Vec<ConstantsPoolInfo>, index: u16) -> (r: Option<&ConstantsPoolInfo>)
    ensures
        match entry_at(pool@, index as int) {
            Some(e) => r == Some(&e),
            None => r is None,
        },
{
    if index >= 1 && (index as usize) <= pool.len() {
        Some(&pool[index as usize - 1])
    } else {
        None
    }
}

/// Reads the Utf8 entry under a raw index.
pub fn resolve_utf8(pool: &Vec<ConstantsPoolInfo>, index: u16) -> (r: Result<String, ExecError>)
    ensures
        r == resolved(utf8_at(pool@, index as int)),
{
    match pool_entry(pool, index) {
        Some(ConstantsPoolInfo::Utf8 { bytes }) => Ok(bytes.clone()),
        _ => Err(ExecError::MalformedConstantPool),
    }
}

/// Resolves a class reference to the class's name.
pub fn resolve_class_name(pool: &Vec<ConstantsPoolInfo>, class_index: u16) -> (r: Result<
    String,
    ExecError,
>)
    ensures
        r == resolved(class_name_at(pool@, class_index as int)),
{
    match pool_entry(pool, class_index) {
        Some(ConstantsPoolInfo::Class { name_index }) => resolve_utf8(pool, *name_index),
        _ => Err(ExecError::MalformedConstantPool),
    }
}

/// Resolves a field or method reference to the member's name.
pub fn resolve_member_name(pool: &Vec<ConstantsPoolInfo>, ref_index: u16) -> (r: Result<
    String,
    ExecError,
>)
    ensures
        r == resolved(member_name_at(pool@, ref_index as int)),
{
    let nat_index: u16 = match pool_entry(pool, ref_index) {
        Some(ConstantsPoolInfo::FieldRef { name_and_type_index, .. }) => *name_and_type_index,
        Some(ConstantsPoolInfo::MethodRef { name_and_type_index, .. }) => *name_and_type_index,
        _ => { return Err(ExecError::MalformedConstantPool); },
    };
    match pool_entry(pool, nat_index) {
        Some(ConstantsPoolInfo::NameAndType { name_index, .. }) => resolve_utf8(pool, *name_index),
        _ => Err(ExecError::MalformedConstantPool),
    }
}

/// Resolves a field or method reference to the member's descriptor text.
pub fn resolve_member_descriptor(pool: &Vec<ConstantsPoolInfo>, ref_index: u16) -> (r: Result<
    String,
    ExecError,
>)
    ensures
        r == resolved(member_descriptor_at(pool@, ref_index as int)),
{
    let nat_index: u16 = match pool_entry(pool, ref_index) {
        Some(ConstantsPoolInfo::FieldRef { name_and_type_index, .. }) => *name_and_type_index,
        Some(ConstantsPoolInfo::MethodRef { name_and_type_index, .. }) => *name_and_type_index,
        _ => { return Err(ExecError::MalformedConstantPool); },
    };
    match pool_entry(pool, nat_index) {
        Some(ConstantsPoolInfo::NameAndType { descriptor_index, .. }) => resolve_utf8(
            pool,
            *descriptor_index,
        ),
        _ => Err(ExecError::MalformedConstantPool),
    }
}

/// Resolves a field or method reference to the name of the owning class.
pub fn resolve_member_class(pool: &Vec<ConstantsPoolInfo>, ref_index: u16) -> (r: Result<
    String,
    ExecError,
>)
    ensures
        r == resolved(member_class_at(pool@, ref_index as int)),
{
    match pool_entry(pool, ref_index) {
        Some(ConstantsPoolInfo::FieldRef { class_index, .. }) => resolve_class_name(
            pool,
            *class_index,
        ),
        Some(ConstantsPoolInfo::MethodRef { class_index, .. }) => resolve_class_name(
            pool,
            *class_index,
        ),
        _ => Err(ExecError::MalformedConstantPool),
    }
}

} // verus!

//! Finding the main module of a process among the modules that it has loaded.

use vstd::prelude::*;
use crate::text::{chars_of, low_byte, low_byte_of};

verus! {

/// One module of a process, as a module snapshot lists it.
#[derive(Debug)]
pub struct ModuleEntry {
    /// The module's name as the fixed-size name field holds it: the name,
    /// then zero bytes up to the end of the field.
    pub name: Vec<u8>,
    /// The address at which the module is loaded.
    pub base: u64,
    /// The size of the mapped module, in bytes.
    pub size: u32,
}

/// Whether `source` and `name` agree as far as both of them reach, each
/// character of the name cut down to its low byte.
pub open spec fn sz_equal(source: Seq<u8>, name: Seq<char>) -> bool {
    forall|i: int| 0 <= i < source.len() && i < name.len() ==> source[i] == low_byte(name[i])
}

/// Whether the module number `index` is the first whose name field agrees
/// with `name`.
pub open spec fn is_first_named(modules: Seq<ModuleEntry>, name: Seq<char>, index: usize) -> bool {
    &&& index < modules.len()
    &&& sz_equal(modules[index as int].name@, name)
    &&& forall|earlier: int| 0 <= earlier < index ==> !sz_equal(modules[earlier].name@, name)
}

/// Whether no module has a name field that agrees with `name`.
pub open spec fn none_named(modules: Seq<ModuleEntry>, name: Seq<char>) -> bool {
    forall|i: int| 0 <= i < modules.len() ==> !sz_equal(modules[i].name@, name)
}

/// Compares a name field with a name, position by position, up to the end of
/// the shorter of the two.
pub fn szcmp(source: &[u8], s: &str) -> (same: bool)
    ensures
        same == sz_equal(source@, s@),
{
    let name = chars_of(s);
    let mut i: usize = 0;
    while i < source.len() && i < name.len()
        invariant
            name@ == s@,
            forall|j: int| 0 <= j < i ==> source@[j] == low_byte(name@[j]),
        decreases source@.len() - i,
    {
        if source[i] != low_byte_of(name[i]) {
            return false;
        }
        i += 1;
    }
    true
}

/// The first module whose name field agrees with the name of the process.
pub fn find_module(modules: &Vec<ModuleEntry>, proc_name: &str) -> (found: Option<usize>)
    ensures
        match found {
            Some(index) => is_first_named(modules@, proc_name@, index),
            None => none_named(modules@, proc_name@),
        },
{
    let mut i: usize = 0;
    while i < modules.len()
        invariant
            i <= modules@.len(),
            forall|earlier: int| 0 <= earlier < i ==> !sz_equal(modules@[earlier].name@, proc_name@),
        decreases modules@.len() - i,
    {
        if szcmp(modules[i].name.as_slice(), proc_name) {
            return Some(i);
        }
        i += 1;
    }
    None
}

} // verus!

//! Symbol resolution over the host process's module metadata.
//!
//! The host's memory map and dynamic symbol tables are read by platform code;
//! this module holds the verified decisions taken on what was read: fuzzy
//! module matching by file-name substring, the probe address in the middle of
//! a matched mapping, and exact symbol lookup by name. A miss is always
//! reported as `None` and never stops the caller.

use vstd::prelude::*;

use crate::matches_at;
use crate::contains_sub;

verus! {

/// One record of the process's memory map: where a mapping starts, how many
/// bytes it spans, and the file name it was mapped from (empty when
/// anonymous). Symbol names and paths are byte strings, as the dynamic
/// linker stores them.
pub struct MapEntry {
    pub start: usize,
    pub size: usize,
    pub path: Vec<u8>,
}

/// One record of a module's dynamic symbol table: a name and the address the
/// symbol resolves to.
pub struct SymbolEntry {
    pub name: Vec<u8>,
    pub addr: usize,
}

/// Byte-string substring search: returns whether `needle` occurs in `hay`.
/// An empty needle occurs in every haystack.
pub fn contains_subslice(hay: &Vec<u8>, needle: &Vec<u8>) -> (r: bool)
    ensures
        r == contains_sub(hay@, needle@),
{
    if needle.len() > hay.len() {
        assert(forall|i: int| !matches_at(hay@, needle@, i));
        return false;
    }
    let mut i: usize = 0;
    while i <= hay.len() - needle.len()
        invariant
            needle.len() <= hay.len(),
            i <= hay.len() - needle.len() + 1,
            forall|j: int| 0 <= j < i ==> !matches_at(hay@, needle@, j),
        decreases hay.len() - needle.len() - i + 1,
    {
        let mut k: usize = 0;
        let mut hit = true;
        while k < needle.len()
            invariant
                hit ==> forall|m: int| 0 <= m < k ==> hay@[i + m] == needle@[m],
                i + needle.len() <= hay.len(),
                k <= needle.len(),
                !hit ==> !matches_at(hay@, needle@, i as int),
            decreases needle.len() - k,
        {
            if hay[i + k] != needle[k] {
                hit = false;
                k = needle.len();
            } else {
                k = k + 1;
            }
        }
        if hit {
            assert(matches_at(hay@, needle@, i as int));
            return true;
        }
        i = i + 1;
    }
    assert(forall|j: int| !matches_at(hay@, needle@, j));
    false
}

/// The first memory-map entry whose file name contains `mod_name`, or `None`
/// when no entry matches. A miss is not an error: the caller simply does not
/// install the hook.
pub fn find_module_fuzzy(maps: &Vec<MapEntry>, mod_name: &Vec<u8>) -> (r: Option<usize>)
    ensures
        match r {
            Some(i) => {
                &&& i < maps@.len()
                &&& contains_sub(maps@[i as int].path@, mod_name@)
                &&& forall|j: int| 0 <= j < i ==> !contains_sub(maps@[j].path@, mod_name@)
            },
            None => forall|j: int| 0 <= j < maps@.len() ==> !contains_sub(maps@[j].path@, mod_name@),
        },
{
    let mut i: usize = 0;
    while i < maps.len()
        invariant
            i <= maps@.len(),
            forall|j: int| 0 <= j < i ==> !contains_sub(maps@[j].path@, mod_name@),
        decreases maps@.len() - i,
    {
        if contains_subslice(&maps[i].path, mod_name) {
            return Some(i);
        }
        i = i + 1;
    }
    None
}

/// The address probed inside a matched mapping: the middle of the region,
/// `start + size / 2`, from which the link-map walk proceeds outward.
/// `None` when that address does not fit in the address space.
pub fn probe_address(entry: &MapEntry) -> (r: Option<usize>)
    ensures
        match r {
            Some(a) => a == entry.start + entry.size / 2,
            None => entry.start + entry.size / 2 > usize::MAX,
        },
{
    entry.start.checked_add(entry.size / 2)
}

/// Exact lookup of `name` in a module's dynamic symbol table: the address of
/// the first entry named `name`, or `None` when the symbol is absent. A miss
/// is non-fatal; the caller treats it as "interception does not activate".
pub fn resolve(symbols: &Vec<SymbolEntry>, name: &Vec<u8>) -> (r: Option<usize>)
    ensures
        match r {
            Some(a) => exists|i: int| {
                &&& 0 <= i < symbols@.len()
                &&& symbols@[i].name@ == name@
                &&& symbols@[i].addr == a
                &&& forall|j: int| 0 <= j < i ==> symbols@[j].name@ != name@
            },
            None => forall|j: int| 0 <= j < symbols@.len() ==> symbols@[j].name@ != name@,
        },
{
    let mut i: usize = 0;
    while i < symbols.len()
        invariant
            i <= symbols@.len(),
            forall|j: int| 0 <= j < i ==> symbols@[j].name@ != name@,
        decreases symbols@.len() - i,
    {
        if eq_bytes(&symbols[i].name, name) {
            return Some(symbols[i].addr);
        }
        i = i + 1;
    }
    None
}

/// Byte-string equality.
pub fn eq_bytes(a: &Vec<u8>, b: &Vec<u8>) -> (r: bool)
    ensures
        r == (a@ == b@),
{
    if a.len() != b.len() {
        assert(a@ != b@);
        return false;
    }
    let mut i: usize = 0;
    while i < a.len()
        invariant
            a@.len() == b@.len(),
            i <= a@.len(),
            forall|j: int| 0 <= j < i ==> a@[j] == b@[j],
        decreases a@.len() - i,
    {
        if a[i] != b[i] {
            assert(a@ != b@);
            return false;
        }
        i = i + 1;
    }
    assert(a@ =~= b@);
    true
}

} // verus!

//! Locating the embedded filesystem image inside the running executable.
//!
//! The executable carries the image as one named section of its own ELF
//! file. Given the bytes of the executable, the locator returns the file
//! offset at which the image begins — the offset stored in the section
//! header, since a loop device must be bound against the on-disk byte
//! layout. ELF parsing itself is delegated to an outside parser; the scan
//! of the resulting section table is verified here.

use vstd::prelude::*;
use vstd::string::StringExecFns;

verus! {

/// The name of the executable section that holds the filesystem image.
pub open spec fn image_section_name() -> Seq<char> {
    ".squashfs"@
}

/// The section table of an ELF file: for each section, its name and its
/// file offset. The table is a function of the bytes alone; `None` stands
/// for bytes that do not parse as an ELF file.
pub uninterp spec fn elf_section_table(bytes: Seq<u8>) -> Option<Seq<(Seq<char>, u64)>>;

/// Relies on goblin's `Elf::parse`: the parse is a pure function of the
/// bytes, yielding one `SectionHeader` per section, with `sh_offset` the
/// section's file offset and its name found in `shdr_strtab` at `sh_name`.
/// A section whose name is missing from the string table is kept with an
/// empty name.
#[verifier::external_body]
fn parse_section_table(bytes: &[u8]) -> (r: Option<Vec<(String, u64)>>)
    ensures
        match r {
            Some(t) => elf_section_table(bytes@) == Some(t.deep_view()),
            None => elf_section_table(bytes@) is None,
        },
{
    match goblin::elf::Elf::parse(bytes) {
        Ok(elf) => Some(
            elf.section_headers
                .iter()
                .map(|sh| {
                    let name = elf.shdr_strtab.get_at(sh.sh_name).unwrap_or("");
                    (name.to_string(), sh.sh_offset)
                })
                .collect(),
        ),
        Err(_) => None,
    }
}

/// The file offset of the first entry of `table` named `name`, if any.
pub open spec fn section_lookup(table: Seq<(Seq<char>, u64)>, name: Seq<char>) -> Option<u64>
    decreases table.len(),
{
    if table.len() == 0 {
        None
    } else if table[0].0 == name {
        Some(table[0].1)
    } else {
        section_lookup(table.drop_first(), name)
    }
}

/// Scan a section table for the first section named `name`.
pub fn find_named_section(table: &Vec<(String, u64)>, name: &String) -> (r: Option<u64>)
    ensures
        r == section_lookup(table.deep_view(), name@),
{
    let ghost full = table.deep_view();
    proof {
        assert(full.skip(0) =~= full);
    }
    let mut i: usize = 0;
    while i < table.len()
        invariant
            0 <= i <= table.len(),
            full == table.deep_view(),
            full.len() == table.len(),
            section_lookup(full, name@) == section_lookup(full.skip(i as int), name@),
        decreases table.len() - i,
    {
        let pair = &table[i];
        if pair.0 == *name {
            proof {
                assert(full.skip(i as int)[0] == full[i as int]);
            }
            return Some(pair.1);
        }
        proof {
            assert(full.skip(i as int)[0] == full[i as int]);
            assert(full.skip(i as int).drop_first() =~= full.skip(i + 1));
        }
        i = i + 1;
    }
    proof {
        assert(full.skip(i as int).len() == 0);
    }
    None
}

/// Why the image could not be located.
#[derive(Clone, Copy, Debug, PartialEq, Eq, Structural)]
pub enum LocateError {
    /// The bytes do not parse as an ELF executable.
    InvalidExecutable,
    /// The executable has no section carrying the image.
    ImageNotFound,
}

/// The locator's result on the bytes of an executable: the file offset of
/// the first image section, or the reason there is none.
pub open spec fn spec_locate(bytes: Seq<u8>) -> Result<u64, LocateError> {
    match elf_section_table(bytes) {
        None => Err(LocateError::InvalidExecutable),
        Some(table) => match section_lookup(table, image_section_name()) {
            Some(k) => Ok(k),
            None => Err(LocateError::ImageNotFound),
        },
    }
}

/// Locate the embedded filesystem image inside the executable whose bytes
/// are given, returning its file offset.
pub fn locate_embedded_image(exe: &[u8]) -> (r: Result<u64, LocateError>)
    ensures
        r == spec_locate(exe@),
{
    match parse_section_table(exe) {
        None => Err(LocateError::InvalidExecutable),
        Some(table) => {
            let name = String::from_str(".squashfs");
            match find_named_section(&table, &name) {
                Some(k) => Ok(k),
                None => Err(LocateError::ImageNotFound),
            }
        },
    }
}

/// A lookup returns the offset of the first matching entry: whatever
/// stands after it, and whatever the entry's offset is, the result is that
/// entry's offset.
pub proof fn lemma_section_lookup_first_match(table: Seq<(Seq<char>, u64)>, name: Seq<char>, i: int)
    requires
        0 <= i < table.len(),
        table[i].0 == name,
        forall|j: int| 0 <= j < i ==> table[j].0 != name,
    ensures
        section_lookup(table, name) == Some(table[i].1),
    decreases i,
{
    if i == 0 {
    } else {
        assert(table[0].0 != name);
        assert(table.drop_first()[i - 1] == table[i]);
        assert(forall|j: int| 0 <= j < i - 1 ==> table.drop_first()[j] == table[j + 1]);
        lemma_section_lookup_first_match(table.drop_first(), name, i - 1);
    }
}

/// A lookup over a table with no matching entry returns nothing.
pub proof fn lemma_section_lookup_absent(table: Seq<(Seq<char>, u64)>, name: Seq<char>)
    requires
        forall|j: int| 0 <= j < table.len() ==> table[j].0 != name,
    ensures
        section_lookup(table, name) is None,
    decreases table.len(),
{
    if table.len() == 0 {
    } else {
        assert(forall|j: int| 0 <= j < table.len() - 1 ==> table.drop_first()[j] == table[j + 1]);
        lemma_section_lookup_absent(table.drop_first(), name);
    }
}

/// Idempotent locator: an executable whose section table holds exactly one
/// image section, at file offset `k`, is always located at `k` — whatever
/// the image's bytes and size, and whatever else the table holds.
pub proof fn lemma_locator_unique_section(bytes: Seq<u8>, table: Seq<(Seq<char>, u64)>, i: int)
    requires
        elf_section_table(bytes) == Some(table),
        0 <= i < table.len(),
        table[i].0 == image_section_name(),
        forall|j: int| 0 <= j < table.len() && j != i ==> table[j].0 != image_section_name(),
    ensures
        spec_locate(bytes) == Result::<u64, LocateError>::Ok(table[i].1),
{
    lemma_section_lookup_first_match(table, image_section_name(), i);
}

/// Idempotent locator, absent case: an executable whose section table holds
/// no image section is always reported as missing the image.
pub proof fn lemma_locator_no_section(bytes: Seq<u8>, table: Seq<(Seq<char>, u64)>)
    requires
        elf_section_table(bytes) == Some(table),
        forall|j: int| 0 <= j < table.len() ==> table[j].0 != image_section_name(),
    ensures
        spec_locate(bytes) == Result::<u64, LocateError>::Err(LocateError::ImageNotFound),
{
    lemma_section_lookup_absent(table, image_section_name());
}

} // verus!

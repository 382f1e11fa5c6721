use snow::image::{find_named_section, locate_embedded_image, LocateError};

fn le16(v: &mut Vec<u8>, x: u16) {
    v.extend_from_slice(&x.to_le_bytes());
}

fn le32(v: &mut Vec<u8>, x: u32) {
    v.extend_from_slice(&x.to_le_bytes());
}

fn le64(v: &mut Vec<u8>, x: u64) {
    v.extend_from_slice(&x.to_le_bytes());
}

fn section_header(
    v: &mut Vec<u8>,
    name: u32,
    shtype: u32,
    addr: u64,
    offset: u64,
    size: u64,
) {
    le32(v, name);
    le32(v, shtype);
    le64(v, 0); // sh_flags
    le64(v, addr);
    le64(v, offset);
    le64(v, size);
    le32(v, 0); // sh_link
    le32(v, 0); // sh_info
    le64(v, 1); // sh_addralign
    le64(v, 0); // sh_entsize
}

/// A minimal 64-bit little-endian ELF executable: a null section, the
/// section name string table, and (optionally) a `.squashfs` section whose
/// header stores `image_offset` as its file offset and a deliberately
/// different virtual address.
fn build_elf(with_image: bool, image_offset: u64, image_size: u64) -> Vec<u8> {
    let shnum: u16 = if with_image { 3 } else { 2 };
    let strtab: &[u8] = b"\0.shstrtab\0.squashfs\0";
    let strtab_off = 64 + 64 * (shnum as u64);

    let mut v = Vec::new();
    // ELF header
    v.extend_from_slice(&[0x7f, b'E', b'L', b'F', 2, 1, 1, 0]);
    v.extend_from_slice(&[0u8; 8]);
    le16(&mut v, 2); // e_type: executable
    le16(&mut v, 62); // e_machine: x86-64
    le32(&mut v, 1); // e_version
    le64(&mut v, 0); // e_entry
    le64(&mut v, 0); // e_phoff
    le64(&mut v, 64); // e_shoff
    le32(&mut v, 0); // e_flags
    le16(&mut v, 64); // e_ehsize
    le16(&mut v, 56); // e_phentsize
    le16(&mut v, 0); // e_phnum
    le16(&mut v, 64); // e_shentsize
    le16(&mut v, shnum);
    le16(&mut v, 1); // e_shstrndx

    // section headers
    section_header(&mut v, 0, 0, 0, 0, 0); // null section
    section_header(&mut v, 1, 3, 0, strtab_off, strtab.len() as u64); // .shstrtab
    if with_image {
        // virtual address differs from the file offset on purpose
        section_header(&mut v, 11, 1, 0xdead_0000, image_offset, image_size);
    }
    v.extend_from_slice(strtab);
    v
}

#[test]
fn locates_image_at_its_file_offset() {
    // image offset 0x100000, sized as in a 50 MB executable
    let elf = build_elf(true, 0x100000, 50 * 1024 * 1024 - 0x100000);
    assert_eq!(locate_embedded_image(&elf), Ok(0x100000));
}

#[test]
fn locator_result_does_not_depend_on_image_size() {
    for size in [0u64, 1, 4096, 50 * 1024 * 1024] {
        let elf = build_elf(true, 0x100000, size);
        assert_eq!(locate_embedded_image(&elf), Ok(0x100000));
    }
}

#[test]
fn locator_returns_file_offset_not_virtual_address() {
    let elf = build_elf(true, 0x2468, 100);
    // the header stores virtual address 0xdead_0000; the locator must not return it
    assert_eq!(locate_embedded_image(&elf), Ok(0x2468));
}

#[test]
fn missing_image_section_is_reported() {
    let elf = build_elf(false, 0, 0);
    assert_eq!(locate_embedded_image(&elf), Err(LocateError::ImageNotFound));
}

#[test]
fn garbage_bytes_are_not_an_executable() {
    let bytes = vec![0u8, 1, 2, 3, 4, 5, 6, 7];
    assert_eq!(locate_embedded_image(&bytes), Err(LocateError::InvalidExecutable));
}

#[test]
fn empty_input_is_not_an_executable() {
    let bytes: Vec<u8> = Vec::new();
    assert_eq!(locate_embedded_image(&bytes), Err(LocateError::InvalidExecutable));
}

#[test]
fn scan_finds_single_entry() {
    let table = vec![(String::from(".squashfs"), 77u64)];
    assert_eq!(find_named_section(&table, &String::from(".squashfs")), Some(77));
}

#[test]
fn scan_of_empty_table_finds_nothing() {
    let table: Vec<(String, u64)> = Vec::new();
    assert_eq!(find_named_section(&table, &String::from(".squashfs")), None);
}

#[test]
fn scan_skips_other_names() {
    let table = vec![
        (String::from(".text"), 1u64),
        (String::from(".data"), 2u64),
        (String::from(".squashfs"), 3u64),
    ];
    assert_eq!(find_named_section(&table, &String::from(".squashfs")), Some(3));
    assert_eq!(find_named_section(&table, &String::from(".bss")), None);
}

#[test]
fn scan_returns_first_of_equal_names() {
    let table = vec![
        (String::from(".squashfs"), 10u64),
        (String::from(".squashfs"), 20u64),
    ];
    assert_eq!(find_named_section(&table, &String::from(".squashfs")), Some(10));
}

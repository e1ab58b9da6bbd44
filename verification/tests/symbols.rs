use bpfcontain::symbols::{
    find_symbol, get_symbol_address, lookup_output, lookup_symbol, ObjectSymbols, Symbol,
    SymbolError,
};

const RUNC: &str = "/usr/bin/runc";
const DOCKERD: &str = "/usr/bin/dockerd";

fn section(
    kind: u32,
    offset: usize,
    size: usize,
    link: u32,
    entry_size: u64,
) -> Vec<u8> {
    let mut header = Vec::new();
    header.extend_from_slice(&0u32.to_le_bytes());
    header.extend_from_slice(&kind.to_le_bytes());
    header.extend_from_slice(&0u64.to_le_bytes());
    header.extend_from_slice(&0u64.to_le_bytes());
    header.extend_from_slice(&(offset as u64).to_le_bytes());
    header.extend_from_slice(&(size as u64).to_le_bytes());
    header.extend_from_slice(&link.to_le_bytes());
    header.extend_from_slice(&0u32.to_le_bytes());
    header.extend_from_slice(&1u64.to_le_bytes());
    header.extend_from_slice(&entry_size.to_le_bytes());
    header
}

fn table(symbols: &[(&[u8], u64)]) -> (Vec<u8>, Vec<u8>) {
    let mut entries = vec![0u8; 24];
    let mut strings = vec![0u8];
    for (name, address) in symbols {
        entries.extend_from_slice(&(strings.len() as u32).to_le_bytes());
        entries.extend_from_slice(&[0x12, 0, 1, 0]);
        entries.extend_from_slice(&address.to_le_bytes());
        entries.extend_from_slice(&0u64.to_le_bytes());
        strings.extend_from_slice(name);
        strings.push(0);
    }
    (entries, strings)
}

/// A 64-bit little-endian ELF file with the given dynamic and regular symbols.
fn elf(dynamic: &[(&[u8], u64)], regular: &[(&[u8], u64)]) -> Vec<u8> {
    let (dynsym, dynstr) = table(dynamic);
    let (symtab, strtab) = table(regular);
    let dynsym_at = 64;
    let dynstr_at = dynsym_at + dynsym.len();
    let symtab_at = dynstr_at + dynstr.len();
    let strtab_at = symtab_at + symtab.len();
    let shstrtab_at = strtab_at + strtab.len();
    let headers_at = shstrtab_at + 1;

    let mut file = vec![0x7f, b'E', b'L', b'F', 2, 1, 1, 0, 0, 0, 0, 0, 0, 0, 0, 0];
    file.extend_from_slice(&2u16.to_le_bytes());
    file.extend_from_slice(&62u16.to_le_bytes());
    file.extend_from_slice(&1u32.to_le_bytes());
    file.extend_from_slice(&0u64.to_le_bytes());
    file.extend_from_slice(&0u64.to_le_bytes());
    file.extend_from_slice(&(headers_at as u64).to_le_bytes());
    file.extend_from_slice(&0u32.to_le_bytes());
    for half in [64u16, 56, 0, 64, 6, 5] {
        file.extend_from_slice(&half.to_le_bytes());
    }
    assert_eq!(file.len(), 64);
    file.extend_from_slice(&dynsym);
    file.extend_from_slice(&dynstr);
    file.extend_from_slice(&symtab);
    file.extend_from_slice(&strtab);
    file.push(0);
    file.extend_from_slice(&section(0, 0, 0, 0, 0));
    file.extend_from_slice(&section(11, dynsym_at, dynsym.len(), 2, 24));
    file.extend_from_slice(&section(3, dynstr_at, dynstr.len(), 0, 0));
    file.extend_from_slice(&section(2, symtab_at, symtab.len(), 4, 24));
    file.extend_from_slice(&section(3, strtab_at, strtab.len(), 0, 0));
    file.extend_from_slice(&section(3, shstrtab_at, 1, 0, 0));
    file
}

fn message(result: Result<usize, SymbolError>) -> String {
    match result {
        Ok(address) => panic!("found at {}", address),
        Err(error) => error.message(),
    }
}

#[test]
fn runc_is_searched_through_its_dynamic_symbols() {
    let file = elf(&[(b"x_cgo_init", 0x4711)], &[(b"x_cgo_init", 0x815)]);
    let result = get_symbol_address(RUNC, "x_cgo_init", Ok(file));
    assert!(matches!(result, Ok(0x4711)));
}

#[test]
fn other_binaries_are_searched_through_their_regular_symbols() {
    let file = elf(&[(b"main.main", 0x4711)], &[(b"other", 1), (b"main.main", 0x815)]);
    let result = get_symbol_address(DOCKERD, "main.main", Ok(file));
    assert!(matches!(result, Ok(0x815)));
}

#[test]
fn the_first_of_several_symbols_is_found() {
    let file = elf(&[], &[(b"a", 1), (b"b", 2), (b"b", 3), (b"a", 4)]);
    assert!(matches!(get_symbol_address(DOCKERD, "b", Ok(file.clone())), Ok(2)));
    assert!(matches!(get_symbol_address(DOCKERD, "a", Ok(file)), Ok(1)));
}

#[test]
fn symbols_without_a_readable_name_are_passed_over() {
    let file = elf(&[], &[(b"\xff\xfe", 1), (b"main.main", 2)]);
    assert!(matches!(get_symbol_address(DOCKERD, "main.main", Ok(file)), Ok(2)));
}

#[test]
fn a_missing_dynamic_symbol_is_reported() {
    let file = elf(&[(b"main.main", 1)], &[(b"x_cgo_init", 2)]);
    let result = get_symbol_address(RUNC, "x_cgo_init", Ok(file));
    assert!(matches!(result, Err(SymbolError::NoDynamicSymbol)));
    assert_eq!(message(result), "symbol not found");
}

#[test]
fn a_missing_regular_symbol_is_reported() {
    let file = elf(&[(b"main.main", 1)], &[(b"x_cgo_init", 2)]);
    let result = get_symbol_address(DOCKERD, "main.main", Ok(file));
    assert!(matches!(result, Err(SymbolError::NoSymbol)));
    assert_eq!(message(result), "symbol not found 2");
}

/// The symbols and the string table of a COFF or PE file: one symbol, in the first section.
fn coff_symbols(name: &[u8; 8], value: u32) -> Vec<u8> {
    let mut table = name.to_vec();
    table.extend_from_slice(&value.to_le_bytes());
    table.extend_from_slice(&[1, 0, 0x20, 0, 2, 0]);
    table.extend_from_slice(&4u32.to_le_bytes());
    table
}

/// The file header and the only section header of a COFF or PE file, around `optional`.
fn coff_headers(start: usize, optional: &[u8], section_address: u32) -> Vec<u8> {
    let symbols_at = (start + 20 + optional.len() + 40) as u32;
    let mut headers = vec![0x64, 0x86, 1, 0, 0, 0, 0, 0];
    headers.extend_from_slice(&symbols_at.to_le_bytes());
    headers.extend_from_slice(&1u32.to_le_bytes());
    headers.extend_from_slice(&(optional.len() as u16).to_le_bytes());
    headers.extend_from_slice(&0u16.to_le_bytes());
    headers.extend_from_slice(optional);
    headers.extend_from_slice(b".text\0\0\0");
    headers.extend_from_slice(&0u32.to_le_bytes());
    headers.extend_from_slice(&section_address.to_le_bytes());
    headers.extend_from_slice(&[0u8; 24]);
    headers
}

/// A 64-bit PE file with one symbol.
fn pe(image_base: u64, section_address: u32, name: &[u8; 8], value: u32) -> Vec<u8> {
    let mut optional = vec![0x0b, 0x02];
    optional.extend_from_slice(&[0u8; 22]);
    optional.extend_from_slice(&image_base.to_le_bytes());
    optional.extend_from_slice(&[0u8; 80]);
    assert_eq!(optional.len(), 112);
    let mut file = b"MZ".to_vec();
    file.extend_from_slice(&[0u8; 58]);
    file.extend_from_slice(&64u32.to_le_bytes());
    file.extend_from_slice(b"PE\0\0");
    file.extend_from_slice(&coff_headers(68, &optional, section_address));
    file.extend_from_slice(&coff_symbols(name, value));
    file
}

#[test]
fn a_coff_file_is_searched() {
    let mut file = coff_headers(0, &[], 0x100);
    file.extend_from_slice(&coff_symbols(b"start\0\0\0", 0x23));
    assert!(matches!(get_symbol_address(DOCKERD, "start", Ok(file.clone())), Ok(0x123)));
    assert!(matches!(
        get_symbol_address(DOCKERD, "stop", Ok(file.clone())),
        Err(SymbolError::NoSymbol)
    ));
    assert!(matches!(
        get_symbol_address(RUNC, "start", Ok(file)),
        Err(SymbolError::NoDynamicSymbol)
    ));
}

#[test]
fn a_pe_file_is_searched() {
    let file = pe(0x40_0000, 0x1000, b"mainmain", 0x10);
    assert!(matches!(get_symbol_address(DOCKERD, "mainmain", Ok(file)), Ok(0x40_1010)));
    let file = pe(u64::MAX, 0x1000, b"mainmain", 0x10);
    assert!(matches!(get_symbol_address(DOCKERD, "mainmain", Ok(file)), Ok(0x100f)));
}

#[test]
fn a_mach_o_file_is_searched() {
    let mut file = vec![0xcf, 0xfa, 0xed, 0xfe];
    for word in [0x0100_0007u32, 3, 2, 1, 24, 0, 0, 2, 24, 56, 1, 72, 7] {
        file.extend_from_slice(&word.to_le_bytes());
    }
    assert_eq!(file.len(), 56);
    file.extend_from_slice(&[1, 0, 0, 0, 0x0f, 1, 0, 0]);
    file.extend_from_slice(&0x2000u64.to_le_bytes());
    file.extend_from_slice(b"\0_main\0");
    assert!(matches!(get_symbol_address(DOCKERD, "_main", Ok(file.clone())), Ok(0x2000)));
    assert!(matches!(
        get_symbol_address(DOCKERD, "main", Ok(file)),
        Err(SymbolError::NoSymbol)
    ));
}

#[test]
fn an_xcoff_file_is_searched() {
    let mut file = vec![0x01, 0xdf, 0, 0, 0, 0, 0, 0, 0, 0, 0, 20, 0, 0, 0, 1, 0, 0, 0, 0];
    file.extend_from_slice(b"start\0\0\0");
    file.extend_from_slice(&0x30u32.to_be_bytes());
    file.extend_from_slice(&[0, 1, 0, 0, 2, 0]);
    file.extend_from_slice(&4u32.to_be_bytes());
    assert!(matches!(get_symbol_address(DOCKERD, "start", Ok(file)), Ok(0x30)));
}

#[test]
fn a_file_that_cannot_be_parsed_is_reported() {
    let result = get_symbol_address(RUNC, "x_cgo_init", Ok(vec![b'#'; 32]));
    assert!(matches!(result, Err(SymbolError::Parse(_))));
    assert_eq!(message(result), "Unknown file magic");
    let result = get_symbol_address(DOCKERD, "main.main", Ok(vec![]));
    assert_eq!(message(result), "Could not read file magic");
}

#[test]
fn a_file_that_cannot_be_read_is_reported() {
    let result = get_symbol_address(RUNC, "x_cgo_init", Err("no such file".to_string()));
    assert!(matches!(result, Err(SymbolError::Read(_))));
    assert_eq!(message(result), "no such file");
}

#[test]
fn a_lookup_needs_no_file() {
    let symbols = || ObjectSymbols {
        dynamic: vec![Symbol { name: Some("f".to_string()), address: 1 }],
        regular: vec![
            Symbol { name: None, address: 2 },
            Symbol { name: Some("f".to_string()), address: 3 },
        ],
    };
    assert!(matches!(lookup_symbol(RUNC, "f", Ok(symbols())), Ok(1)));
    assert!(matches!(lookup_symbol(DOCKERD, "f", Ok(symbols())), Ok(3)));
    assert!(matches!(
        lookup_symbol(DOCKERD, "g", Ok(symbols())),
        Err(SymbolError::NoSymbol)
    ));
    assert_eq!(message(lookup_symbol(RUNC, "f", Err("bad".to_string()))), "bad");
    assert_eq!(find_symbol(&symbols().regular, "f"), Some(3));
    assert_eq!(find_symbol(&vec![], "f"), None);
}

#[test]
fn a_lookup_prints_what_it_searches_and_finds() {
    assert_eq!(
        lookup_output(RUNC, "x_cgo_init", &Ok(1)),
        vec!["KEVIN DEBUG: /usr/bin/runc", "KEVIN DEBUG SYMBOL FOUND x_cgo_init"]
    );
    assert_eq!(
        lookup_output(DOCKERD, "f", &Ok(1)),
        vec!["KEVIN DEBUG: /usr/bin/dockerd SYMBOLS", "KEVIN DEBUG KEVINSYMBOL FOUND f"]
    );
    assert_eq!(
        lookup_output(DOCKERD, "f", &Err(SymbolError::NoSymbol)),
        vec!["KEVIN DEBUG: /usr/bin/dockerd SYMBOLS"]
    );
    assert!(lookup_output(RUNC, "f", &Err(SymbolError::Parse("bad".to_string()))).is_empty());
    assert!(lookup_output(RUNC, "f", &Err(SymbolError::Read("bad".to_string()))).is_empty());
}

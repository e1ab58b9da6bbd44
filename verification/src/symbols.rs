//! Looking up the address of a function in an object file.

use vstd::prelude::*;
use vstd::string::StringExecFns;

use object::Object;
use object::ObjectSymbol;

use crate::text::same_text;

verus! {

/// The binary whose dynamic symbol table is searched. Every other binary is searched through its
/// regular symbol table.
pub const RUNC_BINARY_PATH: &'static str = "/usr/bin/runc";

/// What a symbol is in specifications: its name, unless it has none that is valid text, and its
/// address.
pub type SymbolModel = (Option<Seq<char>>, u64);

/// What an object file is in specifications: its dynamic and its regular symbols, or the text of
/// the error that parsing it gives.
pub type ObjectModel = Result<(Seq<SymbolModel>, Seq<SymbolModel>), Seq<char>>;

/// An entry of a symbol table.
pub struct Symbol {
    /// The symbol's name, or `None` where it cannot be read as text.
    pub name: Option<String>,
    /// The symbol's address.
    pub address: u64,
}

impl View for Symbol {
    type V = SymbolModel;

    open spec fn view(&self) -> SymbolModel {
        (
            match self.name {
                Some(name) => Some(name@),
                None => None,
            },
            self.address,
        )
    }
}

/// The symbol tables of an object file, each in the file's order.
pub struct ObjectSymbols {
    /// The dynamic symbols.
    pub dynamic: Vec<Symbol>,
    /// The regular symbols.
    pub regular: Vec<Symbol>,
}

/// The models of the symbols in `table`, in order.
pub open spec fn table_model(table: Seq<Symbol>) -> Seq<SymbolModel> {
    Seq::new(table.len(), |i: int| table[i]@)
}

/// The model of what parsing an object file gave.
pub open spec fn parsed_model(parsed: Result<ObjectSymbols, String>) -> ObjectModel {
    match parsed {
        Ok(symbols) => Ok((table_model(symbols.dynamic@), table_model(symbols.regular@))),
        Err(text) => Err(text@),
    }
}

/// What `object::File::parse` makes of the bytes of a file.
pub uninterp spec fn object_symbols(data: Seq<u8>) -> ObjectModel;

/// Calls `object::File::parse`, which takes ELF, Mach-O, PE, COFF and XCOFF files, and reads both
/// symbol tables of the file that it gives, through `dynamic_symbols` and `symbols`, and the `name`
/// and `address` of each symbol.
///
/// Claimed without proof: what comes back, the error's text included, is determined by the bytes.
#[verifier::external_body]
fn parse_object(data: &[u8]) -> (parsed: Result<ObjectSymbols, String>)
    ensures
        parsed_model(parsed) == object_symbols(data@),
{
    match object::File::parse(data) {
        Ok(file) => Ok(
            ObjectSymbols {
                dynamic: file.dynamic_symbols().map(
                    |s| Symbol { name: s.name().ok().map(String::from), address: s.address() },
                ).collect(),
                regular: file.symbols().map(
                    |s| Symbol { name: s.name().ok().map(String::from), address: s.address() },
                ).collect(),
            },
        ),
        Err(error) => Err(error.to_string()),
    }
}

/// Why a function's address could not be determined.
pub enum SymbolError {
    /// The file could not be read.
    Read(String),
    /// The file is not an object file that can be parsed.
    Parse(String),
    /// No dynamic symbol has the function's name.
    NoDynamicSymbol,
    /// No regular symbol has the function's name.
    NoSymbol,
}

/// A [`SymbolError`] in specifications.
pub enum SymbolErrorModel {
    Read(Seq<char>),
    Parse(Seq<char>),
    NoDynamicSymbol,
    NoSymbol,
}

impl View for SymbolError {
    type V = SymbolErrorModel;

    open spec fn view(&self) -> SymbolErrorModel {
        match *self {
            SymbolError::Read(text) => SymbolErrorModel::Read(text@),
            SymbolError::Parse(text) => SymbolErrorModel::Parse(text@),
            SymbolError::NoDynamicSymbol => SymbolErrorModel::NoDynamicSymbol,
            SymbolError::NoSymbol => SymbolErrorModel::NoSymbol,
        }
    }
}

impl SymbolErrorModel {
    /// The text that describes the error.
    pub open spec fn text(self) -> Seq<char> {
        match self {
            SymbolErrorModel::Read(text) => text,
            SymbolErrorModel::Parse(text) => text,
            SymbolErrorModel::NoDynamicSymbol => "symbol not found"@,
            SymbolErrorModel::NoSymbol => "symbol not found 2"@,
        }
    }
}

impl SymbolError {
    /// The text that describes the error.
    pub fn message(&self) -> (text: String)
        ensures
            text@ == self@.text(),
    {
        match self {
            SymbolError::Read(text) => text.clone(),
            SymbolError::Parse(text) => text.clone(),
            SymbolError::NoDynamicSymbol => "symbol not found".to_owned(),
            SymbolError::NoSymbol => "symbol not found 2".to_owned(),
        }
    }
}

/// Whether `i` is the position of the first symbol of `table` that is called `name`.
pub open spec fn is_first_named(table: Seq<SymbolModel>, name: Seq<char>, i: int) -> bool {
    &&& 0 <= i < table.len()
    &&& table[i].0 == Some(name)
    &&& forall|j: int| 0 <= j < i ==> (#[trigger] table[j]).0 != Some(name)
}

/// The address of the first symbol of `table` that is called `name`, if there is one.
pub open spec fn first_named(table: Seq<SymbolModel>, name: Seq<char>) -> Option<u64> {
    if exists|i: int| is_first_named(table, name, i) {
        Some(table[choose|i: int| is_first_named(table, name, i)].1)
    } else {
        None
    }
}

/// The address of the first symbol called `fn_name`, if there is one. Symbols whose names cannot
/// be read are passed over.
pub fn find_symbol(symbols: &Vec<Symbol>, fn_name: &str) -> (address: Option<u64>)
    ensures
        address == first_named(table_model(symbols@), fn_name@),
        address is None ==> forall|i: int|
            0 <= i < symbols@.len() ==> !((#[trigger] symbols@[i]).name matches Some(name) && name@
                == fn_name@),
{
    let ghost table = table_model(symbols@);
    let mut i: usize = 0;
    while i < symbols.len()
        invariant
            i <= symbols.len(),
            table == table_model(symbols@),
            forall|j: int| 0 <= j < i ==> (#[trigger] table[j]).0 != Some(fn_name@),
        decreases symbols.len() - i,
    {
        let symbol = &symbols[i];
        assert(table[i as int] == symbol@);
        if let Some(name) = &symbol.name {
            if same_text(name.as_str(), fn_name) {
                proof {
                    assert(is_first_named(table, fn_name@, i as int));
                    let first = choose|k: int| is_first_named(table, fn_name@, k);
                    assert(first == i);
                }
                return Some(symbol.address);
            }
        }
        i += 1;
    }
    assert forall|j: int| 0 <= j < symbols@.len() implies !((#[trigger] symbols@[j]).name matches Some(
        name,
    ) && name@ == fn_name@) by {
        assert(table[j].0 != Some(fn_name@));
    }
    None
}

/// The result of a lookup of `fn_name` in the binary at `so_path`, given what parsing the binary
/// gives.
pub open spec fn lookup_result(
    so_path: Seq<char>,
    fn_name: Seq<char>,
    object: ObjectModel,
) -> Result<usize, SymbolErrorModel> {
    match object {
        Err(text) => Err(SymbolErrorModel::Parse(text)),
        Ok((dynamic, regular)) => if so_path == RUNC_BINARY_PATH@ {
            match first_named(dynamic, fn_name) {
                Some(address) => Ok(address as usize),
                None => Err(SymbolErrorModel::NoDynamicSymbol),
            }
        } else {
            match first_named(regular, fn_name) {
                Some(address) => Ok(address as usize),
                None => Err(SymbolErrorModel::NoSymbol),
            }
        },
    }
}

/// The result of a lookup of `fn_name` in the binary at `so_path`, given what reading the binary
/// gives.
pub open spec fn symbol_address(
    so_path: Seq<char>,
    fn_name: Seq<char>,
    contents: Result<Seq<u8>, Seq<char>>,
) -> Result<usize, SymbolErrorModel> {
    match contents {
        Err(text) => Err(SymbolErrorModel::Read(text)),
        Ok(data) => lookup_result(so_path, fn_name, object_symbols(data)),
    }
}

/// The model of a lookup's result.
pub open spec fn address_model(result: Result<usize, SymbolError>) -> Result<
    usize,
    SymbolErrorModel,
> {
    match result {
        Ok(address) => Ok(address),
        Err(error) => Err(error@),
    }
}

/// The model of what reading a file gave.
pub open spec fn contents_model(contents: Result<Vec<u8>, String>) -> Result<
    Seq<u8>,
    Seq<char>,
> {
    match contents {
        Ok(data) => Ok(data@),
        Err(text) => Err(text@),
    }
}

/// The models of the strings in `lines`, in order.
pub open spec fn lines_model(lines: Seq<String>) -> Seq<Seq<char>> {
    Seq::new(lines.len(), |i: int| lines[i]@)
}

/// What a lookup of `fn_name` in the binary at `so_path` prints, given its result: nothing before
/// the binary is parsed, then a line on the binary, then a line on the symbol if it is there.
pub open spec fn lookup_lines(
    so_path: Seq<char>,
    fn_name: Seq<char>,
    result: Result<usize, SymbolErrorModel>,
) -> Seq<Seq<char>> {
    let runc = so_path == RUNC_BINARY_PATH@;
    let searched = if runc {
        "KEVIN DEBUG: "@ + so_path
    } else {
        "KEVIN DEBUG: "@ + so_path + " SYMBOLS"@
    };
    let found = if runc {
        "KEVIN DEBUG SYMBOL FOUND "@ + fn_name
    } else {
        "KEVIN DEBUG KEVINSYMBOL FOUND "@ + fn_name
    };
    match result {
        Err(SymbolErrorModel::Read(_)) => Seq::empty(),
        Err(SymbolErrorModel::Parse(_)) => Seq::empty(),
        Err(_) => seq![searched],
        Ok(_) => seq![searched, found],
    }
}

/// The lines that a lookup with the given result prints.
pub fn lookup_output(so_path: &str, fn_name: &str, result: &Result<usize, SymbolError>) -> (lines:
    Vec<String>)
    ensures
        lines_model(lines@) == lookup_lines(so_path@, fn_name@, address_model(*result)),
{
    let mut lines: Vec<String> = Vec::new();
    match result {
        Err(SymbolError::Read(_)) => {},
        Err(SymbolError::Parse(_)) => {},
        _ => {
            let runc = same_text(so_path, RUNC_BINARY_PATH);
            let searched = "KEVIN DEBUG: ".to_owned().concat(so_path);
            if runc {
                lines.push(searched);
            } else {
                lines.push(searched.concat(" SYMBOLS"));
            }
            if result.is_ok() {
                if runc {
                    lines.push("KEVIN DEBUG SYMBOL FOUND ".to_owned().concat(fn_name));
                } else {
                    lines.push("KEVIN DEBUG KEVINSYMBOL FOUND ".to_owned().concat(fn_name));
                }
            }
        },
    }
    assert(lines_model(lines@) =~= lookup_lines(so_path@, fn_name@, address_model(*result)));
    lines
}

/// Looks `fn_name` up in the parsed binary at `so_path`: among the dynamic symbols of
/// [`RUNC_BINARY_PATH`], among the regular symbols of any other binary.
pub fn lookup_symbol(
    so_path: &str,
    fn_name: &str,
    parsed: Result<ObjectSymbols, String>,
) -> (result: Result<usize, SymbolError>)
    ensures
        address_model(result) == lookup_result(so_path@, fn_name@, parsed_model(parsed)),
{
    match parsed {
        Err(text) => Err(SymbolError::Parse(text)),
        Ok(symbols) => if same_text(so_path, RUNC_BINARY_PATH) {
            match find_symbol(&symbols.dynamic, fn_name) {
                Some(address) => Ok(address as usize),
                None => Err(SymbolError::NoDynamicSymbol),
            }
        } else {
            match find_symbol(&symbols.regular, fn_name) {
                Some(address) => Ok(address as usize),
                None => Err(SymbolError::NoSymbol),
            }
        },
    }
}

/// The address of the function `fn_name` in the binary at `so_path`, whose contents, or the text
/// of the error that reading them gave, are `contents`.
pub fn get_symbol_address(
    so_path: &str,
    fn_name: &str,
    contents: Result<Vec<u8>, String>,
) -> (result: Result<usize, SymbolError>)
    ensures
        address_model(result) == symbol_address(so_path@, fn_name@, contents_model(contents)),
{
    match contents {
        Err(text) => Err(SymbolError::Read(text)),
        Ok(data) => {
            let parsed = parse_object(data.as_slice());
            lookup_symbol(so_path, fn_name, parsed)
        },
    }
}

/// A table has a first symbol of a name exactly if it has a symbol of that name.
proof fn lemma_first_named_exists(table: Seq<SymbolModel>, name: Seq<char>, k: int)
    requires
        0 <= k < table.len(),
        table[k].0 == Some(name),
    ensures
        exists|i: int| is_first_named(table, name, i),
    decreases k,
{
    if forall|j: int| 0 <= j < k ==> (#[trigger] table[j]).0 != Some(name) {
        assert(is_first_named(table, name, k));
    } else {
        let j = choose|j: int| 0 <= j < k && (#[trigger] table[j]).0 == Some(name);
        lemma_first_named_exists(table, name, j);
    }
}

/// The table in which a lookup in the binary at `so_path` searches.
pub open spec fn searched_table(
    so_path: Seq<char>,
    dynamic: Seq<SymbolModel>,
    regular: Seq<SymbolModel>,
) -> Seq<SymbolModel> {
    if so_path == RUNC_BINARY_PATH@ {
        dynamic
    } else {
        regular
    }
}

/// A lookup in a parsed binary succeeds exactly if the searched table has a symbol of the
/// function's name, and it gives the address of the first of these; the table that is not searched
/// has no say.
pub proof fn law_lookup(
    so_path: Seq<char>,
    fn_name: Seq<char>,
    dynamic: Seq<SymbolModel>,
    regular: Seq<SymbolModel>,
)
    ensures
        lookup_result(so_path, fn_name, Ok((dynamic, regular))) is Ok <==> exists|k: int|
            0 <= k < searched_table(so_path, dynamic, regular).len() && (
            #[trigger] searched_table(so_path, dynamic, regular)[k]).0 == Some(fn_name),
        forall|i: int| #[trigger]
            is_first_named(searched_table(so_path, dynamic, regular), fn_name, i)
                ==> lookup_result(so_path, fn_name, Ok((dynamic, regular))) == Ok::<
                usize,
                SymbolErrorModel,
            >(searched_table(so_path, dynamic, regular)[i].1 as usize),
{
    let searched = searched_table(so_path, dynamic, regular);
    if exists|k: int| 0 <= k < searched.len() && (#[trigger] searched[k]).0 == Some(fn_name) {
        let k = choose|k: int|
            0 <= k < searched.len() && (#[trigger] searched[k]).0 == Some(fn_name);
        lemma_first_named_exists(searched, fn_name, k);
    }
    if first_named(searched, fn_name) is Some {
        let i = choose|i: int| is_first_named(searched, fn_name, i);
        assert(searched[i].0 == Some(fn_name));
    }
    assert forall|i: int| #[trigger] is_first_named(searched, fn_name, i) implies first_named(
        searched,
        fn_name,
    ) == Some(searched[i].1) by {
        let first = choose|k: int| is_first_named(searched, fn_name, k);
        assert(first == i);
    }
}

/// What a search of a symbol table gives is the address of a symbol of the wanted name that no other
/// one of that name comes before; it gives nothing exactly if no symbol has the name.
pub proof fn law_find_symbol(symbols: Seq<Symbol>, fn_name: Seq<char>, address: Option<u64>)
    requires
        address == first_named(table_model(symbols), fn_name),
    ensures
        match address {
            Some(address) => exists|i: int|
                {
                    &&& 0 <= i < symbols.len()
                    &&& (#[trigger] symbols[i]).name matches Some(name) && name@ == fn_name
                    &&& symbols[i].address == address
                    &&& forall|j: int|
                        0 <= j < i ==> !((#[trigger] symbols[j]).name matches Some(name) && name@
                            == fn_name)
                },
            None => forall|i: int|
                0 <= i < symbols.len() ==> !((#[trigger] symbols[i]).name matches Some(name)
                    && name@ == fn_name),
        },
{
    let table = table_model(symbols);
    assert(table.len() == symbols.len());
    assert forall|i: int| 0 <= i < symbols.len() implies (((#[trigger] symbols[i]).name matches Some(
        name,
    ) && name@ == fn_name) <==> table[i].0 == Some(fn_name)) && symbols[i].address == table[i].1 by {
    }
    match address {
        Some(_) => {
            let i = choose|i: int| is_first_named(table, fn_name, i);
            assert(symbols[i].address == table[i].1);
            assert forall|j: int| 0 <= j < i implies !((#[trigger] symbols[j]).name matches Some(name)
                && name@ == fn_name) by {
                assert(table[j].0 != Some(fn_name));
            }
        },
        None => {
            assert forall|i: int| 0 <= i < symbols.len() implies !((
            #[trigger] symbols[i]).name matches Some(name) && name@ == fn_name) by {
                if table[i].0 == Some(fn_name) {
                    lemma_first_named_exists(table, fn_name, i);
                }
            }
        },
    }
}

/// Of a file that was parsed, a lookup in runc gives what a search of the dynamic symbols gives, and
/// a lookup in any other binary what a search of the regular symbols gives.
pub proof fn law_lookup_symbol(
    so_path: Seq<char>,
    fn_name: Seq<char>,
    symbols: ObjectSymbols,
    table: Seq<Symbol>,
    result: Result<usize, SymbolError>,
)
    requires
        table == (if so_path == "/usr/bin/runc"@ {
            symbols.dynamic@
        } else {
            symbols.regular@
        }),
        address_model(result) == lookup_result(so_path, fn_name, parsed_model(Ok(symbols))),
    ensures
        match result {
            Ok(address) => exists|i: int|
                {
                    &&& 0 <= i < table.len()
                    &&& (#[trigger] table[i]).name matches Some(name) && name@ == fn_name
                    &&& address == table[i].address as usize
                    &&& table[i].address <= usize::MAX ==> address == table[i].address
                    &&& forall|j: int|
                        0 <= j < i ==> !((#[trigger] table[j]).name matches Some(name) && name@
                            == fn_name)
                },
            Err(error) => {
                &&& so_path == "/usr/bin/runc"@ ==> error is NoDynamicSymbol
                &&& so_path != "/usr/bin/runc"@ ==> error is NoSymbol
                &&& forall|i: int|
                    0 <= i < table.len() ==> !((#[trigger] table[i]).name matches Some(name)
                        && name@ == fn_name)
            },
        },
{
    let found = first_named(table_model(table), fn_name);
    law_find_symbol(table, fn_name, found);
    if let Some(address) = found {
        let i = choose|i: int|
            {
                &&& 0 <= i < table.len()
                &&& (#[trigger] table[i]).name matches Some(name) && name@ == fn_name
                &&& table[i].address == address
                &&& forall|j: int|
                    0 <= j < i ==> !((#[trigger] table[j]).name matches Some(name) && name@
                        == fn_name)
            };
        assert(table[i].address == address);
        assert(result == Ok::<usize, SymbolError>(address as usize));
    }
}

/// A lookup in a binary that could not be read or parsed fails for the same reason.
pub proof fn law_lookup_fails(
    so_path: Seq<char>,
    fn_name: Seq<char>,
    contents: Result<Vec<u8>, String>,
    result: Result<usize, SymbolError>,
)
    requires
        address_model(result) == symbol_address(so_path, fn_name, contents_model(contents)),
    ensures
        contents matches Err(text) ==> result matches Err(SymbolError::Read(reason)) && reason@
            == text@,
        contents matches Ok(data) ==> object_symbols(data@) matches Err(text)
            ==> result matches Err(SymbolError::Parse(reason)) && reason@ == text,
        result matches Err(SymbolError::Read(_)) ==> contents is Err,
        result matches Err(SymbolError::Parse(_)) ==> contents matches Ok(data) && object_symbols(
            data@,
        ) is Err,
{
}

/// A lookup in a binary of any length succeeds exactly if parsing the whole of its contents gives a
/// searched table with a symbol of the function's name, and then gives the address of the first such
/// symbol. The searched table is that of the dynamic symbols for runc, and that of the regular ones
/// for any other binary.
pub proof fn law_get_symbol_address(
    so_path: Seq<char>,
    fn_name: Seq<char>,
    data: Vec<u8>,
    table: Seq<SymbolModel>,
    result: Result<usize, SymbolError>,
)
    requires
        object_symbols(data@) matches Ok((dynamic, regular)) && table == (if so_path
            == "/usr/bin/runc"@ {
            dynamic
        } else {
            regular
        }),
        address_model(result) == symbol_address(so_path, fn_name, contents_model(Ok(data))),
    ensures
        result is Ok <==> exists|k: int|
            0 <= k < table.len() && (#[trigger] table[k]).0 == Some(fn_name),
        forall|k: int|
            {
                &&& 0 <= k < table.len()
                &&& (#[trigger] table[k]).0 == Some(fn_name)
                &&& forall|j: int| 0 <= j < k ==> (#[trigger] table[j]).0 != Some(fn_name)
            } ==> {
                &&& result matches Ok(address)
                &&& address == table[k].1 as usize
                &&& table[k].1 <= usize::MAX ==> address == table[k].1
            },
        so_path == "/usr/bin/runc"@ ==> (result matches Err(error) ==> error is NoDynamicSymbol),
        so_path != "/usr/bin/runc"@ ==> (result matches Err(error) ==> error is NoSymbol),
{
    let tables = object_symbols(data@)->Ok_0;
    law_lookup(so_path, fn_name, tables.0, tables.1);
    assert(table == searched_table(so_path, tables.0, tables.1));
    assert forall|k: int|
        {
            &&& 0 <= k < table.len()
            &&& (#[trigger] table[k]).0 == Some(fn_name)
            &&& forall|j: int| 0 <= j < k ==> (#[trigger] table[j]).0 != Some(fn_name)
        } implies {
        &&& result matches Ok(address)
        &&& address == table[k].1 as usize
        &&& table[k].1 <= usize::MAX ==> address == table[k].1
    } by {
        assert(is_first_named(table, fn_name, k));
    }
}

/// An error's text is the reason that came with it, or says that the symbol was not found.
pub proof fn law_error_message(error: SymbolError)
    ensures
        match error {
            SymbolError::Read(reason) => error@.text() == reason@,
            SymbolError::Parse(reason) => error@.text() == reason@,
            SymbolError::NoDynamicSymbol => error@.text() == "symbol not found"@,
            SymbolError::NoSymbol => error@.text() == "symbol not found 2"@,
        },
{
}

/// A lookup prints nothing about a binary that could not be read or parsed. Otherwise it names the
/// binary, and then the function exactly if it was found.
pub proof fn law_lookup_output(
    so_path: Seq<char>,
    fn_name: Seq<char>,
    result: Result<usize, SymbolError>,
    lines: Seq<String>,
)
    requires
        lines_model(lines) == lookup_lines(so_path, fn_name, address_model(result)),
    ensures
        (result matches Err(SymbolError::Read(_)) || result matches Err(SymbolError::Parse(_)))
            <==> lines.len() == 0,
        result is Ok <==> lines.len() == 2,
        lines.len() <= 2,
        lines.len() > 0 && so_path == "/usr/bin/runc"@ ==> lines[0]@ == "KEVIN DEBUG: "@ + so_path,
        lines.len() > 0 && so_path != "/usr/bin/runc"@ ==> lines[0]@ == "KEVIN DEBUG: "@ + so_path
            + " SYMBOLS"@,
        lines.len() == 2 && so_path == "/usr/bin/runc"@ ==> lines[1]@ == "KEVIN DEBUG SYMBOL FOUND "@
            + fn_name,
        lines.len() == 2 && so_path != "/usr/bin/runc"@ ==> lines[1]@
            == "KEVIN DEBUG KEVINSYMBOL FOUND "@ + fn_name,
{
    let model = lines_model(lines);
    assert(model.len() == lines.len());
    if lines.len() > 0 {
        assert(model[0] == lines[0]@);
    }
    if lines.len() == 2 {
        assert(model[1] == lines[1]@);
    }
}

} // verus!

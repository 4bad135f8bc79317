//! The PE image handle and its segment, section and symbol views.
use vstd::prelude::*;
use goblin::pe::section_table::SectionTable;
use crate::headers::{
    ExportEntry, ImportName, PeHeaders, opt_str_view, parse_headers, parsed_headers, section_name,
    section_name_view,
};
use crate::object::{
    Machine, Relocation, SectionIndex, SectionKind, Symbol, SymbolIndex, SymbolKind, SymbolMap,
    data_range, kept_symbols, range_fits, sorted_by_address,
};

verus! {

/// COFF machine value of 32-bit x86.
pub const COFF_MACHINE_X86: u16 = 0x014c;

/// COFF machine value of x86-64.
pub const COFF_MACHINE_X86_64: u16 = 0x8664;

/// Section characteristics: the section holds code.
pub const IMAGE_SCN_CNT_CODE: u32 = 0x20;

/// Section characteristics: the section holds initialized data.
pub const IMAGE_SCN_CNT_INITIALIZED_DATA: u32 = 0x40;

/// Section characteristics: the section holds uninitialized data.
pub const IMAGE_SCN_CNT_UNINITIALIZED_DATA: u32 = 0x80;

/// Section characteristics: the section can be executed.
pub const IMAGE_SCN_MEM_EXECUTE: u32 = 0x2000_0000;

/// Section alignment of an image without an optional header.
pub const DEFAULT_SECTION_ALIGNMENT: u64 = 0x1000;

/// The machine tag of a COFF machine value.
pub open spec fn machine_of(m: u16) -> Machine {
    if m == COFF_MACHINE_X86 {
        Machine::X86
    } else if m == COFF_MACHINE_X86_64 {
        Machine::X86_64
    } else {
        Machine::Other
    }
}

/// The semantic kind of a section, by the first characteristic that matches:
/// code or execute, then initialized data, then uninitialized data.
pub open spec fn kind_of(c: u32) -> SectionKind {
    if c & (IMAGE_SCN_CNT_CODE | IMAGE_SCN_MEM_EXECUTE) != 0 {
        SectionKind::Text
    } else if c & IMAGE_SCN_CNT_INITIALIZED_DATA != 0 {
        SectionKind::Data
    } else if c & IMAGE_SCN_CNT_UNINITIALIZED_DATA != 0 {
        SectionKind::UninitializedData
    } else {
        SectionKind::Unknown
    }
}

/// The name whose presence marks DWARF debug information.
pub open spec fn debug_info_name() -> Seq<char> {
    seq!['.', 'd', 'e', 'b', 'u', 'g', '_', 'i', 'n', 'f', 'o']
}

/// The number of file-backed bytes of a section: the smaller of its virtual
/// size and its raw size.
pub open spec fn backed_len(s: SectionTable) -> nat {
    if s.virtual_size <= s.size_of_raw_data {
        s.virtual_size as nat
    } else {
        s.size_of_raw_data as nat
    }
}

/// Whether the file-backed bytes of a section lie inside the image buffer.
pub open spec fn backed_in_bounds(data: Seq<u8>, s: SectionTable) -> bool {
    s.pointer_to_raw_data + backed_len(s) <= data.len()
}

/// The file-backed bytes of a section: `data[ptr .. ptr + backed_len]`, or
/// nothing when that range leaves the buffer.
pub open spec fn backed_bytes(data: Seq<u8>, s: SectionTable) -> Seq<u8> {
    if backed_in_bounds(data, s) {
        data.subrange(s.pointer_to_raw_data as int, s.pointer_to_raw_data + backed_len(s))
    } else {
        Seq::empty()
    }
}

/// Whether two strings hold the same characters.
fn str_eq(a: &str, b: &str) -> (r: bool)
    ensures
        r == (a@ == b@),
{
    let x = a.as_bytes();
    let y = b.as_bytes();
    proof {
        vstd::utf8::encode_utf8_decode_utf8(a@);
        vstd::utf8::encode_utf8_decode_utf8(b@);
        assert(x@ == vstd::utf8::encode_utf8(a@));
        assert(y@ == vstd::utf8::encode_utf8(b@));
    }
    if x.len() != y.len() {
        return false;
    }
    let mut i: usize = 0;
    while i < x.len()
        invariant
            x@.len() == y@.len(),
            x@ == vstd::utf8::encode_utf8(a@),
            y@ == vstd::utf8::encode_utf8(b@),
            0 <= i <= x@.len(),
            forall|k: int| 0 <= k < i ==> x@[k] == y@[k],
        decreases x@.len() - i,
    {
        if x[i] != y[i] {
            assert(x@[i as int] != y@[i as int]);
            return false;
        }
        i = i + 1;
    }
    assert(x@ =~= y@);
    true
}

/// The bytes of a section header's file-backed range, or an empty slice when
/// that range leaves the buffer.
fn backed_slice<'data>(data: &'data [u8], s: &SectionTable) -> (r: &'data [u8])
    ensures
        r@ == backed_bytes(data@, *s),
{
    let size: u32 = if s.virtual_size <= s.size_of_raw_data {
        s.virtual_size
    } else {
        s.size_of_raw_data
    };
    let len: usize = data.len();
    let start: u64 = s.pointer_to_raw_data as u64;
    if start <= len as u64 && size as u64 <= len as u64 - start {
        vstd::slice::slice_subrange(data, start as usize, start as usize + size as usize)
    } else {
        vstd::slice::slice_subrange(data, 0, 0)
    }
}

/// A PE image: the borrowed buffer and the headers parsed from it.
pub struct PeFile<'data> {
    pe: PeHeaders<'data>,
    data: &'data [u8],
}

/// Whether the exports and imports together can be counted in a `usize`.
pub open spec fn symbol_count_fits(m: crate::headers::PeHeadersModel) -> bool {
    m.exports.len() + m.imports.len() <= usize::MAX
}

impl<'data> PeFile<'data> {
    /// The invariant of an image: its symbols can be numbered in a `usize`.
    pub open spec fn wf(&self) -> bool {
        self.spec_pe().exports@.len() + self.spec_pe().imports@.len() <= usize::MAX
    }

    pub closed spec fn spec_data(&self) -> Seq<u8> {
        self.data@
    }

    pub closed spec fn spec_pe(&self) -> &PeHeaders<'data> {
        &self.pe
    }

    /// The raw section headers, in table order.
    pub open spec fn section_headers(&self) -> Seq<SectionTable> {
        self.spec_pe().sections@
    }

    /// The parsed headers of the image.
    pub fn pe(&self) -> (r: &PeHeaders<'data>)
        ensures
            r == self.spec_pe(),
    {
        &self.pe
    }

    /// Parses a PE image. Fails with a single opaque error when goblin rejects
    /// the buffer (or when its symbols could not be numbered in a `usize`).
    pub fn parse(data: &'data [u8]) -> (r: Result<Self, &'static str>)
        ensures
            r is Ok <==> parsed_headers(data@) is Some && symbol_count_fits(
                parsed_headers(data@)->Some_0,
            ),
            r is Ok ==> r->Ok_0.spec_data() == data@ && Some(r->Ok_0.spec_pe()@) == parsed_headers(
                data@,
            ) && r->Ok_0.wf(),
            r is Err ==> r->Err_0@ == "Could not parse PE header"@,
    {
        match parse_headers(data) {
            Ok(pe) => {
                if pe.exports.len() <= usize::MAX - pe.imports.len() {
                    Ok(PeFile { pe, data })
                } else {
                    Err("Could not parse PE header")
                }
            },
            Err(_) => Err("Could not parse PE header"),
        }
    }

    /// True for 64-bit (PE32+) images.
    pub fn is_64(&self) -> (r: bool)
        ensures
            r == self.spec_pe().is_64,
    {
        self.pe.is_64
    }

    /// The alignment of every segment and section.
    pub open spec fn spec_section_alignment(&self) -> u64 {
        match self.spec_pe().section_alignment {
            Some(a) => a as u64,
            None => DEFAULT_SECTION_ALIGNMENT,
        }
    }

    fn section_alignment(&self) -> (r: u64)
        ensures
            r == self.spec_section_alignment(),
    {
        match self.pe.section_alignment {
            Some(a) => a as u64,
            None => DEFAULT_SECTION_ALIGNMENT,
        }
    }

    /// The machine tag of the COFF header.
    pub fn machine(&self) -> (r: Machine)
        ensures
            r == machine_of(self.spec_pe().machine),
    {
        if self.pe.machine == COFF_MACHINE_X86 {
            Machine::X86
        } else if self.pe.machine == COFF_MACHINE_X86_64 {
            Machine::X86_64
        } else {
            Machine::Other
        }
    }

    /// PE images are always little-endian.
    pub fn is_little_endian(&self) -> (r: bool)
        ensures
            r,
    {
        true
    }

    /// The entry point's relative virtual address.
    pub fn entry(&self) -> (r: u64)
        ensures
            r == self.spec_pe().entry as u64,
    {
        self.pe.entry as u64
    }

    /// True iff some section's name decodes and equals `.debug_info`.
    pub fn has_debug_symbols(&self) -> (r: bool)
        ensures
            r == exists|i: int|
                0 <= i < self.section_headers().len() && section_name_view(
                    #[trigger] self.section_headers()[i],
                ) == Some(debug_info_name()),
    {
        let mut i: usize = 0;
        while i < self.pe.sections.len()
            invariant
                0 <= i <= self.section_headers().len(),
                self.section_headers() == self.pe.sections@,
                forall|k: int|
                    0 <= k < i ==> section_name_view(#[trigger] self.section_headers()[k])
                        != Some(debug_info_name()),
            decreases self.section_headers().len() - i,
        {
            if let Some(name) = section_name(&self.pe.sections[i]) {
                proof {
                    reveal_strlit(".debug_info");
                    assert(".debug_info"@ =~= debug_info_name());
                }
                if str_eq(name, ".debug_info") {
                    return true;
                }
            }
            i = i + 1;
        }
        false
    }
}


/// The symbol an export stands for: defined, global, at the export's address.
pub open spec fn export_symbol<'data>(e: ExportEntry<'data>) -> Symbol<'data> {
    Symbol {
        kind: SymbolKind::Unknown,
        section_index: None,
        undefined: false,
        global: true,
        name: e.name,
        address: e.rva as u64,
        size: 0,
    }
}

/// The symbol an import stands for: undefined, global, at address 0, named
/// only when the name borrows the image bytes.
pub open spec fn import_symbol<'data>(i: ImportName<'data>) -> Symbol<'data> {
    Symbol {
        kind: SymbolKind::Unknown,
        section_index: None,
        undefined: true,
        global: true,
        name: match i {
            ImportName::Borrowed(n) => Some(n),
            ImportName::Synthesized(_) => None,
        },
        address: 0,
        size: 0,
    }
}

/// The symbols of a stream: all exports in order, then all imports in order.
pub open spec fn symbol_stream<'data>(
    exports: Seq<ExportEntry<'data>>,
    imports: Seq<ImportName<'data>>,
) -> Seq<Symbol<'data>> {
    exports.map_values(|e: ExportEntry<'data>| export_symbol(e)) + imports.map_values(
        |i: ImportName<'data>| import_symbol(i),
    )
}

impl<'data> PeFile<'data> {
    /// The dynamic symbols of the image, in the order they are yielded.
    pub open spec fn dynamic_symbol_seq(&self) -> Seq<Symbol<'data>> {
        symbol_stream(self.spec_pe().exports@, self.spec_pe().imports@)
    }

    /// The static symbols of the image: none, COFF symbol tables are not read.
    pub open spec fn static_symbol_seq(&self) -> Seq<Symbol<'data>> {
        Seq::empty()
    }

    /// Iterates over the section headers as loadable segments.
    pub fn segments<'file>(&'file self) -> (r: PeSegmentIterator<'data, 'file>)
        ensures
            r.spec_file() == self,
            r.spec_pos() == 0,
    {
        PeSegmentIterator { file: self, index: 0 }
    }

    /// Iterates over the sections, each with its 0-based table position.
    pub fn sections<'file>(&'file self) -> (r: PeSectionIterator<'data, 'file>)
        ensures
            r.spec_file() == self,
            r.spec_pos() == 0,
    {
        PeSectionIterator { file: self, index: 0 }
    }

    /// The section at position `index`, or `None` past the table's end.
    pub fn section_by_index<'file>(&'file self, index: SectionIndex) -> (r: Option<
        PeSection<'data, 'file>,
    >)
        ensures
            r is Some <==> index.0 < self.section_headers().len(),
            r is Some ==> r->Some_0.is_section_at(self, index.0 as int),
    {
        if index.0 < self.pe.sections.len() {
            Some(PeSection { file: self, index, section: &self.pe.sections[index.0] })
        } else {
            None
        }
    }

    /// The first section, in table order, whose name decodes and equals
    /// `section_name`.
    pub fn section_by_name<'file>(&'file self, section_name: &str) -> (r: Option<
        PeSection<'data, 'file>,
    >)
        ensures
            r is Some ==> {
                let i = r->Some_0.spec_index().0 as int;
                &&& 0 <= i < self.section_headers().len()
                &&& r->Some_0.is_section_at(self, i)
                &&& section_name_view(self.section_headers()[i]) == Some(section_name@)
                &&& forall|j: int|
                    0 <= j < i ==> section_name_view(#[trigger] self.section_headers()[j]) != Some(
                        section_name@,
                    )
            },
            r is None ==> forall|j: int|
                0 <= j < self.section_headers().len() ==> section_name_view(
                    #[trigger] self.section_headers()[j],
                ) != Some(section_name@),
    {
        let mut i: usize = 0;
        while i < self.pe.sections.len()
            invariant
                0 <= i <= self.section_headers().len(),
                self.section_headers() == self.pe.sections@,
                forall|j: int|
                    0 <= j < i ==> section_name_view(#[trigger] self.section_headers()[j])
                        != Some(section_name@),
            decreases self.section_headers().len() - i,
        {
            if let Some(found) = crate::headers::section_name(&self.pe.sections[i]) {
                if str_eq(found, section_name) {
                    return Some(
                        PeSection { file: self, index: SectionIndex(i), section: &self.pe.sections[i] },
                    );
                }
            }
            i = i + 1;
        }
        None
    }

    /// No symbol is found by index: COFF symbol tables are not read.
    pub fn symbol_by_index(&self, index: SymbolIndex) -> (r: Option<Symbol<'data>>)
        ensures
            r is None,
    {
        None
    }

    /// Iterates over the static symbols, of which there are none.
    pub fn symbols<'file>(&'file self) -> (r: PeSymbolIterator<'data, 'file>)
        ensures
            r.wf(),
            r.spec_index() == 0,
            r.stream() == self.static_symbol_seq(),
    {
        let r = PeSymbolIterator {
            index: 0,
            exports: vstd::slice::slice_subrange(self.pe.exports.as_slice(), 0, 0),
            imports: vstd::slice::slice_subrange(self.pe.imports.as_slice(), 0, 0),
            next_export: 0,
            next_import: 0,
        };
        assert(r.stream() =~= self.static_symbol_seq());
        r
    }

    /// Iterates over the exports, then the imports, as symbols.
    pub fn dynamic_symbols<'file>(&'file self) -> (r: PeSymbolIterator<'data, 'file>)
        requires
            self.wf(),
        ensures
            r.wf(),
            r.spec_index() == 0,
            r.stream() == self.dynamic_symbol_seq(),
    {
        PeSymbolIterator {
            index: 0,
            exports: self.pe.exports.as_slice(),
            imports: self.pe.imports.as_slice(),
            next_export: 0,
            next_import: 0,
        }
    }

    /// The static symbols that pass the map filter, sorted by address.
    pub fn symbol_map(&self) -> (r: SymbolMap<'data>)
        ensures
            sorted_by_address(r.symbols@),
            r.symbols@.to_multiset() == kept_symbols(self.static_symbol_seq()).to_multiset(),
    {
        let mut iter = self.symbols();
        let mut all: Vec<Symbol<'data>> = Vec::new();
        loop
            invariant
                iter.wf(),
                iter.stream() == self.static_symbol_seq(),
                0 <= iter.spec_index() <= iter.stream().len(),
                all@ == iter.stream().take(iter.spec_index() as int),
            decreases iter.stream().len() - iter.spec_index(),
        {
            match iter.next() {
                Some((_, symbol)) => {
                    all.push(symbol);
                },
                None => {
                    assert(all@ =~= self.static_symbol_seq());
                    break ;
                },
            }
        }
        SymbolMap::new(all)
    }
}

/// An iterator over the section headers of a `PeFile` as segments.
pub struct PeSegmentIterator<'data, 'file> {
    file: &'file PeFile<'data>,
    index: usize,
}

/// A loadable section of a `PeFile`.
pub struct PeSegment<'data, 'file> {
    file: &'file PeFile<'data>,
    section: &'file SectionTable,
}

/// An iterator over the sections of a `PeFile`.
pub struct PeSectionIterator<'data, 'file> {
    file: &'file PeFile<'data>,
    index: usize,
}

/// A section of a `PeFile`.
pub struct PeSection<'data, 'file> {
    file: &'file PeFile<'data>,
    index: SectionIndex,
    section: &'file SectionTable,
}

/// An iterator over symbols: first the exports, then the imports, each with
/// its dense 0-based index.
pub struct PeSymbolIterator<'data, 'file> {
    index: usize,
    exports: &'file [ExportEntry<'data>],
    imports: &'file [ImportName<'data>],
    next_export: usize,
    next_import: usize,
}

/// An iterator over the relocations of a `PeSection`; PE base relocations
/// are not decoded, so it is always empty.
pub struct PeRelocationIterator;

impl<'data, 'file> PeSegmentIterator<'data, 'file> {
    pub closed spec fn spec_file(&self) -> &'file PeFile<'data> {
        self.file
    }

    /// How many segments have been yielded.
    pub closed spec fn spec_pos(&self) -> int {
        self.index as int
    }

    /// Yields the segment of the next section header, in table order.
    pub fn next(&mut self) -> (r: Option<PeSegment<'data, 'file>>)
        ensures
            final(self).spec_file() == old(self).spec_file(),
            old(self).spec_pos() < old(self).spec_file().section_headers().len() ==> {
                &&& r is Some
                &&& r->Some_0.is_segment_at(old(self).spec_file(), old(self).spec_pos())
                &&& final(self).spec_pos() == old(self).spec_pos() + 1
            },
            old(self).spec_pos() >= old(self).spec_file().section_headers().len() ==> {
                &&& r is None
                &&& final(self).spec_pos() == old(self).spec_pos()
            },
    {
        if self.index < self.file.pe.sections.len() {
            let section = &self.file.pe.sections[self.index];
            self.index = self.index + 1;
            Some(PeSegment { file: self.file, section })
        } else {
            None
        }
    }
}

impl<'data, 'file> PeSegment<'data, 'file> {
    pub closed spec fn spec_file(&self) -> &'file PeFile<'data> {
        self.file
    }

    pub closed spec fn spec_section(&self) -> SectionTable {
        *self.section
    }

    /// Whether this is the segment of section header `i` of `file`.
    pub open spec fn is_segment_at(&self, file: &PeFile<'data>, i: int) -> bool {
        &&& 0 <= i < file.section_headers().len()
        &&& *self.spec_file() == *file
        &&& self.spec_section() == file.section_headers()[i]
    }

    /// The virtual address, widened.
    pub fn address(&self) -> (r: u64)
        ensures
            r == self.spec_section().virtual_address as u64,
    {
        self.section.virtual_address as u64
    }

    /// The virtual size, widened.
    pub fn size(&self) -> (r: u64)
        ensures
            r == self.spec_section().virtual_size as u64,
    {
        self.section.virtual_size as u64
    }

    /// The image-wide section alignment.
    pub fn align(&self) -> (r: u64)
        ensures
            r == self.spec_file().spec_section_alignment(),
    {
        self.file.section_alignment()
    }

    /// The file-backed bytes, borrowed from the image buffer.
    pub fn data(&self) -> (r: &'data [u8])
        ensures
            r@ == backed_bytes(self.spec_file().spec_data(), self.spec_section()),
    {
        backed_slice(self.file.data, self.section)
    }

    /// The bytes of `[address, address + size)` when that range lies within
    /// the file-backed bytes.
    pub fn data_range(&self, address: u64, size: u64) -> (r: Option<&'data [u8]>)
        ensures
            ({
                let d = backed_bytes(self.spec_file().spec_data(), self.spec_section());
                let base = self.spec_section().virtual_address as u64;
                &&& r is Some <==> range_fits(d.len(), base, address, size)
                &&& r is Some ==> r->Some_0@ == d.subrange(
                    address - base,
                    address - base + size,
                )
            }),
    {
        data_range(self.data(), self.address(), address, size)
    }

    /// The decoded name, or `None` when it is not valid text.
    pub fn name(&self) -> (r: Option<&str>)
        ensures
            opt_str_view(r) == section_name_view(self.spec_section()),
    {
        section_name(self.section)
    }
}

impl<'data, 'file> PeSectionIterator<'data, 'file> {
    pub closed spec fn spec_file(&self) -> &'file PeFile<'data> {
        self.file
    }

    /// How many sections have been yielded.
    pub closed spec fn spec_pos(&self) -> int {
        self.index as int
    }

    /// Yields the next section, whose index is its table position.
    pub fn next(&mut self) -> (r: Option<PeSection<'data, 'file>>)
        ensures
            final(self).spec_file() == old(self).spec_file(),
            old(self).spec_pos() < old(self).spec_file().section_headers().len() ==> {
                &&& r is Some
                &&& r->Some_0.is_section_at(old(self).spec_file(), old(self).spec_pos())
                &&& final(self).spec_pos() == old(self).spec_pos() + 1
            },
            old(self).spec_pos() >= old(self).spec_file().section_headers().len() ==> {
                &&& r is None
                &&& final(self).spec_pos() == old(self).spec_pos()
            },
    {
        if self.index < self.file.pe.sections.len() {
            let index = SectionIndex(self.index);
            let section = &self.file.pe.sections[self.index];
            self.index = self.index + 1;
            Some(PeSection { file: self.file, index, section })
        } else {
            None
        }
    }
}

impl<'data, 'file> PeSection<'data, 'file> {
    pub closed spec fn spec_file(&self) -> &'file PeFile<'data> {
        self.file
    }

    pub closed spec fn spec_index(&self) -> SectionIndex {
        self.index
    }

    pub closed spec fn spec_section(&self) -> SectionTable {
        *self.section
    }

    /// Whether this is section `i` of `file`.
    pub open spec fn is_section_at(&self, file: &PeFile<'data>, i: int) -> bool {
        &&& 0 <= i < file.section_headers().len()
        &&& *self.spec_file() == *file
        &&& self.spec_index() == SectionIndex(i as usize)
        &&& self.spec_section() == file.section_headers()[i]
    }

    fn raw_data(&self) -> (r: &'data [u8])
        ensures
            r@ == backed_bytes(self.spec_file().spec_data(), self.spec_section()),
    {
        backed_slice(self.file.data, self.section)
    }

    /// The 0-based table position.
    pub fn index(&self) -> (r: SectionIndex)
        ensures
            r == self.spec_index(),
    {
        self.index
    }

    /// The virtual address, widened.
    pub fn address(&self) -> (r: u64)
        ensures
            r == self.spec_section().virtual_address as u64,
    {
        self.section.virtual_address as u64
    }

    /// The virtual size, widened.
    pub fn size(&self) -> (r: u64)
        ensures
            r == self.spec_section().virtual_size as u64,
    {
        self.section.virtual_size as u64
    }

    /// The image-wide section alignment.
    pub fn align(&self) -> (r: u64)
        ensures
            r == self.spec_file().spec_section_alignment(),
    {
        self.file.section_alignment()
    }

    /// The file-backed bytes, borrowed from the image buffer.
    pub fn data(&self) -> (r: &'data [u8])
        ensures
            r@ == backed_bytes(self.spec_file().spec_data(), self.spec_section()),
    {
        self.raw_data()
    }

    /// The bytes of `[address, address + size)` when that range lies within
    /// the file-backed bytes.
    pub fn data_range(&self, address: u64, size: u64) -> (r: Option<&'data [u8]>)
        ensures
            ({
                let d = backed_bytes(self.spec_file().spec_data(), self.spec_section());
                let base = self.spec_section().virtual_address as u64;
                &&& r is Some <==> range_fits(d.len(), base, address, size)
                &&& r is Some ==> r->Some_0@ == d.subrange(
                    address - base,
                    address - base + size,
                )
            }),
    {
        data_range(self.raw_data(), self.address(), address, size)
    }

    /// The same bytes as `data`: PE sections are never compressed.
    pub fn uncompressed_data(&self) -> (r: &'data [u8])
        ensures
            r@ == backed_bytes(self.spec_file().spec_data(), self.spec_section()),
    {
        self.data()
    }

    /// The decoded name, or `None` when it is not valid text.
    pub fn name(&self) -> (r: Option<&str>)
        ensures
            opt_str_view(r) == section_name_view(self.spec_section()),
    {
        section_name(self.section)
    }

    /// PE has no segment names above its sections.
    pub fn segment_name(&self) -> (r: Option<&str>)
        ensures
            r is None,
    {
        None
    }

    /// The semantic kind, from the characteristics bits.
    pub fn kind(&self) -> (r: SectionKind)
        ensures
            r == kind_of(self.spec_section().characteristics),
    {
        let c = self.section.characteristics;
        if c & (IMAGE_SCN_CNT_CODE | IMAGE_SCN_MEM_EXECUTE) != 0 {
            SectionKind::Text
        } else if c & IMAGE_SCN_CNT_INITIALIZED_DATA != 0 {
            SectionKind::Data
        } else if c & IMAGE_SCN_CNT_UNINITIALIZED_DATA != 0 {
            SectionKind::UninitializedData
        } else {
            SectionKind::Unknown
        }
    }

    /// The relocations of the section: none are decoded.
    pub fn relocations(&self) -> (r: PeRelocationIterator) {
        PeRelocationIterator
    }
}

impl<'data, 'file> PeSymbolIterator<'data, 'file> {
    /// The dense index of the next symbol to be yielded.
    pub closed spec fn spec_index(&self) -> int {
        self.index as int
    }

    /// Every symbol of the stream, yielded or not.
    pub closed spec fn stream(&self) -> Seq<Symbol<'data>> {
        symbol_stream(self.exports@, self.imports@)
    }

    /// Exports are consumed before imports and the index counts both.
    pub closed spec fn wf(&self) -> bool {
        &&& self.next_export <= self.exports@.len()
        &&& self.next_import <= self.imports@.len()
        &&& self.next_import > 0 ==> self.next_export == self.exports@.len()
        &&& self.index == self.next_export + self.next_import
        &&& self.exports@.len() + self.imports@.len() <= usize::MAX
    }

    /// Yields the next symbol with its index: the exports first, then the
    /// imports.
    pub fn next(&mut self) -> (r: Option<(SymbolIndex, Symbol<'data>)>)
        requires
            old(self).wf(),
        ensures
            final(self).wf(),
            final(self).stream() == old(self).stream(),
            old(self).spec_index() < old(self).stream().len() ==> {
                &&& r == Some(
                    (
                        SymbolIndex(old(self).spec_index() as usize),
                        old(self).stream()[old(self).spec_index()],
                    ),
                )
                &&& final(self).spec_index() == old(self).spec_index() + 1
            },
            old(self).spec_index() >= old(self).stream().len() ==> {
                &&& r is None
                &&& final(self).spec_index() == old(self).spec_index()
            },
            0 <= final(self).spec_index() <= final(self).stream().len(),
    {
        if self.next_export < self.exports.len() {
            let export = &self.exports[self.next_export];
            let index = SymbolIndex(self.index);
            self.index = self.index + 1;
            self.next_export = self.next_export + 1;
            return Some(
                (
                    index,
                    Symbol {
                        kind: SymbolKind::Unknown,
                        section_index: None,
                        undefined: false,
                        global: true,
                        name: export.name,
                        address: export.rva as u64,
                        size: 0,
                    },
                ),
            );
        }
        if self.next_import < self.imports.len() {
            let imports = self.imports;
            let name = match &imports[self.next_import] {
                ImportName::Borrowed(n) => Some(*n),
                ImportName::Synthesized(_) => None,
            };
            let index = SymbolIndex(self.index);
            self.index = self.index + 1;
            self.next_import = self.next_import + 1;
            return Some(
                (
                    index,
                    Symbol {
                        kind: SymbolKind::Unknown,
                        section_index: None,
                        undefined: true,
                        global: true,
                        name,
                        address: 0,
                        size: 0,
                    },
                ),
            );
        }
        None
    }
}

impl PeRelocationIterator {
    /// Yields nothing.
    pub fn next(&mut self) -> (r: Option<(u64, Relocation)>)
        ensures
            r is None,
    {
        None
    }
}

/// A section found by position is the section that iteration yields at that
/// position: the two agree by value.
pub proof fn lemma_section_at_is_unique<'data, 'file>(
    file: &PeFile<'data>,
    i: int,
    a: PeSection<'data, 'file>,
    b: PeSection<'data, 'file>,
)
    requires
        a.is_section_at(file, i),
        b.is_section_at(file, i),
    ensures
        a == b,
{
    assert(a.file == b.file);
    assert(*a.section == *b.section);
}

/// When the file-backed range of a section lies inside the buffer, its
/// bytes number the smaller of the virtual size and the raw size.
pub proof fn lemma_backed_bytes_len(data: Seq<u8>, s: SectionTable)
    requires
        backed_in_bounds(data, s),
    ensures
        backed_bytes(data, s).len() == if s.virtual_size <= s.size_of_raw_data {
            s.virtual_size as nat
        } else {
            s.size_of_raw_data as nat
        },
{
}

/// The segment and the section at the same table position have the same
/// address, size and bytes; both iterators run over the same table, so they
/// yield the same count.
pub proof fn lemma_segment_matches_section<'data, 'file>(
    file: &PeFile<'data>,
    i: int,
    segment: PeSegment<'data, 'file>,
    section: PeSection<'data, 'file>,
)
    requires
        segment.is_segment_at(file, i),
        section.is_section_at(file, i),
    ensures
        segment.spec_section().virtual_address == section.spec_section().virtual_address,
        segment.spec_section().virtual_size == section.spec_section().virtual_size,
        backed_bytes(segment.spec_file().spec_data(), segment.spec_section()) == backed_bytes(
            section.spec_file().spec_data(),
            section.spec_section(),
        ),
{
}

/// The dynamic symbol stream holds each export, then each import, so the
/// symbol at index `k` is fixed by `k` alone.
pub proof fn lemma_dynamic_symbol_at<'data>(file: &PeFile<'data>, k: int)
    requires
        0 <= k < file.dynamic_symbol_seq().len(),
    ensures
        k < file.spec_pe().exports@.len() ==> file.dynamic_symbol_seq()[k] == export_symbol(
            file.spec_pe().exports@[k],
        ),
        k >= file.spec_pe().exports@.len() ==> file.dynamic_symbol_seq()[k] == import_symbol(
            file.spec_pe().imports@[k - file.spec_pe().exports@.len()],
        ),
        file.dynamic_symbol_seq().len() == file.spec_pe().exports@.len()
            + file.spec_pe().imports@.len(),
{
}

} // verus!

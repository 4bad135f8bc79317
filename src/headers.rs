//! The raw PE structures this crate reads, as produced by goblin's parser,
//! and the trusted calls into that parser.
use vstd::prelude::*;
use goblin::pe::section_table::SectionTable;
use std::borrow::Cow;

verus! {

#[verifier::external_type_specification]
pub struct ExSectionTable(SectionTable);

#[verifier::external_type_specification]
#[verifier::external_body]
pub struct ExGoblinError(goblin::error::Error);

/// An exported symbol: its name when it has one, and its relative virtual
/// address.
pub struct ExportEntry<'data> {
    pub name: Option<&'data str>,
    pub rva: usize,
}

/// The name of an imported symbol: either a borrow of the image bytes, or a
/// string the parser had to make up (for instance for an ordinal-only import).
pub enum ImportName<'data> {
    Borrowed(&'data str),
    Synthesized(String),
}

/// The parsed headers of a PE image that this crate projects.
pub struct PeHeaders<'data> {
    pub is_64: bool,
    pub entry: usize,
    pub machine: u16,
    /// The optional header's section alignment, when there is an optional
    /// header.
    pub section_alignment: Option<u32>,
    pub sections: Vec<SectionTable>,
    pub exports: Vec<ExportEntry<'data>>,
    pub imports: Vec<ImportName<'data>>,
}

/// A plain model of `PeHeaders`: exports as (name, rva) and imports as
/// (borrowed, name).
pub ghost struct PeHeadersModel {
    pub is_64: bool,
    pub entry: usize,
    pub machine: u16,
    pub section_alignment: Option<u32>,
    pub sections: Seq<SectionTable>,
    pub exports: Seq<(Option<Seq<char>>, usize)>,
    pub imports: Seq<(bool, Seq<char>)>,
}

pub open spec fn opt_str_view(o: Option<&str>) -> Option<Seq<char>> {
    match o {
        Some(s) => Some(s@),
        None => None,
    }
}

impl<'data> View for PeHeaders<'data> {
    type V = PeHeadersModel;

    open spec fn view(&self) -> PeHeadersModel {
        PeHeadersModel {
            is_64: self.is_64,
            entry: self.entry,
            machine: self.machine,
            section_alignment: self.section_alignment,
            sections: self.sections@,
            exports: self.exports@.map_values(|e: ExportEntry<'data>| (opt_str_view(e.name), e.rva)),
            imports: self.imports@.map_values(
                |i: ImportName<'data>|
                    match i {
                        ImportName::Borrowed(n) => (true, n@),
                        ImportName::Synthesized(n) => (false, n@),
                    },
            ),
        }
    }
}

/// What goblin's PE parser makes of a byte buffer; `None` when it rejects it.
pub uninterp spec fn parsed_headers(data: Seq<u8>) -> Option<PeHeadersModel>;

/// Relies on `goblin::pe::PE::parse`: a deterministic parse of the buffer,
/// from which the headers are moved out field by field.
#[verifier::external_body]
pub(crate) fn parse_headers<'data>(data: &'data [u8]) -> (r: Result<
    PeHeaders<'data>,
    goblin::error::Error,
>)
    ensures
        r is Ok <==> parsed_headers(data@) is Some,
        r is Ok ==> Some(r->Ok_0@) == parsed_headers(data@),
{
    let pe = goblin::pe::PE::parse(data)?;
    Ok(PeHeaders {
        is_64: pe.is_64,
        entry: pe.entry,
        machine: pe.header.coff_header.machine,
        section_alignment: pe.header.optional_header.map(|h| h.windows_fields.section_alignment),
        exports: pe.exports.iter().map(|e| ExportEntry { name: e.name, rva: e.rva }).collect(),
        imports: pe.imports.into_iter().map(|i| match i.name {
            Cow::Borrowed(n) => ImportName::Borrowed(n),
            Cow::Owned(n) => ImportName::Synthesized(n),
        }).collect(),
        sections: pe.sections,
    })
}

/// How goblin reads the 8-byte inline name field of a section header as
/// text; `None` when that fails.
pub uninterp spec fn inline_name_of(raw: Seq<u8>) -> Option<Seq<char>>;

/// The decoded name of a section header: its long name when the parser
/// resolved one, else the inline field read as text.
pub open spec fn section_name_view(s: SectionTable) -> Option<Seq<char>> {
    match s.real_name {
        Some(n) => Some(n@),
        None => inline_name_of(s.name@),
    }
}

/// Relies on `goblin::pe::section_table::SectionTable::name`: the long name
/// when present, else the inline field read as text; errors become `None`.
#[verifier::external_body]
pub(crate) fn section_name(s: &SectionTable) -> (r: Option<&str>)
    ensures
        s.real_name is Some ==> opt_str_view(r) == Some(s.real_name->Some_0@),
        s.real_name is None ==> opt_str_view(r) == inline_name_of(s.name@),
{
    s.name().ok()
}

} // verus!

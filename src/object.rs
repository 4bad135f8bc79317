//! The format-independent object model: machine tags, section kinds,
//! symbols, the address-sorted symbol map and the address-range helper.
use vstd::prelude::*;

verus! {

/// The target architecture of an image.
#[derive(Clone, Copy, Debug, PartialEq, Eq, Structural)]
pub enum Machine {
    Other,
    X86,
    X86_64,
}

/// The semantic role of a section.
#[derive(Clone, Copy, Debug, PartialEq, Eq, Structural)]
pub enum SectionKind {
    Unknown,
    Text,
    Data,
    UninitializedData,
}

/// The kind of a symbol.
#[derive(Clone, Copy, Debug, PartialEq, Eq, Structural)]
pub enum SymbolKind {
    Unknown,
    Text,
    Data,
    Section,
    File,
}

/// The 0-based position of a section in the section table.
#[derive(Clone, Copy, Debug, PartialEq, Eq, Structural)]
pub struct SectionIndex(pub usize);

/// The 0-based position of a symbol in a symbol stream.
#[derive(Clone, Copy, Debug, PartialEq, Eq, Structural)]
pub struct SymbolIndex(pub usize);

/// A relocation entry.
#[derive(Clone, Copy, Debug, PartialEq, Eq, Structural)]
pub struct Relocation {
    pub size: u8,
    pub symbol: SymbolIndex,
    pub addend: i64,
    pub implicit_addend: bool,
}

/// A symbol of an image.
#[derive(Clone, Copy, Debug, PartialEq, Eq)]
pub struct Symbol<'data> {
    pub kind: SymbolKind,
    pub section_index: Option<SectionIndex>,
    pub undefined: bool,
    pub global: bool,
    pub name: Option<&'data str>,
    pub address: u64,
    pub size: u64,
}

/// Whether a symbol belongs in an address map: it has a nonempty name and a
/// nonzero address.
pub open spec fn symbol_kept(s: Symbol) -> bool {
    &&& s.name is Some
    &&& s.name->Some_0@.len() > 0
    &&& s.address != 0
}

/// Whether the symbols are in non-decreasing address order.
pub open spec fn sorted_by_address(s: Seq<Symbol>) -> bool {
    forall|i: int, j: int| 0 <= i < j < s.len() ==> s[i].address <= s[j].address
}

/// The symbols of `s` that belong in an address map, in their order.
pub open spec fn kept_symbols<'data>(s: Seq<Symbol<'data>>) -> Seq<Symbol<'data>> {
    s.filter(|x: Symbol<'data>| symbol_kept(x))
}

/// Symbols sorted by address, for address lookups.
pub struct SymbolMap<'data> {
    pub symbols: Vec<Symbol<'data>>,
}

impl<'data> SymbolMap<'data> {
    /// Whether a symbol belongs in an address map.
    pub fn filter(symbol: &Symbol<'data>) -> (r: bool)
        ensures
            r == symbol_kept(*symbol),
    {
        match symbol.name {
            Some(n) => !n.is_empty() && symbol.address != 0,
            None => false,
        }
    }

    /// Keeps the symbols that pass `filter` and sorts them by address (equal
    /// addresses keep their input order).
    pub fn new(symbols: Vec<Symbol<'data>>) -> (r: SymbolMap<'data>)
        ensures
            sorted_by_address(r.symbols@),
            r.symbols@.to_multiset() == kept_symbols(symbols@).to_multiset(),
    {
        let mut out: Vec<Symbol<'data>> = Vec::new();
        let mut i: usize = 0;
        proof {
            symbols@.take(0).lemma_filter_len(|x: Symbol<'data>| symbol_kept(x));
            assert(kept_symbols(symbols@.take(0)) =~= out@);
        }
        while i < symbols.len()
            invariant
                0 <= i <= symbols@.len(),
                sorted_by_address(out@),
                out@.to_multiset() == kept_symbols(symbols@.take(i as int)).to_multiset(),
            decreases symbols@.len() - i,
        {
            let s = symbols[i];
            proof {
                assert(symbols@.take(i + 1) == symbols@.take(i as int).push(s));
                symbols@.take(i as int).lemma_filter_push(s, |x: Symbol<'data>| symbol_kept(x));
            }
            if Self::filter(&s) {
                let mut p: usize = out.len();
                while p > 0 && out[p - 1].address > s.address
                    invariant
                        0 <= p <= out@.len(),
                        forall|k: int| p <= k < out@.len() ==> out@[k].address > s.address,
                    decreases p,
                {
                    p = p - 1;
                }
                proof {
                    vstd::seq_lib::to_multiset_insert(out@, p as int, s);
                    vstd::seq_lib::to_multiset_build(kept_symbols(symbols@.take(i as int)), s);
                }
                out.insert(p, s);
            }
            i = i + 1;
        }
        assert(symbols@.take(symbols@.len() as int) =~= symbols@);
        SymbolMap { symbols: out }
    }
}

/// Every symbol of an address map built from `input` is a symbol of `input`
/// that passes the filter.
pub proof fn lemma_map_symbols_are_kept_inputs<'data>(
    input: Seq<Symbol<'data>>,
    map: Seq<Symbol<'data>>,
)
    requires
        map.to_multiset() == kept_symbols(input).to_multiset(),
    ensures
        forall|k: int| 0 <= k < map.len() ==> input.contains(#[trigger] map[k]) && symbol_kept(map[k]),
{
    broadcast use vstd::seq_lib::group_to_multiset_ensures;

    assert forall|k: int| 0 <= k < map.len() implies input.contains(#[trigger] map[k]) && symbol_kept(
        map[k],
    ) by {
        vstd::seq_lib::to_multiset_contains(map, map[k]);
        assert(map.contains(map[k]));
        vstd::seq_lib::to_multiset_contains(kept_symbols(input), map[k]);
        input.lemma_filter_contains_rev(|x: Symbol<'data>| symbol_kept(x), map[k]);
        let j = choose|j: int| 0 <= j < kept_symbols(input).len() && kept_symbols(input)[j] == map[k];
        input.lemma_filter_pred(|x: Symbol<'data>| symbol_kept(x), j);
    }
}

/// Whether `[address, address + size)` lies within `[base, base + data_len)`.
pub open spec fn range_fits(data_len: nat, base: u64, address: u64, size: u64) -> bool {
    address >= base && address + size <= base + data_len
}

/// Clips `[address, address + size)` against the bytes `data` that start at
/// `base`: the matching sub-slice when the range lies entirely inside, else
/// `None`.
pub fn data_range<'a>(data: &'a [u8], base: u64, address: u64, size: u64) -> (r: Option<
    &'a [u8],
>)
    ensures
        r is Some <==> range_fits(data@.len(), base, address, size),
        r is Some ==> r->Some_0@ == data@.subrange(
            address - base,
            address - base + size,
        ),
{
    if address < base {
        return None;
    }
    let offset: u64 = address - base;
    let len: usize = data.len();
    if offset > len as u64 {
        return None;
    }
    let room: u64 = len as u64 - offset;
    if size > room {
        return None;
    }
    let start: usize = offset as usize;
    let end: usize = start + size as usize;
    Some(vstd::slice::slice_subrange(data, start, end))
}

} // verus!

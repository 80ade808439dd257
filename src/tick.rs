use vstd::prelude::*;
use vstd::bytes::{
    spec_u32_from_le_bytes, spec_u32_to_le_bytes, spec_u64_from_le_bytes, spec_u64_to_le_bytes,
    u32_from_le_bytes, u32_to_le_bytes, u64_from_le_bytes, u64_to_le_bytes,
    lemma_auto_spec_u32_to_from_le_bytes, lemma_auto_spec_u64_to_from_le_bytes,
};
use vstd::slice::slice_subrange;
use vstd::string::StringExecFns;

verus! {

/// Length in bytes of a binary tick frame.
pub const BINARY_TICK_LEN: usize = 20;

/// Number of symbols in the binary symbol vocabulary.
pub const SYMBOL_COUNT: u32 = 5;

/// One decoded price observation.
///
/// The price is kept as the bit pattern of its IEEE-754 double, so that the
/// library never computes with floating point; `f64::from_bits` recovers it.
#[derive(Debug, Clone, PartialEq, Eq)]
pub struct TickMessage {
    pub symbol: String,
    pub price_bits: u64,
    pub ts: u64,
}

/// Mathematical value of a tick.
pub struct TickView {
    pub symbol: Seq<char>,
    pub price_bits: u64,
    pub ts: u64,
}

impl View for TickMessage {
    type V = TickView;

    open spec fn view(&self) -> TickView {
        TickView { symbol: self.symbol@, price_bits: self.price_bits, ts: self.ts }
    }
}

impl TickMessage {
    /// A tick with the given fields.
    pub fn new(symbol: String, price_bits: u64, ts: u64) -> (r: TickMessage)
        ensures
            r@ == (TickView { symbol: symbol@, price_bits, ts }),
    {
        TickMessage { symbol, price_bits, ts }
    }

    /// A copy of this tick with the same fields.
    pub fn duplicate(&self) -> (r: TickMessage)
        ensures
            r@ == self@,
    {
        TickMessage { symbol: self.symbol.clone(), price_bits: self.price_bits, ts: self.ts }
    }
}

/// The symbol that a binary frame's symbol index stands for: the vocabulary is
/// BTC, ETH, SOL, DOGE, XRP in this order, and an index past its end stands
/// for its first entry.
pub open spec fn symbol_for_index(i: u32) -> Seq<char> {
    if i == 1 {
        "ETH"@
    } else if i == 2 {
        "SOL"@
    } else if i == 3 {
        "DOGE"@
    } else if i == 4 {
        "XRP"@
    } else {
        "BTC"@
    }
}

/// What a binary frame decodes to: nothing when it is shorter than
/// `BINARY_TICK_LEN` bytes; else the symbol at the little-endian `u32` of bytes
/// 0..4, the price bits in bytes 4..12 and the timestamp in bytes 12..20. The
/// timestamp is written as a signed 64-bit integer and read back as the
/// unsigned integer with the same bits.
pub open spec fn binary_tick_of(b: Seq<u8>) -> Option<TickView> {
    if b.len() < BINARY_TICK_LEN {
        None
    } else {
        Some(
            TickView {
                symbol: symbol_for_index(spec_u32_from_le_bytes(b.subrange(0, 4))),
                price_bits: spec_u64_from_le_bytes(b.subrange(4, 12)),
                ts: spec_u64_from_le_bytes(b.subrange(12, 20)),
            },
        )
    }
}

/// The index of a symbol in the vocabulary, if it is there.
pub open spec fn index_of_symbol(s: Seq<char>) -> Option<u32> {
    if s == "BTC"@ {
        Some(0u32)
    } else if s == "ETH"@ {
        Some(1u32)
    } else if s == "SOL"@ {
        Some(2u32)
    } else if s == "DOGE"@ {
        Some(3u32)
    } else if s == "XRP"@ {
        Some(4u32)
    } else {
        None
    }
}

/// The binary frame of a tick whose symbol is in the vocabulary.
pub open spec fn binary_frame_of(t: TickView) -> Option<Seq<u8>> {
    match index_of_symbol(t.symbol) {
        Some(i) => Some(
            spec_u32_to_le_bytes(i) + spec_u64_to_le_bytes(t.price_bits) + spec_u64_to_le_bytes(
                t.ts,
            ),
        ),
        None => None,
    }
}

/// The vocabulary symbol for a binary symbol index, falling back to the first
/// symbol for an index past the end.
pub fn symbol_name(i: u32) -> (r: String)
    ensures
        r@ == symbol_for_index(i),
{
    if i == 1 {
        String::from_str("ETH")
    } else if i == 2 {
        String::from_str("SOL")
    } else if i == 3 {
        String::from_str("DOGE")
    } else if i == 4 {
        String::from_str("XRP")
    } else {
        String::from_str("BTC")
    }
}

/// The vocabulary index of a symbol, or `None` for a symbol outside it.
pub fn symbol_index(s: &String) -> (r: Option<u32>)
    ensures
        r == index_of_symbol(s@),
{
    if *s == String::from_str("BTC") {
        Some(0)
    } else if *s == String::from_str("ETH") {
        Some(1)
    } else if *s == String::from_str("SOL") {
        Some(2)
    } else if *s == String::from_str("DOGE") {
        Some(3)
    } else if *s == String::from_str("XRP") {
        Some(4)
    } else {
        None
    }
}

/// Decodes a binary tick frame; see `binary_tick_of`.
pub fn decode_binary_tick(data: &[u8]) -> (r: Option<TickMessage>)
    ensures
        r.is_none() <==> data@.len() < BINARY_TICK_LEN,
        r.is_some() ==> binary_tick_of(data@) == Some(r.unwrap()@),
{
    if data.len() < BINARY_TICK_LEN {
        return None;
    }
    let symbol_index = u32_from_le_bytes(slice_subrange(data, 0, 4));
    let price_bits = u64_from_le_bytes(slice_subrange(data, 4, 12));
    let ts = u64_from_le_bytes(slice_subrange(data, 12, 20));
    let symbol = symbol_name(symbol_index);
    Some(TickMessage { symbol, price_bits, ts })
}

/// Encodes a tick as a binary frame, or `None` when its symbol is outside the
/// vocabulary.
pub fn encode_binary_tick(t: &TickMessage) -> (r: Option<Vec<u8>>)
    ensures
        r.is_some() == binary_frame_of(t@).is_some(),
        r.is_some() ==> binary_frame_of(t@) == Some(r.unwrap()@),
{
    match symbol_index(&t.symbol) {
        Some(i) => {
            let mut out = u32_to_le_bytes(i);
            let mut price = u64_to_le_bytes(t.price_bits);
            let mut ts = u64_to_le_bytes(t.ts);
            out.append(&mut price);
            out.append(&mut ts);
            Some(out)
        },
        None => None,
    }
}

/// Decoding the binary frame of a tick whose symbol is in the vocabulary gives
/// that tick back.
pub proof fn binary_round_trip(t: TickView)
    requires
        index_of_symbol(t.symbol).is_some(),
    ensures
        binary_frame_of(t).is_some(),
        binary_tick_of(binary_frame_of(t).unwrap()) == Some(t),
{
    lemma_auto_spec_u32_to_from_le_bytes();
    lemma_auto_spec_u64_to_from_le_bytes();
    let i = index_of_symbol(t.symbol).unwrap();
    let a = spec_u32_to_le_bytes(i);
    let p = spec_u64_to_le_bytes(t.price_bits);
    let s = spec_u64_to_le_bytes(t.ts);
    let b = a + p + s;
    assert(b.subrange(0, 4) =~= a);
    assert(b.subrange(4, 12) =~= p);
    assert(b.subrange(12, 20) =~= s);
    assert(symbol_for_index(i) == t.symbol);
}

/// A binary frame whose symbol index is past the vocabulary's end decodes to
/// the vocabulary's first symbol.
pub proof fn out_of_range_index_is_first_symbol(b: Seq<u8>)
    requires
        b.len() >= BINARY_TICK_LEN,
        spec_u32_from_le_bytes(b.subrange(0, 4)) >= SYMBOL_COUNT,
    ensures
        binary_tick_of(b).is_some(),
        binary_tick_of(b).unwrap().symbol == "BTC"@,
{
}

} // verus!

//! The serialized form of this zome's entries, and how it is read.
//!
//! An entry is serialized as a MessagePack map of one pair, from the variant
//! to nil. A reader takes the map's header in any of its forms, the variant
//! by its index or by its name, in any form of either, and the nil. What
//! follows the nil is not looked at.

use vstd::prelude::*;
use vstd::slice::slice_subrange;
use crate::bytes::bytes_eq;
use crate::integrity::ThisWasmEntry;

verus! {

/// The number that `width` bytes hold from `at` on, most significant byte
/// first, for a width of 1, 2, 4 or 8; nothing where the bytes run out.
pub open spec fn number_at(bytes: Seq<u8>, at: int, width: int) -> Option<int> {
    if at < 0 || at + width > bytes.len() {
        None
    } else if width == 1 {
        Some(bytes[at] as int)
    } else if width == 2 {
        Some(bytes[at] * 256 + bytes[at + 1])
    } else if width == 4 {
        Some(((bytes[at] * 256 + bytes[at + 1]) * 256 + bytes[at + 2]) * 256 + bytes[at + 3])
    } else if width == 8 {
        Some(
            ((((((bytes[at] * 256 + bytes[at + 1]) * 256 + bytes[at + 2]) * 256 + bytes[at + 3])
                * 256 + bytes[at + 4]) * 256 + bytes[at + 5]) * 256 + bytes[at + 6]) * 256
                + bytes[at + 7],
        )
    } else {
        None
    }
}

/// The header of a map at the start of the bytes: how many pairs the map
/// has, and where the first pair begins.
pub open spec fn map_header(bytes: Seq<u8>) -> Option<(int, int)> {
    if bytes.len() == 0 {
        None
    } else if 0x80 <= bytes[0] <= 0x8f {
        Some((bytes[0] - 0x80, 1))
    } else if bytes[0] == 0xde {
        match number_at(bytes, 1, 2) {
            Some(pairs) => Some((pairs, 3)),
            None => None,
        }
    } else if bytes[0] == 0xdf {
        match number_at(bytes, 1, 4) {
            Some(pairs) => Some((pairs, 5)),
            None => None,
        }
    } else {
        None
    }
}

/// How a variant is named on the wire: by its index or by its name.
pub enum VariantIdent {
    Index(int),
    Name(Seq<u8>),
}

/// Data that follows its own length: the length stands in `width` bytes
/// from `at` on. Gives the data and where it ends.
pub open spec fn data_at(bytes: Seq<u8>, at: int, width: int) -> Option<(Seq<u8>, int)> {
    match number_at(bytes, at, width) {
        Some(length) => if at + width + length <= bytes.len() {
            Some((bytes.subrange(at + width, at + width + length), at + width + length))
        } else {
            None
        },
        None => None,
    }
}

/// The variant that is named at `at`, and where what follows it begins: an
/// unsigned integer of any width, or a string or binary of any form.
pub open spec fn identifier_at(bytes: Seq<u8>, at: int) -> Option<(VariantIdent, int)> {
    if at < 0 || at >= bytes.len() {
        None
    } else if bytes[at] <= 0x7f {
        Some((VariantIdent::Index(bytes[at] as int), at + 1))
    } else if 0xa0 <= bytes[at] <= 0xbf {
        if at + 1 + (bytes[at] - 0xa0) <= bytes.len() {
            Some(
                (
                    VariantIdent::Name(bytes.subrange(at + 1, at + 1 + (bytes[at] - 0xa0))),
                    at + 1 + (bytes[at] - 0xa0),
                ),
            )
        } else {
            None
        }
    } else if bytes[at] == 0xcc || bytes[at] == 0xcd || bytes[at] == 0xce || bytes[at] == 0xcf {
        let width = number_width(bytes[at]);
        match number_at(bytes, at + 1, width) {
            Some(index) => Some((VariantIdent::Index(index), at + 1 + width)),
            None => None,
        }
    } else if bytes[at] == 0xd9 || bytes[at] == 0xda || bytes[at] == 0xdb || bytes[at] == 0xc4
        || bytes[at] == 0xc5 || bytes[at] == 0xc6 {
        match data_at(bytes, at + 1, length_width(bytes[at])) {
            Some((name, after)) => Some((VariantIdent::Name(name), after)),
            None => None,
        }
    } else {
        None
    }
}

/// How many bytes the number after one of the markers `cc` to `cf` has.
pub open spec fn number_width(marker: u8) -> int {
    if marker == 0xcc {
        1
    } else if marker == 0xcd {
        2
    } else if marker == 0xce {
        4
    } else {
        8
    }
}

/// How many bytes the length has after a marker of a string (`d9`, `da`,
/// `db`) or of a binary (`c4`, `c5`, `c6`).
pub open spec fn length_width(marker: u8) -> int {
    if marker == 0xd9 || marker == 0xc4 {
        1
    } else if marker == 0xda || marker == 0xc5 {
        2
    } else {
        4
    }
}

/// The name of a variant, as bytes.
pub open spec fn variant_name(entry: ThisWasmEntry) -> Seq<u8> {
    match entry {
        ThisWasmEntry::AlwaysValidates => seq![
            0x41u8, 0x6c, 0x77, 0x61, 0x79, 0x73, 0x56, 0x61, 0x6c, 0x69, 0x64, 0x61, 0x74, 0x65,
            0x73,
        ],
        ThisWasmEntry::NeverValidates => seq![
            0x4eu8, 0x65, 0x76, 0x65, 0x72, 0x56, 0x61, 0x6c, 0x69, 0x64, 0x61, 0x74, 0x65, 0x73,
        ],
    }
}

/// The variant that an identifier names: the first by 0 or its name, the
/// second by 1 or its name.
pub open spec fn variant_named(ident: VariantIdent) -> Option<ThisWasmEntry> {
    match ident {
        VariantIdent::Index(index) => if index == 0 {
            Some(ThisWasmEntry::AlwaysValidates)
        } else if index == 1 {
            Some(ThisWasmEntry::NeverValidates)
        } else {
            None
        },
        VariantIdent::Name(name) => if name == variant_name(ThisWasmEntry::AlwaysValidates) {
            Some(ThisWasmEntry::AlwaysValidates)
        } else if name == variant_name(ThisWasmEntry::NeverValidates) {
            Some(ThisWasmEntry::NeverValidates)
        } else {
            None
        },
    }
}

/// The variant that is named at `at` and where what follows it begins,
/// where the identifier there names a variant.
pub open spec fn variant_at(bytes: Seq<u8>, at: int) -> Option<(ThisWasmEntry, int)> {
    match identifier_at(bytes, at) {
        Some((ident, after)) => match variant_named(ident) {
            Some(entry) => Some((entry, after)),
            None => None,
        },
        None => None,
    }
}

/// The entry that a payload holds: a map of one pair, from a variant to nil.
pub open spec fn decoded_payload(bytes: Seq<u8>) -> Option<ThisWasmEntry> {
    match map_header(bytes) {
        Some((pairs, first)) => if pairs == 1 {
            match variant_at(bytes, first) {
                Some((entry, after)) => if after < bytes.len() && bytes[after] == 0xc0 {
                    Some(entry)
                } else {
                    None
                },
                None => None,
            }
        } else {
            None
        },
        None => None,
    }
}

/// The serialized form of an entry of this zome as a writer makes it: the
/// shortest header, the variant by its name in the shortest string, nil.
pub open spec fn encoding(entry: ThisWasmEntry) -> Seq<u8> {
    match entry {
        ThisWasmEntry::AlwaysValidates => seq![
            0x81u8, 0xaf, 0x41, 0x6c, 0x77, 0x61, 0x79, 0x73, 0x56, 0x61, 0x6c, 0x69, 0x64, 0x61,
            0x74, 0x65, 0x73, 0xc0,
        ],
        ThisWasmEntry::NeverValidates => seq![
            0x81u8, 0xae, 0x4e, 0x65, 0x76, 0x65, 0x72, 0x56, 0x61, 0x6c, 0x69, 0x64, 0x61, 0x74,
            0x65, 0x73, 0xc0,
        ],
    }
}

/// What is written can be read: the serialized form of an entry holds that
/// entry.
pub proof fn encoding_decodes(entry: ThisWasmEntry)
    ensures
        decoded_payload(encoding(entry)) == Some(entry),
{
    let bytes = encoding(entry);
    match entry {
        ThisWasmEntry::AlwaysValidates => {
            assert(bytes.subrange(2, 17) =~= variant_name(entry));
            assert(identifier_at(bytes, 1) == Some(
                (VariantIdent::Name(variant_name(entry)), 17int),
            ));
        },
        ThisWasmEntry::NeverValidates => {
            assert(bytes.subrange(2, 16) =~= variant_name(entry));
            assert(variant_name(entry).len() == 14);
            assert(variant_name(ThisWasmEntry::AlwaysValidates).len() == 15);
            assert(identifier_at(bytes, 1) == Some(
                (VariantIdent::Name(variant_name(entry)), 16int),
            ));
        },
    }
}

/// The name of a variant, as bytes.
pub fn name_bytes(entry: ThisWasmEntry) -> (name: Vec<u8>)
    ensures
        name@ == variant_name(entry),
{
    let name = match entry {
        ThisWasmEntry::AlwaysValidates => vec![
            0x41u8, 0x6c, 0x77, 0x61, 0x79, 0x73, 0x56, 0x61, 0x6c, 0x69, 0x64, 0x61, 0x74, 0x65,
            0x73,
        ],
        ThisWasmEntry::NeverValidates => vec![
            0x4eu8, 0x65, 0x76, 0x65, 0x72, 0x56, 0x61, 0x6c, 0x69, 0x64, 0x61, 0x74, 0x65, 0x73,
        ],
    };
    proof {
        assert(name@ =~= variant_name(entry));
    }
    name
}

/// The view of a number that was read, or of none.
pub open spec fn number_model(number: Option<u64>) -> Option<int> {
    match number {
        Some(n) => Some(n as int),
        None => None,
    }
}

/// Reads the number that `width` bytes hold from `at` on.
fn read_number(bytes: &[u8], at: usize, width: usize) -> (number: Option<u64>)
    requires
        at <= bytes.len(),
        width == 1 || width == 2 || width == 4 || width == 8,
    ensures
        number_model(number) == number_at(bytes@, at as int, width as int),
{
    if width > bytes.len() - at {
        return None;
    }
    let b0: u64 = bytes[at] as u64;
    if width == 1 {
        return Some(b0);
    }
    let b1: u64 = bytes[at + 1] as u64;
    let two: u64 = b0 * 256 + b1;
    if width == 2 {
        return Some(two);
    }
    let b2: u64 = bytes[at + 2] as u64;
    let b3: u64 = bytes[at + 3] as u64;
    let four: u64 = (two * 256 + b2) * 256 + b3;
    if width == 4 {
        return Some(four);
    }
    let b4: u64 = bytes[at + 4] as u64;
    let b5: u64 = bytes[at + 5] as u64;
    let b6: u64 = bytes[at + 6] as u64;
    let b7: u64 = bytes[at + 7] as u64;
    let six: u64 = (four * 256 + b4) * 256 + b5;
    Some((six * 256 + b6) * 256 + b7)
}

/// The variant that a name names.
fn variant_of_name(name: &[u8]) -> (entry: Option<ThisWasmEntry>)
    ensures
        entry == variant_named(VariantIdent::Name(name@)),
{
    let always = name_bytes(ThisWasmEntry::AlwaysValidates);
    let never = name_bytes(ThisWasmEntry::NeverValidates);
    if bytes_eq(name, always.as_slice()) {
        Some(ThisWasmEntry::AlwaysValidates)
    } else if bytes_eq(name, never.as_slice()) {
        Some(ThisWasmEntry::NeverValidates)
    } else {
        None
    }
}

/// The variant that an index names.
fn variant_of_index(index: u64) -> (entry: Option<ThisWasmEntry>)
    ensures
        entry == variant_named(VariantIdent::Index(index as int)),
{
    if index == 0 {
        Some(ThisWasmEntry::AlwaysValidates)
    } else if index == 1 {
        Some(ThisWasmEntry::NeverValidates)
    } else {
        None
    }
}

/// The view of a variant that was read and of where reading stopped.
pub open spec fn found_model(found: Option<(ThisWasmEntry, usize)>) -> Option<
    (ThisWasmEntry, int),
> {
    match found {
        Some((entry, after)) => Some((entry, after as int)),
        None => None,
    }
}

/// The variant named by the `length` bytes from `start` on, and where they
/// end, where so many bytes are there and name a variant.
fn read_name(bytes: &[u8], start: usize, length: u64) -> (found: Option<(ThisWasmEntry, usize)>)
    requires
        start <= bytes.len(),
    ensures
        found_model(found) == (if start + length <= bytes.len() {
            match variant_named(
                VariantIdent::Name(bytes@.subrange(start as int, start + length)),
            ) {
                Some(entry) => Some((entry, start + length)),
                None => None,
            }
        } else {
            None
        }),
        found is Some ==> found->Some_0.1 <= bytes.len(),
{
    if length > (bytes.len() - start) as u64 {
        return None;
    }
    let end: usize = start + length as usize;
    match variant_of_name(slice_subrange(bytes, start, end)) {
        Some(entry) => Some((entry, end)),
        None => None,
    }
}

/// Reads the variant that is named at `at`.
fn read_variant(bytes: &[u8], at: usize) -> (found: Option<(ThisWasmEntry, usize)>)
    requires
        at <= bytes.len(),
    ensures
        found_model(found) == variant_at(bytes@, at as int),
        found is Some ==> found->Some_0.1 <= bytes.len(),
{
    if at >= bytes.len() {
        return None;
    }
    let marker: u8 = bytes[at];
    if marker <= 0x7f {
        match variant_of_index(marker as u64) {
            Some(entry) => Some((entry, at + 1)),
            None => None,
        }
    } else if 0xa0 <= marker && marker <= 0xbf {
        read_name(bytes, at + 1, (marker - 0xa0) as u64)
    } else if marker == 0xcc || marker == 0xcd || marker == 0xce || marker == 0xcf {
        let width: usize = if marker == 0xcc {
            1
        } else if marker == 0xcd {
            2
        } else if marker == 0xce {
            4
        } else {
            8
        };
        match read_number(bytes, at + 1, width) {
            Some(index) => match variant_of_index(index) {
                Some(entry) => Some((entry, at + 1 + width)),
                None => None,
            },
            None => None,
        }
    } else if marker == 0xd9 || marker == 0xda || marker == 0xdb || marker == 0xc4 || marker
        == 0xc5 || marker == 0xc6 {
        let width: usize = if marker == 0xd9 || marker == 0xc4 {
            1
        } else if marker == 0xda || marker == 0xc5 {
            2
        } else {
            4
        };
        match read_number(bytes, at + 1, width) {
            Some(length) => read_name(bytes, at + 1 + width, length),
            None => None,
        }
    } else {
        None
    }
}

/// Reads the header of a map at the start of the bytes.
fn read_map_header(bytes: &[u8]) -> (header: Option<(u64, usize)>)
    ensures
        match header {
            Some((pairs, first)) => map_header(bytes@) == Some((pairs as int, first as int))
                && first <= bytes.len(),
            None => map_header(bytes@) is None,
        },
{
    if bytes.len() == 0 {
        return None;
    }
    let marker: u8 = bytes[0];
    if 0x80 <= marker && marker <= 0x8f {
        Some(((marker - 0x80) as u64, 1))
    } else if marker == 0xde {
        match read_number(bytes, 1, 2) {
            Some(pairs) => Some((pairs, 3)),
            None => None,
        }
    } else if marker == 0xdf {
        match read_number(bytes, 1, 4) {
            Some(pairs) => Some((pairs, 5)),
            None => None,
        }
    } else {
        None
    }
}

/// Reads the entry of this zome that a payload holds, if it holds one.
pub fn decode(bytes: &[u8]) -> (entry: Option<ThisWasmEntry>)
    ensures
        entry == decoded_payload(bytes@),
{
    match read_map_header(bytes) {
        Some((pairs, first)) => {
            if pairs != 1 {
                return None;
            }
            match read_variant(bytes, first) {
                Some((entry, after)) => {
                    if after < bytes.len() && bytes[after] == 0xc0 {
                        Some(entry)
                    } else {
                        None
                    }
                },
                None => None,
            }
        },
        None => None,
    }
}

/// Writes the serialized form of an entry.
pub fn encode(entry: ThisWasmEntry) -> (bytes: Vec<u8>)
    ensures
        bytes@ == encoding(entry),
{
    let bytes = match entry {
        ThisWasmEntry::AlwaysValidates => vec![
            0x81u8, 0xaf, 0x41, 0x6c, 0x77, 0x61, 0x79, 0x73, 0x56, 0x61, 0x6c, 0x69, 0x64, 0x61,
            0x74, 0x65, 0x73, 0xc0,
        ],
        ThisWasmEntry::NeverValidates => vec![
            0x81u8, 0xae, 0x4e, 0x65, 0x76, 0x65, 0x72, 0x56, 0x61, 0x6c, 0x69, 0x64, 0x61, 0x74,
            0x65, 0x73, 0xc0,
        ],
    };
    proof {
        assert(bytes@ =~= encoding(entry));
    }
    bytes
}

} // verus!

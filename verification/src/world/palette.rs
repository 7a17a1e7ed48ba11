use vstd::prelude::*;

verus! {

pub const BITS_PER_U64: usize = 64;

/// What a container holds: block states or biomes.
#[derive(Debug, Clone, Copy, PartialEq, Eq, Structural)]
pub enum PaletteType {
    Block,
    Biome,
}

impl PaletteType {
    /// The width of an entry that is stored as it stands.
    pub open spec fn width(&self) -> u8 {
        match self {
            PaletteType::Block => 15,
            PaletteType::Biome => 6,
        }
    }

    /// What is kept of a value that is stored as it stands: its low bits, as
    /// many as an entry is wide.
    pub open spec fn kept(&self, value: u32) -> u32 {
        match self {
            PaletteType::Block => value & 0x7fff,
            PaletteType::Biome => value & 0x3f,
        }
    }

    /// The least width of an entry that goes through a palette.
    pub fn min_bits(&self) -> (r: u8)
        ensures
            r == match self {
                PaletteType::Block => 4u8,
                PaletteType::Biome => 1u8,
            },
    {
        match self {
            PaletteType::Block => 4,
            PaletteType::Biome => 1,
        }
    }

    /// The greatest width of an entry that goes through a palette.
    pub fn max_bits(&self) -> (r: u8)
        ensures
            r == match self {
                PaletteType::Block => 8u8,
                PaletteType::Biome => 3u8,
            },
    {
        match self {
            PaletteType::Block => 8,
            PaletteType::Biome => 3,
        }
    }

    pub fn direct_bits(&self) -> (r: u8)
        ensures
            r == self.width(),
    {
        match self {
            PaletteType::Block => 15,
            PaletteType::Biome => 6,
        }
    }
}

/// How the entries of a container are to be read.
#[derive(Debug, Clone)]
pub enum Palette {
    /// Every entry is this value.
    Single(u32),
    /// An entry is an index into these values.
    Indirect(Vec<u32>),
    /// An entry is its value.
    Direct,
}

/// The entry at `index` of words that hold entries of `bits` bits each, as
/// many to a word as fit whole, the first in the lowest bits.
pub open spec fn packed(storage: Seq<u64>, bits: u8, index: int) -> u64 {
    let per_word = 64int / (bits as int);
    (storage[index / per_word] >> (((index % per_word) * bits) as u64)) & (((1u64 << bits) - 1) as u64)
}

/// The number of words that `size` entries of `bits` bits take up.
pub open spec fn words(size: int, bits: u8) -> int {
    let per_word = 64int / (bits as int);
    (size + per_word - 1) / per_word
}

/// A fixed number of values, packed into words.
#[derive(Debug, Clone)]
pub struct PalettedContainer {
    palette: Palette,
    storage: Vec<u64>,
    bits_per_entry: u8,
    palette_type: PaletteType,
    size: usize,
}

impl View for PalettedContainer {
    type V = Seq<u32>;

    /// The values that the container holds, by index.
    closed spec fn view(&self) -> Seq<u32> {
        Seq::new(self.size as nat, |i: int| self.entry(i))
    }
}

impl PalettedContainer {
    spec fn entry(&self, index: int) -> u32 {
        if self.bits_per_entry == 0 {
            0
        } else {
            packed(self.storage@, self.bits_per_entry, index) as u32
        }
    }

    /// A container is either fresh, with one value for every entry and no
    /// words, or holds its entries as they stand.
    pub closed spec fn wf(&self) -> bool {
        if self.bits_per_entry == 0 {
            self.palette == Palette::Single(0) && self.storage@.len() == 0
        } else {
            &&& self.bits_per_entry == self.palette_type.width()
            &&& self.palette is Direct
            &&& self.storage@.len() == words(self.size as int, self.bits_per_entry)
        }
    }

    pub closed spec fn kind(&self) -> PaletteType {
        self.palette_type
    }

    /// A well-formed container holds as many values as it was made for.
    pub proof fn view_len(&self)
        ensures
            self@.len() == self.spec_len(),
    {
    }

    pub closed spec fn spec_len(&self) -> nat {
        self.size as nat
    }

    /// How a container that holds its entries as they stand is laid out:
    /// four blocks of fifteen bits to a word, or ten biomes of six.
    proof fn layout(&self, index: int)
        requires
            self.wf(),
            self.bits_per_entry != 0,
            0 <= index < self.size,
        ensures
            self.bits_per_entry == 15 || self.bits_per_entry == 6,
            self.bits_per_entry == 15 ==> 64int / (self.bits_per_entry as int) == 4,
            self.bits_per_entry == 6 ==> 64int / (self.bits_per_entry as int) == 10,
            0 <= index / (64int / (self.bits_per_entry as int)) < self.storage@.len(),
            0 <= (index % (64int / (self.bits_per_entry as int))) * self.bits_per_entry <= 64
                - self.bits_per_entry,
    {
        if self.bits_per_entry == 15 {
            assert(64int / 15 == 4);
            assert(words(self.size as int, 15) == (self.size + 3) / 4);
        } else {
            assert(self.bits_per_entry == 6);
            assert(64int / 6 == 10);
            assert(words(self.size as int, 6) == (self.size + 9) / 10);
        }
    }

    pub fn new(palette_type: PaletteType, size: usize) -> (r: Self)
        ensures
            r.wf(),
            r.kind() == palette_type,
            r@ == Seq::new(size as nat, |i: int| 0u32),
    {
        let container = Self {
            palette: Palette::Single(0),
            storage: Vec::new(),
            bits_per_entry: 0,
            palette_type,
            size,
        };
        proof {
            assert(container@ =~= Seq::new(size as nat, |i: int| 0u32));
        }
        container
    }

    pub fn get(&self, index: usize) -> (r: u32)
        requires
            self.wf(),
            index < self@.len(),
        ensures
            r == self@[index as int],
    {
        if self.bits_per_entry == 0 {
            return match self.palette {
                Palette::Single(id) => id,
                _ => 0,
            };
        }
        let bits = self.bits_per_entry as usize;
        proof {
            self.layout(index as int);
            assert(1u64 << 15u8 == 0x8000u64) by (bit_vector);
            assert(1u64 << 6u8 == 0x40u64) by (bit_vector);
        }
        let values_per_u64 = BITS_PER_U64 / bits;
        let u64_index = index / values_per_u64;
        let sub_index = index % values_per_u64;
        let mask: u64 = (1u64 << self.bits_per_entry) - 1;
        let value = (self.storage[u64_index] >> (sub_index * bits)) & mask;
        match &self.palette {
            Palette::Indirect(palette) => {
                proof {
                    assert(false);
                }
                palette[value as usize]
            },
            _ => #[verifier::truncate]
            (value as u32),
        }
    }

    pub fn set(&mut self, index: usize, value: u32)
        requires
            old(self).wf(),
            index < old(self)@.len(),
        ensures
            final(self).wf(),
            final(self).kind() == old(self).kind(),
            final(self)@ == old(self)@.update(index as int, old(self).kind().kept(value)),
    {
        let ghost before = *self;
        // For now, only the direct palette is supported.
        self.bits_per_entry = self.palette_type.direct_bits();
        self.palette = Palette::Direct;

        let bits = self.bits_per_entry as usize;
        proof {
            if bits == 15 {
                assert(64int / 15 == 4);
                assert(words(self.size as int, 15) == (self.size + 3) / 4);
            } else {
                assert(64int / 6 == 10);
                assert(words(self.size as int, 6) == (self.size + 9) / 10);
            }
            assert(1u64 << 15u8 == 0x8000u64) by (bit_vector);
            assert(1u64 << 6u8 == 0x40u64) by (bit_vector);
        }
        let values_per_u64 = BITS_PER_U64 / bits;
        proof {
            if bits == 15 {
                assert(values_per_u64 == 4);
                assert(self.size / 4 < usize::MAX);
            } else {
                assert(values_per_u64 == 10);
                assert(self.size / 10 < usize::MAX);
            }
        }
        let u64_count = if self.size % values_per_u64 != 0 {
            self.size / values_per_u64 + 1
        } else {
            self.size / values_per_u64
        };
        proof {
            if bits == 15 {
                assert(u64_count == (self.size + 3) / 4);
            } else {
                assert(u64_count == (self.size + 9) / 10);
            }
        }
        if self.storage.is_empty() {
            self.storage.resize(u64_count, 0);
        }
        let ghost held = self.storage@;
        proof {
            assert(held.len() == words(self.size as int, self.bits_per_entry));
            assert forall|i: int| 0 <= i < self.size implies packed(held, self.bits_per_entry, i)
                as u32 == #[trigger] before.entry(i) by {
                if before.bits_per_entry == 0 {
                    let word = held[i / (values_per_u64 as int)];
                    assert(word == 0);
                    let shift = ((i % (values_per_u64 as int)) * bits) as u64;
                    let mask = ((1u64 << self.bits_per_entry) - 1) as u64;
                    assert((0u64 >> shift) & mask == 0) by (bit_vector);
                }
            }
        }

        let u64_index = index / values_per_u64;
        let sub_index = index % values_per_u64;
        let mask: u64 = (1u64 << self.bits_per_entry) - 1;
        let shift = sub_index * bits;

        let mut u64_value = self.storage[u64_index];
        let ghost word = u64_value;
        u64_value &= !(mask << shift);
        u64_value |= (value as u64 & mask) << shift;
        self.storage[u64_index] = u64_value;

        proof {
            let kept = before.palette_type.kept(value);
            assert(((value as u64) & 0x7fff) as u32 == value & 0x7fff) by (bit_vector);
            assert(((value as u64) & 0x3f) as u32 == value & 0x3f) by (bit_vector);
            assert forall|i: int| 0 <= i < self.size implies #[trigger] self.entry(i) == (if i
                == index {
                kept
            } else {
                before.entry(i)
            }) by {
                let at = i / (values_per_u64 as int);
                let other = ((i % (values_per_u64 as int)) * bits) as u64;
                if at == u64_index {
                    if i == index {
                        slot_written(word, value as u64, mask, self.bits_per_entry as u64, shift as u64);
                    } else {
                        slot_kept(
                            word,
                            value as u64,
                            mask,
                            self.bits_per_entry as u64,
                            shift as u64,
                            other,
                        );
                    }
                }
            }
            assert(self@ =~= before@.update(index as int, kept));
        }
    }
}

/// A slot that was written holds what was written to it.
proof fn slot_written(word: u64, value: u64, mask: u64, bits: u64, shift: u64)
    by (bit_vector)
    requires
        1 <= bits < 64,
        mask == (1u64 << bits) - 1,
        shift <= 64 - bits,
    ensures
        (((word & !(mask << shift)) | ((value & mask) << shift)) >> shift) & mask == value & mask,
{
}

/// A slot holds what it held when another slot of its word is written.
proof fn slot_kept(word: u64, value: u64, mask: u64, bits: u64, shift: u64, other: u64)
    by (bit_vector)
    requires
        1 <= bits < 64,
        mask == (1u64 << bits) - 1,
        shift <= 64 - bits,
        other <= 64 - bits,
        other + bits <= shift || shift + bits <= other,
    ensures
        (((word & !(mask << shift)) | ((value & mask) << shift)) >> other) & mask == (word >> other)
            & mask,
{
}

} // verus!

use crate::world::palette::{PaletteType, PalettedContainer};
use vstd::prelude::*;

verus! {

pub const SECTION_WIDTH: usize = 16;

pub const SECTION_HEIGHT: usize = 16;

pub const SECTION_VOLUME: usize = 4096;

pub const BIOME_WIDTH: usize = 4;

pub const BIOME_HEIGHT: usize = 4;

pub const BIOME_VOLUME: usize = 64;

/// The number of sections in a column.
pub const COLUMN_SECTIONS: usize = 24;

/// The place of a block within the blocks of a section: layer by layer from
/// the bottom, row by row within a layer.
pub open spec fn block_index(x: int, y: int, z: int) -> int {
    y * 256 + z * 16 + x
}

/// A cube of sixteen blocks a side, with its biomes.
pub struct ChunkSection {
    block_count: u16,
    block_states: PalettedContainer,
    biomes: PalettedContainer,
}

impl View for ChunkSection {
    type V = Seq<u32>;

    /// The blocks of the section, by their place.
    closed spec fn view(&self) -> Seq<u32> {
        self.block_states@
    }
}

impl ChunkSection {
    pub closed spec fn wf(&self) -> bool {
        &&& self.block_states.wf()
        &&& self.block_states.kind() == PaletteType::Block
        &&& self.block_states@.len() == SECTION_VOLUME
        &&& self.biomes.wf()
        &&& self.biomes.kind() == PaletteType::Biome
        &&& self.biomes@.len() == BIOME_VOLUME
    }

    /// A well-formed section holds a block for every place.
    pub proof fn view_len(&self)
        requires
            self.wf(),
        ensures
            self@.len() == SECTION_VOLUME,
    {
    }

    pub fn new() -> (r: Self)
        ensures
            r.wf(),
            r@ == Seq::new(SECTION_VOLUME as nat, |i: int| 0u32),
    {
        Self {
            block_count: 0,
            block_states: PalettedContainer::new(PaletteType::Block, SECTION_VOLUME),
            biomes: PalettedContainer::new(PaletteType::Biome, BIOME_VOLUME),
        }
    }

    pub fn get_block(&self, x: usize, y: usize, z: usize) -> (r: u32)
        requires
            self.wf(),
            block_index(x as int, y as int, z as int) < SECTION_VOLUME,
        ensures
            r == self@[block_index(x as int, y as int, z as int)],
    {
        self.block_states.get(y * SECTION_WIDTH * SECTION_HEIGHT + z * SECTION_WIDTH + x)
    }

    pub fn set_block(&mut self, x: usize, y: usize, z: usize, block: u32)
        requires
            old(self).wf(),
            block_index(x as int, y as int, z as int) < SECTION_VOLUME,
        ensures
            final(self).wf(),
            final(self)@ == old(self)@.update(
                block_index(x as int, y as int, z as int),
                PaletteType::Block.kept(block),
            ),
    {
        self.block_states.set(y * SECTION_WIDTH * SECTION_HEIGHT + z * SECTION_WIDTH + x, block);
    }
}

/// Sections on top of each other, from the bottom of the world to its top.
pub struct ChunkColumn {
    sections: Vec<ChunkSection>,
}

impl View for ChunkColumn {
    type V = Seq<Seq<u32>>;

    /// The blocks of each section, from the bottom up.
    closed spec fn view(&self) -> Seq<Seq<u32>> {
        Seq::new(self.sections@.len(), |i: int| self.sections@[i]@)
    }
}

impl ChunkColumn {
    pub closed spec fn wf(&self) -> bool {
        &&& self.sections@.len() == COLUMN_SECTIONS
        &&& forall|i: int| 0 <= i < self.sections@.len() ==> (#[trigger] self.sections@[i]).wf()
    }

    /// A well-formed column has all its sections, each with all its blocks.
    pub proof fn view_len(&self)
        requires
            self.wf(),
        ensures
            self@.len() == COLUMN_SECTIONS,
            forall|i: int| 0 <= i < COLUMN_SECTIONS ==> (#[trigger] self@[i]).len() == SECTION_VOLUME,
    {
        assert forall|i: int| 0 <= i < COLUMN_SECTIONS implies (#[trigger] self@[i]).len()
            == SECTION_VOLUME by {
            self.sections@[i].view_len();
        }
    }

    pub fn new() -> (r: Self)
        ensures
            r.wf(),
            r@ == Seq::new(
                COLUMN_SECTIONS as nat,
                |i: int| Seq::new(SECTION_VOLUME as nat, |j: int| 0u32),
            ),
    {
        let mut sections: Vec<ChunkSection> = Vec::with_capacity(24);
        let mut i: usize = 0;
        while i < 24
            invariant
                i <= 24,
                sections@.len() == i,
                forall|k: int| 0 <= k < i ==> (#[trigger] sections@[k]).wf(),
                forall|k: int|
                    0 <= k < i ==> (#[trigger] sections@[k])@ == Seq::new(
                        SECTION_VOLUME as nat,
                        |j: int| 0u32,
                    ),
            decreases 24 - i,
        {
            sections.push(ChunkSection::new());
            i += 1;
        }
        let column = Self { sections };
        proof {
            assert(column@ =~= Seq::new(
                COLUMN_SECTIONS as nat,
                |i: int| Seq::new(SECTION_VOLUME as nat, |j: int| 0u32),
            ));
        }
        column
    }

    pub fn get_block(&self, x: usize, y: usize, z: usize) -> (r: u32)
        requires
            self.wf(),
            y / 16 < COLUMN_SECTIONS,
            block_index(x as int, (y % 16) as int, z as int) < SECTION_VOLUME,
        ensures
            r == self@[(y / 16) as int][block_index(x as int, (y % 16) as int, z as int)],
    {
        let section = &self.sections[y / SECTION_HEIGHT];
        section.get_block(x, y % SECTION_HEIGHT, z)
    }

    pub fn set_block(&mut self, x: usize, y: usize, z: usize, block: u32)
        requires
            old(self).wf(),
            y / 16 < COLUMN_SECTIONS,
            block_index(x as int, (y % 16) as int, z as int) < SECTION_VOLUME,
        ensures
            final(self).wf(),
            final(self)@ == old(self)@.update(
                (y / 16) as int,
                old(self)@[(y / 16) as int].update(
                    block_index(x as int, (y % 16) as int, z as int),
                    PaletteType::Block.kept(block),
                ),
            ),
    {
        let section = &mut self.sections[y / SECTION_HEIGHT];
        section.set_block(x, y % SECTION_HEIGHT, z, block);
        proof {
            assert(self@ =~= old(self)@.update(
                (y / 16) as int,
                old(self)@[(y / 16) as int].update(
                    block_index(x as int, (y % 16) as int, z as int),
                    PaletteType::Block.kept(block),
                ),
            ));
        }
    }
}

} // verus!

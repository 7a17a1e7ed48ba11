use crate::world::chunk::{block_index, ChunkColumn, COLUMN_SECTIONS, SECTION_VOLUME};
use crate::world::palette::PaletteType;
use std::collections::HashMap;
use vstd::prelude::*;

verus! {

/// The block that fresh terrain has at a height: stone at the bottom, three
/// layers of dirt on it, grass on top, and nothing above.
pub open spec fn terrain_block(y: int) -> u32 {
    if y == 0 {
        1
    } else if 1 <= y <= 3 {
        2
    } else if y == 4 {
        3
    } else {
        0
    }
}

/// The blocks of the lowest section while terrain is laid column by column:
/// the columns before (`x`, `z`), in the order of laying, are done.
pub open spec fn terrain_until(x: int, z: int) -> Seq<u32> {
    Seq::new(
        SECTION_VOLUME as nat,
        |i: int|
            if i % 16 < x || (i % 16 == x && (i / 16) % 16 < z) {
                terrain_block(i / 256)
            } else {
                0
            },
    )
}

/// The blocks of a column of fresh terrain: the lowest section is laid, the
/// others are empty.
pub open spec fn terrain() -> Seq<Seq<u32>> {
    Seq::new(
        COLUMN_SECTIONS as nat,
        |s: int|
            Seq::new(
                SECTION_VOLUME as nat,
                |i: int|
                    if s == 0 {
                        terrain_block(i / 256)
                    } else {
                        0
                    },
            ),
    )
}

/// A column in which only the lowest section holds anything.
pub open spec fn grounded(lowest: Seq<u32>) -> Seq<Seq<u32>> {
    Seq::new(
        COLUMN_SECTIONS as nat,
        |s: int|
            if s == 0 {
                lowest
            } else {
                Seq::new(SECTION_VOLUME as nat, |i: int| 0u32)
            },
    )
}

/// A column with one block of its lowest section set.
pub open spec fn laid(column: Seq<Seq<u32>>, x: int, y: int, z: int, block: u32) -> Seq<Seq<u32>> {
    column.update(0, column[0].update(block_index(x, y, z), PaletteType::Block.kept(block)))
}

/// Laying the five blocks of one more column carries the terrain one
/// column on.
proof fn terrain_laid(before: Seq<Seq<u32>>, after: Seq<Seq<u32>>, x: int, z: int)
    requires
        0 <= x < 16,
        0 <= z < 16,
        before == grounded(terrain_until(x, z)),
        after == laid(
            laid(laid(laid(laid(before, x, 0, z, 1), x, 1, z, 2), x, 2, z, 2), x, 3, z, 2),
            x,
            4,
            z,
            3,
        ),
    ensures
        after == grounded(terrain_until(x, z + 1)),
{
    assert(1u32 & 0x7fff == 1) by (bit_vector);
    assert(2u32 & 0x7fff == 2) by (bit_vector);
    assert(3u32 & 0x7fff == 3) by (bit_vector);
    let lowest = after[0];
    let next = terrain_until(x, z + 1);
    assert forall|i: int| 0 <= i < SECTION_VOLUME implies lowest[i] == next[i] by {
        if i % 16 == x && (i / 16) % 16 == z {
            assert(i == block_index(x, i / 256, z));
        }
    }
    assert(lowest =~= next);
    assert(after =~= grounded(next));
}

/// The key under which the world holds the chunk at (`x`, `z`): the two
/// coordinates side by side, each counted from the least coordinate.
pub open spec fn chunk_key(x: i32, z: i32) -> u64 {
    ((x + 0x8000_0000) * 0x1_0000_0000 + (z + 0x8000_0000)) as u64
}

/// Two places have the same key only if they are the same place.
pub proof fn chunk_key_is_one_to_one(x: i32, z: i32, a: i32, b: i32)
    ensures
        chunk_key(x, z) == chunk_key(a, b) <==> x == a && z == b,
{
}

/// `HashMap::get_mut`: a mutable reference to the value under a key, if the
/// map holds the key. When the caller is done with the reference, the map
/// holds under that key what the caller has left there, and is otherwise
/// what it was.
#[verifier::external_body]
fn chunk_mut(chunks: &mut HashMap<u64, ChunkColumn>, key: u64) -> (found: Option<&mut ChunkColumn>)
    ensures
        found is Some <==> old(chunks)@.contains_key(key),
        found matches Some(chunk) ==> *chunk == old(chunks)@[key] && final(chunks)@ == old(
            chunks,
        )@.insert(key, *final(chunk)),
        found is None ==> final(chunks)@ == old(chunks)@,
{
    chunks.get_mut(&key)
}

/// The chunks that have been asked for so far, each generated when it was
/// first asked for.
pub struct World {
    chunks: HashMap<u64, ChunkColumn>,
}

impl World {
    /// Whether the chunk at (`x`, `z`) is loaded.
    pub closed spec fn loaded(&self, x: i32, z: i32) -> bool {
        self.chunks@.contains_key(chunk_key(x, z))
    }

    /// The blocks of the chunk at (`x`, `z`), which is loaded.
    pub closed spec fn blocks(&self, x: i32, z: i32) -> Seq<Seq<u32>> {
        self.chunks@[chunk_key(x, z)]@
    }

    /// Every chunk is well formed.
    pub closed spec fn wf(&self) -> bool {
        forall|key: u64| self.chunks@.contains_key(key) ==> (#[trigger] self.chunks@[key]).wf()
    }

    pub fn new() -> (r: Self)
        ensures
            r.wf(),
            forall|x: i32, z: i32| !r.loaded(x, z),
    {
        Self { chunks: HashMap::new() }
    }

    /// That `after` is this world with `column` as the chunk at (`x`, `z`),
    /// whether this world had that chunk or not.
    pub closed spec fn replaced(&self, after: World, x: i32, z: i32, column: ChunkColumn) -> bool {
        &&& after.chunks@.contains_key(chunk_key(x, z))
        &&& after.chunks@[chunk_key(x, z)] == column
        &&& forall|key: u64|
            key != chunk_key(x, z) ==> (#[trigger] after.chunks@.contains_key(key)
                <==> self.chunks@.contains_key(key))
        &&& forall|key: u64|
            key != chunk_key(x, z) && self.chunks@.contains_key(key) ==> #[trigger] after.chunks@[key]
                == self.chunks@[key]
    }

    /// What it means that a chunk was replaced: the chunk is loaded and is
    /// the new one, every other chunk is as it was, and the world is well
    /// formed if the new chunk is.
    pub proof fn replaced_chunk(&self, after: World, x: i32, z: i32, column: ChunkColumn)
        requires
            self.wf(),
            self.replaced(after, x, z, column),
        ensures
            after.loaded(x, z),
            after.blocks(x, z) == column@,
            forall|a: i32, b: i32|
                (a != x || b != z) ==> #[trigger] after.loaded(a, b) == self.loaded(a, b),
            forall|a: i32, b: i32|
                (a != x || b != z) && self.loaded(a, b) ==> #[trigger] after.blocks(a, b)
                    == self.blocks(a, b),
            column.wf() ==> after.wf(),
    {
        assert forall|a: i32, b: i32| (a != x || b != z) implies #[trigger] after.loaded(a, b)
            == self.loaded(a, b) by {
            chunk_key_is_one_to_one(x, z, a, b);
        }
        assert forall|a: i32, b: i32|
            (a != x || b != z) && self.loaded(a, b) implies #[trigger] after.blocks(a, b)
            == self.blocks(a, b) by {
            chunk_key_is_one_to_one(x, z, a, b);
        }
        if column.wf() {
            assert forall|key: u64| after.chunks@.contains_key(key) implies (
            #[trigger] after.chunks@[key]).wf() by {
                if key != chunk_key(x, z) {
                    assert(self.chunks@.contains_key(key));
                    assert(after.chunks@[key] == self.chunks@[key]);
                }
            }
        }
    }

    /// The chunk at (`x`, `z`), to read or to change. A chunk that is asked
    /// for the first time is generated. When the caller is done with the
    /// chunk, the world holds it as the caller has left it, and is otherwise
    /// what it was.
    pub fn get_chunk(&mut self, x: i32, z: i32) -> (chunk: &mut ChunkColumn)
        requires
            old(self).wf(),
        ensures
            chunk.wf(),
            chunk@ == if old(self).loaded(x, z) {
                old(self).blocks(x, z)
            } else {
                terrain()
            },
            old(self).replaced(*final(self), x, z, *final(chunk)),
    {
        let key: u64 = ((x as i64 + 0x8000_0000) as u64) * 0x1_0000_0000 + ((z as i64
            + 0x8000_0000) as u64);
        if !self.chunks.contains_key(&key) {
            let chunk = self.generate_chunk(x, z);
            self.chunks.insert(key, chunk);
        }
        chunk_mut(&mut self.chunks, key).unwrap()
    }

    pub fn generate_chunk(&self, _chunk_x: i32, _chunk_z: i32) -> (chunk: ChunkColumn)
        ensures
            chunk.wf(),
            chunk@ == terrain(),
    {
        let mut chunk = ChunkColumn::new();
        proof {
            assert(chunk@ =~~= grounded(terrain_until(0, 0)));
        }
        let mut x: usize = 0;
        while x < 16
            invariant
                x <= 16,
                chunk.wf(),
                chunk@ == grounded(terrain_until(x as int, 0)),
            decreases 16 - x,
        {
            let mut z: usize = 0;
            while z < 16
                invariant
                    x < 16,
                    z <= 16,
                    chunk.wf(),
                    chunk@ == grounded(terrain_until(x as int, z as int)),
                decreases 16 - z,
            {
                let ghost before = chunk@;
                chunk.set_block(x, 0, z, 1);  // Stone
                chunk.set_block(x, 1, z, 2);  // Dirt
                chunk.set_block(x, 2, z, 2);  // Dirt
                chunk.set_block(x, 3, z, 2);  // Dirt
                chunk.set_block(x, 4, z, 3);  // Grass
                proof {
                    terrain_laid(before, chunk@, x as int, z as int);
                }
                z += 1;
            }
            proof {
                assert(terrain_until(x as int, 16) =~= terrain_until(x + 1, 0));
            }
            x += 1;
        }
        proof {
            assert(chunk@ =~~= terrain());
        }
        chunk
    }
}

} // verus!

use iron_oxide::world::chunk::{ChunkColumn, ChunkSection};
use iron_oxide::world::palette::{PaletteType, PalettedContainer};
use iron_oxide::world::world::World;

#[test]
fn palette_widths() {
    assert_eq!(PaletteType::Block.min_bits(), 4);
    assert_eq!(PaletteType::Block.max_bits(), 8);
    assert_eq!(PaletteType::Block.direct_bits(), 15);
    assert_eq!(PaletteType::Biome.min_bits(), 1);
    assert_eq!(PaletteType::Biome.max_bits(), 3);
    assert_eq!(PaletteType::Biome.direct_bits(), 6);
}

#[test]
fn fresh_container_holds_zeros() {
    let container = PalettedContainer::new(PaletteType::Block, 4096);
    for index in [0, 1, 2048, 4095] {
        assert_eq!(container.get(index), 0);
    }
}

#[test]
fn container_returns_what_was_set_and_keeps_the_rest() {
    let mut container = PalettedContainer::new(PaletteType::Block, 4096);
    container.set(5, 1234);
    assert_eq!(container.get(5), 1234);
    assert_eq!(container.get(4), 0);
    assert_eq!(container.get(6), 0);
    assert_eq!(container.get(7), 0);
    for index in 0..4096usize {
        container.set(index, (index as u32 * 7) % 32768);
    }
    for index in 0..4096usize {
        assert_eq!(container.get(index), (index as u32 * 7) % 32768);
    }
    container.set(100, 0);
    assert_eq!(container.get(100), 0);
    assert_eq!(container.get(99), 693);
    assert_eq!(container.get(101), 707);
}

#[test]
fn container_keeps_the_low_bits_of_a_value() {
    let mut blocks = PalettedContainer::new(PaletteType::Block, 16);
    blocks.set(3, 0xffff_ffff);
    assert_eq!(blocks.get(3), 0x7fff);
    blocks.set(3, 0x8001);
    assert_eq!(blocks.get(3), 1);
    assert_eq!(blocks.get(2), 0);
    let mut biomes = PalettedContainer::new(PaletteType::Biome, 64);
    biomes.set(63, 0x7f);
    assert_eq!(biomes.get(63), 0x3f);
    biomes.set(9, 5);
    biomes.set(10, 6);
    biomes.set(0, 63);
    assert_eq!(biomes.get(9), 5);
    assert_eq!(biomes.get(10), 6);
    assert_eq!(biomes.get(0), 63);
    assert_eq!(biomes.get(1), 0);
    assert_eq!(biomes.get(63), 0x3f);
}

#[test]
fn section_places_blocks_by_layer_row_and_column() {
    let mut section = ChunkSection::new();
    assert_eq!(section.get_block(0, 0, 0), 0);
    section.set_block(1, 2, 3, 42);
    assert_eq!(section.get_block(1, 2, 3), 42);
    assert_eq!(section.get_block(3, 2, 1), 0);
    assert_eq!(section.get_block(2 * 256 + 3 * 16 + 1, 0, 0), 42);
    section.set_block(15, 15, 15, 7);
    assert_eq!(section.get_block(15, 15, 15), 7);
    assert_eq!(section.get_block(1, 2, 3), 42);
}

#[test]
fn column_places_blocks_in_the_section_of_their_height() {
    let mut column = ChunkColumn::new();
    assert_eq!(column.get_block(0, 0, 0), 0);
    assert_eq!(column.get_block(15, 383, 15), 0);
    column.set_block(1, 17, 2, 9);
    assert_eq!(column.get_block(1, 17, 2), 9);
    assert_eq!(column.get_block(1, 1, 2), 0);
    assert_eq!(column.get_block(1, 33, 2), 0);
    column.set_block(15, 383, 15, 11);
    assert_eq!(column.get_block(15, 383, 15), 11);
    assert_eq!(column.get_block(1, 17, 2), 9);
}

#[test]
fn generated_chunk_is_stone_dirt_and_grass() {
    let world = World::new();
    let chunk = world.generate_chunk(3, -4);
    for x in 0..16 {
        for z in 0..16 {
            assert_eq!(chunk.get_block(x, 0, z), 1);
            assert_eq!(chunk.get_block(x, 1, z), 2);
            assert_eq!(chunk.get_block(x, 2, z), 2);
            assert_eq!(chunk.get_block(x, 3, z), 2);
            assert_eq!(chunk.get_block(x, 4, z), 3);
            assert_eq!(chunk.get_block(x, 5, z), 0);
            assert_eq!(chunk.get_block(x, 16, z), 0);
            assert_eq!(chunk.get_block(x, 383, z), 0);
        }
    }
}

#[test]
fn world_generates_a_chunk_once_and_keeps_changes() {
    let mut world = World::new();
    assert_eq!(world.get_chunk(0, 0).get_block(0, 4, 0), 3);
    world.get_chunk(0, 0).set_block(0, 4, 0, 77);
    world.get_chunk(1, 0).set_block(0, 4, 0, 78);
    world.get_chunk(0, -1).set_block(0, 4, 0, 79);
    assert_eq!(world.get_chunk(0, 0).get_block(0, 4, 0), 77);
    assert_eq!(world.get_chunk(1, 0).get_block(0, 4, 0), 78);
    assert_eq!(world.get_chunk(0, -1).get_block(0, 4, 0), 79);
    assert_eq!(world.get_chunk(-1, 0).get_block(0, 4, 0), 3);
    assert_eq!(world.get_chunk(0, 0).get_block(1, 4, 0), 3);
}

#[test]
fn world_tells_every_place_from_every_other() {
    let places = [
        (0, 0),
        (0, 1),
        (1, 0),
        (-1, 0),
        (0, -1),
        (-1, -1),
        (i32::MIN, i32::MAX),
        (i32::MAX, i32::MIN),
        (i32::MIN, i32::MIN),
        (i32::MAX, i32::MAX),
    ];
    let mut world = World::new();
    for (n, (x, z)) in places.iter().enumerate() {
        world.get_chunk(*x, *z).set_block(1, 5, 1, 100 + n as u32);
    }
    for (n, (x, z)) in places.iter().enumerate() {
        assert_eq!(world.get_chunk(*x, *z).get_block(1, 5, 1), 100 + n as u32);
        assert_eq!(world.get_chunk(*x, *z).get_block(1, 4, 1), 3);
    }
}

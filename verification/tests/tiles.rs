use ants_layer::chunk::index::{flatten_index_i32, flatten_index_usize, to_xyz};
use ants_layer::chunk::tile::{Fluid, Soil, Stone, Tile as Voxel, TileType as VoxelType};
use ants_layer::coords::Coords;
use ants_layer::game::map::automaton::Automaton;
use ants_layer::game::map::tile::buildings::{Buildable, BuildingType, Hearth};
use ants_layer::game::map::tile::minerals::{Mineral, MineralType};
use ants_layer::game::map::tile::terrain::TerrainType;
use ants_layer::game::map::tile::{Tile, TileType};
use ants_layer::game::map::TileMap;
use ants_layer::game::units::RaceType;

#[test]
fn flat_indices_round_trip() {
    assert_eq!(flatten_index_i32((1, 2, 3)), 1 + 16 + 192);
    assert_eq!(flatten_index_usize((7, 7, 127)), 8191);
    assert_eq!(to_xyz(1 + 16 + 192), (1, 2, 3));
    for i in [0usize, 63, 64, 4097, 8191] {
        let (x, y, z) = to_xyz(i);
        assert_eq!(flatten_index_i32((x, y, z)), i);
    }
}

#[test]
fn voxel_kinds() {
    assert_eq!(VoxelType::Fluid(Fluid::Water).name(), "Water");
    assert_eq!(VoxelType::Stone(Stone::Limestone).name(), "Limestone");
    assert_eq!(VoxelType::Soil(Soil::Clay).ascii(), 'x');
    assert!(VoxelType::Fluid(Fluid::Magma).is_fluid());
    assert!(!VoxelType::Soil(Soil::Sand).is_fluid());
    assert!(Voxel::air().is_traversable());
    assert!(!Voxel::dirt().is_traversable());
    assert_eq!(Voxel::dirt().color(), (111, 78, 55, 255));
    assert_eq!(Voxel::water().color(), (0, 0, 250, 200));
}

#[test]
fn tile_types_by_name() {
    assert_eq!(TileType::from_str("GOLD"), Ok(TileType::Mineral(MineralType::GOLD)));
    assert_eq!(TileType::from_str("WATER"), Ok(TileType::TerrainType(TerrainType::WATER)));
    assert_eq!(TileType::from_str("gold"), Err("gold"));
    assert_eq!(TileType::Mineral(MineralType::GOLD).to_ascii(), MineralType::GOLD.to_char());
    assert_eq!(TileType::TerrainType(TerrainType::AIR).to_ascii(), " ");
    assert!(TileType::Mineral(MineralType::MOSS).is_walkable());
    assert!(!TileType::Mineral(MineralType::ROCK).is_walkable());
}

#[test]
fn tile_layers() {
    let rock_on_air = Tile(Some(TerrainType::AIR), Some(Mineral(MineralType::ROCK)), None);
    assert_eq!(rock_on_air.has(TileType::Mineral(MineralType::ROCK)), Ok(TileType::Mineral(MineralType::ROCK).as_tile()));
    assert_eq!(rock_on_air.has(TileType::Mineral(MineralType::GOLD)), Err(()));
    assert!(rock_on_air.is_diggable());
    assert!(!rock_on_air.is_walkable());
    let hearth = Buildable::Hearth(Hearth { race_type: RaceType::ANT, hp: 100 });
    assert_eq!(hearth.building_type(), BuildingType::Hearth);
    let with_hearth = Tile(Some(TerrainType::AIR), None, Some(hearth));
    assert!(with_hearth.is_walkable());
    assert_eq!(with_hearth.get_buildable(), Ok(hearth));
}

#[test]
fn like_neighbours_are_counted() {
    let mut map = TileMap::new();
    let rock = Tile(Some(TerrainType::AIR), Some(Mineral(MineralType::ROCK)), None);
    map.set_tile(Coords(4, 4), Some(rock)).unwrap();
    map.set_tile(Coords(5, 6), Some(rock)).unwrap();
    map.set_tile(Coords(9, 9), Some(rock)).unwrap();
    assert_eq!(Tile::count_like_in(&map, rock, 5, 5), 2);
    assert_eq!(Tile::count_like_in(&map, rock, 0, 0), 0);
}

#[test]
fn replaceable_minerals() {
    assert_eq!(MineralType::GOLD.can_replace(), vec![TileType::Mineral(MineralType::IRON)]);
    assert_eq!(MineralType::IRON.can_replace().len(), 2);
}

#[test]
fn automaton_from_settings() {
    let names = vec!["AIR".to_string(), "DIRT".to_string()];
    let a = Automaton::new(MineralType::ROCK, &names, true, 4, 3, 2, 5);
    assert_eq!(a.can_replace, vec![TileType::TerrainType(TerrainType::AIR), TileType::Mineral(MineralType::DIRT)]);
    assert_eq!(a.iterations, 5);
}

#[test]
fn lonely_rock_wears_away() {
    let mut map = TileMap::new();
    let rock = Tile(Some(TerrainType::WATER), Some(Mineral(MineralType::ROCK)), None);
    map.set_tile(Coords(10, 10), Some(rock)).unwrap();
    let names: Vec<String> = Vec::new();
    let a = Automaton::new(MineralType::ROCK, &names, true, 4, 3, 2, 1);
    a.apply_rules(&mut map);
    // fewer than 3 like neighbours: the rock gets air as terrain
    let (t, _) = map.get_tile(10, 10).unwrap();
    assert_eq!(t, Tile(Some(TerrainType::AIR), Some(Mineral(MineralType::ROCK)), None));
}

const SETTINGS: &str = r#"{
    "ROCK": {
        "can replace": ["AIR", "WATER", "DIRT"],
        "enable": true,
        "perlin": { "scale": 0.1, "threshold": 0.2 },
        "automaton": { "birth limit": 4, "death limit": 3, "max air exposure": 2, "iterations": 5 }
    },
    "MOSS": {
        "can replace": ["AIR", "LAVA"],
        "enable": false,
        "automaton": { "birth limit": 1, "death limit": 1, "max air exposure": 1, "iterations": 1 }
    },
    "DIRT": {
        "can replace": [],
        "enable": false,
        "automaton": { "birth limit": 1, "death limit": 1, "iterations": 1 }
    }
}"#;

#[test]
fn automaton_read_from_settings_text() {
    let a = Automaton::from_settings(SETTINGS, MineralType::ROCK).unwrap();
    assert_eq!(a.mineral_type, MineralType::ROCK);
    assert_eq!(
        a.can_replace,
        vec![
            TileType::TerrainType(TerrainType::AIR),
            TileType::TerrainType(TerrainType::WATER),
            TileType::Mineral(MineralType::DIRT)
        ]
    );
    assert!(a.enable);
    assert_eq!((a.birth_limit, a.death_limit, a.max_air_exposure, a.iterations), (4, 3, 2, 5));
}

#[test]
fn automaton_settings_that_fall_short() {
    // an unknown tile type
    assert!(Automaton::from_settings(SETTINGS, MineralType::MOSS).is_none());
    // a missing rule
    assert!(Automaton::from_settings(SETTINGS, MineralType::DIRT).is_none());
    // a missing mineral
    assert!(Automaton::from_settings(SETTINGS, MineralType::GOLD).is_none());
    // no JSON at all
    assert!(Automaton::from_settings("not json", MineralType::ROCK).is_none());
}

#[test]
fn neighbours_at_the_edges_of_the_indices() {
    let mut map = TileMap::new();
    let rock = Tile(Some(TerrainType::AIR), Some(Mineral(MineralType::ROCK)), None);
    map.set_tile(Coords(0, 1), Some(rock)).unwrap();
    map.set_tile(Coords(1, 1), Some(rock)).unwrap();
    map.set_tile(Coords(0, 0), Some(rock)).unwrap();
    // at the map's corner only the cells inside count
    assert_eq!(Tile::count_like_in(&map, rock, 0, 0), 2);
    // past the largest index the neighbours wrap around to index 0
    assert_eq!(Tile::count_like_in(&map, rock, usize::MAX, 0), 2);
    let mut t = rock;
    assert_eq!(t.count_neighbors(map.copy(), rock, 1, 0), 3);
}

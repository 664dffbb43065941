use ants_layer::coords::Coords;
use ants_layer::game::map::search::SearchGoal;
use ants_layer::game::map::tile::buildings::BuildingType;
use ants_layer::game::map::tile::minerals::{Mineral, MineralType};
use ants_layer::game::map::tile::terrain::TerrainType;
use ants_layer::game::map::tile::{Tile, TileType};
use ants_layer::game::map::TileMap;
use ants_layer::game::units::jobs::JobType;
use ants_layer::game::units::{RaceType, Unit};

fn gold() -> Tile {
    Tile(Some(TerrainType::AIR), Some(Mineral(MineralType::GOLD)), None)
}

#[test]
fn closest_building_next_door() {
    let mut map = TileMap::new();
    map.build_starting_zone(RaceType::ANT).unwrap();
    // the moss stockpile stands 5 tiles north of the hearth at (50, 50)
    assert_eq!(
        map.find_closest_building(Coords(50, 54), BuildingType::Stockpile(MineralType::MOSS)),
        Ok(Coords(50, 55))
    );
    assert_eq!(map.find_closest_building(Coords(50, 51), BuildingType::Hearth), Ok(Coords(50, 50)));
}

#[test]
fn closest_building_stops_at_other_buildings() {
    let mut map = TileMap::new();
    map.build_starting_zone(RaceType::ANT).unwrap();
    // the hearth is met first, and it is not a gold stockpile
    assert_eq!(
        map.find_closest_building(Coords(50, 51), BuildingType::Stockpile(MineralType::GOLD)),
        Err(())
    );
}

#[test]
fn closest_building_stops_at_the_edge() {
    let map = TileMap::new();
    // no building: the search runs into the edge of the map
    assert_eq!(map.find_closest_building(Coords(3, 3), BuildingType::Hearth), Err(()));
}

#[test]
fn closest_tile_holding_a_type() {
    let mut map = TileMap::new();
    map.set_tile(Coords(10, 13), Some(gold())).unwrap();
    assert_eq!(map.find_closest(Coords(10, 10), TileType::Mineral(MineralType::GOLD)), Ok(Coords(10, 13)));
    assert_eq!(
        map.find_closest(Coords(10, 10), TileType::Mineral(MineralType::IRON)),
        Err(TileType::Mineral(MineralType::IRON))
    );
    // every air tile holds air: a neighbour is found at once
    assert_eq!(map.find_closest(Coords(10, 10), TileType::TerrainType(TerrainType::AIR)), Ok(Coords(10, 11)));
}

#[test]
fn closest_exact_tile() {
    let mut map = TileMap::new();
    map.set_tile(Coords(20, 20), Some(gold())).unwrap();
    let mut unit = Unit::born(RaceType::ANT, JobType::MINER(TileType::Mineral(MineralType::GOLD)));
    unit.coords = Coords(17, 20);
    assert_eq!(MineralType::GOLD.find_closest(gold(), &map, unit), Some(Coords(20, 20)));
    let mut unit = Unit::born(RaceType::ANT, JobType::JOBLESS);
    unit.coords = Coords(17, 20);
    let moss = Tile(Some(TerrainType::AIR), Some(Mineral(MineralType::MOSS)), None);
    assert_eq!(MineralType::MOSS.find_closest(moss, &map, unit), None);
}

#[test]
fn breadth_first_goals() {
    let mut map = TileMap::new();
    map.set_tile(Coords(5, 5), Some(gold())).unwrap();
    assert_eq!(map.breadth_first(Coords(5, 3), SearchGoal::Exactly(gold())), Some(Coords(5, 5)));
    assert_eq!(
        map.breadth_first(Coords(5, 3), SearchGoal::Holding(TileType::Mineral(MineralType::GOLD))),
        Some(Coords(5, 5))
    );
}

#[test]
fn searches_on_a_small_map() {
    let air = Tile(Some(TerrainType::AIR), None, None);
    let mut map = TileMap { data: vec![vec![air; 5]; 4] };
    map.set_tile(Coords(3, 4), Some(gold())).unwrap();
    assert_eq!(map.find_closest(Coords(0, 0), TileType::Mineral(MineralType::GOLD)), Ok(Coords(3, 4)));
    assert_eq!(
        map.find_closest(Coords(0, 0), TileType::Mineral(MineralType::IRON)),
        Err(TileType::Mineral(MineralType::IRON))
    );
}

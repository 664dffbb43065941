use ants_layer::coords::Coords;
use ants_layer::game::map::tile::buildings::{Buildable, Building, Content, Stockpile};
use ants_layer::game::map::tile::minerals::MineralType;
use ants_layer::game::units::RaceType;

#[test]
fn create_stockpiles() -> Result<(), Coords> {
    let stock: Building<Buildable<RaceType>> = Building {
        buildable: Buildable::Stockpile(Stockpile {
            mineral_type: MineralType::MOSS,
            content: Content(0, 0),
        }),

        race_type: RaceType::ANT,
        coords: Coords(10, 10),
    };

    assert_eq!(stock.stockpile().content.stored_amount(), 0);

    stock.stockpile().content.add(1);

    Ok(())
}

use ants_layer::game::map::automaton::Automaton;
use ants_layer::game::map::tile::buildings::Hearth;
use ants_layer::game::map::tile::terrain::TerrainType;
use ants_layer::game::map::tile::minerals::Mineral;
use ants_layer::game::map::tile::Tile;
use ants_layer::game::map::{TileMap, HEIGHT, WIDTH};

#[test]
fn create_hearths() -> Result<(), Coords> {
    let mut map = TileMap::new();

    map.build_starting_zone(RaceType::ANT)?;
    map.build_starting_zone(RaceType::HUMAN)?;
    map.build_starting_zone(RaceType::ALIEN)?;

    Ok(())
}

fn rock_rules(enable: bool) -> Automaton {
    Automaton::new(MineralType::ROCK, &vec!["AIR".to_string()], enable, 4, 3, 2, 1)
}

#[test]
fn generate() -> Result<(), Coords> {
    let mut map = TileMap::new();
    let masks = vec![vec![vec![true; HEIGHT]; WIDTH]];

    map.generate(&vec![rock_rules(true)], &masks)?;
    Ok(())
}

#[test]
fn generate_places_three_hearths() {
    let mut map = TileMap::new();
    let masks = vec![vec![vec![false; HEIGHT]; WIDTH]];
    assert_eq!(map.generate(&vec![rock_rules(false)], &masks), Ok(()));
    for (race, x, y) in [(RaceType::ANT, 50, 50), (RaceType::HUMAN, 15, 15), (RaceType::ALIEN, 85, 85)] {
        assert_eq!(
            map.data[x][y],
            Tile(Some(TerrainType::AIR), None, Some(Buildable::Hearth(Hearth { race_type: race, hp: 100 })))
        );
    }
    assert_eq!(map.data[0][0], Tile(Some(TerrainType::AIR), None, None));
}

#[test]
fn generate_seeds_where_the_noise_says() {
    let mut map = TileMap::new();
    let mut mask = vec![vec![false; HEIGHT]; WIDTH];
    mask[2][3] = true;
    let rules = Automaton::new(MineralType::DIRT, &vec!["AIR".to_string()], true, 0, 0, 0, 0);
    assert_eq!(map.generate(&vec![rules], &vec![mask]), Ok(()));
    assert_eq!(map.data[2][3], Tile(None, Some(Mineral(MineralType::DIRT)), None));
    assert_eq!(map.data[3][2], Tile(Some(TerrainType::AIR), None, None));
}

#[test]
fn set_tile_then_get_tile() {
    let mut map = TileMap::new();
    let rock = Tile(None, Some(Mineral(MineralType::ROCK)), None);
    assert_eq!(map.set_tile(Coords(3, 4), Some(rock)), Ok(rock));
    assert_eq!(map.get_tile(3, 4), Ok((rock, Coords(3, 4))));
    assert_eq!(map.get_tile(4, 3), Ok((Tile(Some(TerrainType::AIR), None, None), Coords(4, 3))));
    // an empty tile reads back too: the cell still lies in the map
    assert_eq!(map.set_tile(Coords(5, 5), Some(Tile(None, None, None))), Ok(Tile(None, None, None)));
    assert_eq!(map.get_tile(5, 5), Ok((Tile(None, None, None), Coords(5, 5))));
    assert!(map.check_data(5, 5));
    assert_eq!(map.set_tile(Coords(5, 5), Some(rock)), Ok(rock));
    assert_eq!(map.set_tile(Coords(3, 4), None), Err(Coords(3, 4)));
    // outside the map there is nothing
    assert!(!map.check_data(100, 0));
    assert_eq!(map.get_tile(0, 100), Err(Coords(0, 100)));
    assert_eq!(map.set_tile(Coords(-1, 0), Some(rock)), Err(Coords(-1, 0)));
}

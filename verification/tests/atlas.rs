use tilepipe::asset::Asset;
use tilepipe::atlas::{grid_size, Atlas, TexturePath};
use tilepipe::resource::Resource;

#[test]
fn atlas_slots_deduplicate() {
    let mut atlas = Atlas::new(8);
    assert_eq!(atlas.add("red"), Some(0));
    assert_eq!(atlas.add("green"), Some(1));
    assert_eq!(atlas.add("blue"), Some(2));
    assert_eq!(atlas.add("red"), Some(0));
    assert_eq!(atlas.add("green"), Some(1));
    assert_eq!(atlas.add("blue"), Some(2));
    assert_eq!(atlas.add("white"), Some(3));
    assert_eq!(atlas.len(), 4);
    assert_eq!(atlas.size(), 8);

    let paths = atlas.into_paths();
    let names: Vec<&str> = paths.iter().map(|p| p.0.as_str()).collect();
    assert_eq!(names, vec!["red", "green", "blue", "white"]);
}

#[test]
fn grid_dimension_is_ceiling_square() {
    assert_eq!(grid_size(0), 0);
    assert_eq!(grid_size(1), 1);
    assert_eq!(grid_size(2), 2);
    assert_eq!(grid_size(4), 2);
    assert_eq!(grid_size(5), 3);
    assert_eq!(grid_size(7), 3);
    assert_eq!(grid_size(9), 3);
    assert_eq!(grid_size(10), 4);
}

#[test]
fn asset_paths_join_under_data_root() {
    assert_eq!(TexturePath::full_path("grass.png"), "assets/textures/grass.png");

    let mut res: Resource<TexturePath> = Resource::new();
    let h = res.load_asset("grass.png").unwrap();
    assert_eq!(res.get(h).unwrap().0, "assets/textures/grass.png");
    assert_eq!(res.load_asset("grass.png").unwrap(), h);
}

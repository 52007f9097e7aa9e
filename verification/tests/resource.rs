use std::rc::Rc;
use tilepipe::load::Load;
use tilepipe::resource::Resource;

#[derive(Debug)]
struct Tile(String);

impl Load for Tile {
    type Error = ();

    type Loader = ();

    fn load(file: &str, _: &mut ()) -> Result<Self, ()> {
        Ok(Tile(file.into()))
    }
}

#[test]
fn resource_load() {
    let mut res: Resource<Tile> = Resource::new();
    res.load("one").unwrap();
    res.load("two").unwrap();
    res.load("two").unwrap();
    res.load("one").unwrap();
    res.load("one").unwrap();
    res.load("three").unwrap();

    assert_eq!(res.get(0).unwrap().0, "one");
    assert_eq!(res.get(1).unwrap().0, "two");
    assert_eq!(res.get(2).unwrap().0, "three");
    assert!(res.get(3).is_none());

    assert_eq!(res.get("one").unwrap().0, "one");
    assert_eq!(res.get("two").unwrap().0, "two");
    assert_eq!(res.get("three").unwrap().0, "three");
    assert!(res.get("four").is_none());

    assert_eq!(res.get("one".to_owned()).unwrap().0, "one");
    assert!(res.get("four".to_owned()).is_none());

    assert_eq!(res.len(), 3);

    let files = ["one", "two", "three"];
    assert!(
        res
            .iter()
            .iter()
            .all(|t| files.contains(&t.0.as_str()))
    );
}

#[derive(Debug)]
struct TileSet {
    tiles: Vec<Rc<Tile>>,
}

impl Load for TileSet {
    type Error = ();

    type Loader = Resource<Rc<Tile>>;

    fn load(file: &str, loader: &mut Self::Loader) -> Result<Self, Self::Error> {
        let tiles = file
            .split_whitespace()
            .map(|s| Rc::clone(loader.receive(s).unwrap()))
            .collect();

        Ok(TileSet { tiles })
    }
}

#[test]
fn resource_load_with() {
    let mut res: Resource<Rc<Tile>> = Resource::new();

    let ts: TileSet = TileSet::load("one two", &mut res).unwrap();
    assert_eq!(res.get(0).unwrap().0, "one");
    assert_eq!(res.get(1).unwrap().0, "two");
    assert!(ts
        .tiles
        .iter()
        .zip(["one", "two"].iter())
        .all(|(a, &b)| a.0.as_str() == b)
    );

    let ts: TileSet = TileSet::load("three one two", &mut res).unwrap();
    assert_eq!(res.get(0).unwrap().0, "one");
    assert_eq!(res.get(1).unwrap().0, "two");
    assert_eq!(res.get(2).unwrap().0, "three");
    assert!(ts
        .tiles
        .iter()
        .zip(["three", "one", "two"].iter())
        .all(|(a, &b)| a.0.as_str() == b)
    );
}

#[test]
fn load_same_path_gives_same_handle() {
    let mut res: Resource<Tile> = Resource::new();
    let first = res.load("a/tile.yml").unwrap();
    let again = res.load("a/tile.yml").unwrap();
    assert_eq!(first, again);
    // the loader runs only for a fresh path, so one entry means one load
    assert_eq!(res.len(), 1);
}

#[test]
fn mutate_in_place() {
    let mut res: Resource<Tile> = Resource::new();
    let h = res.load("name").unwrap();
    res.get_mut(h).unwrap().0.push('!');
    assert_eq!(res.get(h).unwrap().0, "name!");
    assert!(res.get_mut(7usize).is_none());

    for t in res.iter_mut() {
        t.0.push('?');
    }
    assert_eq!(res.get(h).unwrap().0, "name!?");
    res.get_mut("name").unwrap().0.push('.');
    assert_eq!(res.get(h).unwrap().0, "name!?.");
    assert!(res.get_mut("other").is_none());
    res.get_mut("name".to_owned()).unwrap().0.push('.');
    assert_eq!(res.get(h).unwrap().0, "name!?..");
    // the path column is untouched: the same path still answers the handle
    assert_eq!(res.load("name").unwrap(), h);
}

#[test]
fn receive_borrows_loaded_item() {
    let mut res: Resource<Tile> = Resource::new();
    assert_eq!(res.receive("here").unwrap().0, "here");
    assert_eq!(res.receive("here").unwrap().0, "here");
    assert_eq!(res.len(), 1);
}

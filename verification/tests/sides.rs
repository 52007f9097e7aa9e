use tilepipe::sides::{Side, Sides, SidesIterator};

fn sides_of(list: &[Side]) -> Sides {
    let mut s = Sides::empty();
    for side in list {
        s = s.union(Sides::from(*side));
    }
    s
}

#[test]
fn debug() {
    let bdr: Sides = Sides::from(0b101010u8);
    assert_eq!(bdr.to_text(), "[bdr]");

    let ful: Sides = Sides::from(0b010101u8);
    assert_eq!(ful.to_text(), "[ful]");

    let empty = Sides::empty();
    assert_eq!(empty.to_text(), "[]");
}

#[test]
fn contains() {
    let bdr: Sides = Sides::from(0b101010u8);
    assert!(!bdr.contains(Side::Front));
    assert!(bdr.contains(Side::Back));
    assert!(!bdr.contains(Side::Up));
    assert!(bdr.contains(Side::Down));
    assert!(!bdr.contains(Side::Left));
    assert!(bdr.contains(Side::Right));

    let empty = Sides::empty();
    let mut it = Sides::all().into_iter();
    assert!(it.collect().iter().all(|s| !empty.contains(*s)));
}

#[test]
fn bit_ops() {
    let fb = sides_of(&[Side::Front, Side::Back]);
    let bu = sides_of(&[Side::Back, Side::Up]);
    let fbu = fb.union(bu);
    let mut it = fbu.into_iter();
    assert!(it.collect().iter().all(|s| *s == Side::Front || *s == Side::Back || *s == Side::Up));

    let lrd = sides_of(&[Side::Left, Side::Right, Side::Down]);
    let urd = sides_of(&[Side::Up, Side::Right, Side::Down]);
    let rd = lrd.intersect(urd);
    assert_eq!(rd, sides_of(&[Side::Right, Side::Down]));

    let udr = sides_of(&[Side::Up, Side::Down, Side::Right]);
    assert_eq!(udr.complement(), sides_of(&[Side::Front, Side::Back, Side::Left]));
    assert_eq!(
        Sides::from(Side::Up).complement(),
        sides_of(&[Side::Front, Side::Back, Side::Left, Side::Right, Side::Down])
    );
}

#[test]
fn sub() {
    let mut all = Sides::all();
    all = all.minus(Sides::from(Side::Right));
    all = all.minus(Sides::from(Side::Left));
    all = all.minus(Sides::from(Side::Up));

    assert_eq!(all, sides_of(&[Side::Down, Side::Front, Side::Back]));

    let mut empty = Sides::empty();
    empty = empty.minus(Sides::from(Side::Up));
    empty = empty.minus(Sides::from(Side::Right));

    assert_eq!(empty, Sides::empty());

    assert_eq!(Sides::all().minus(Sides::empty()), Sides::all());
    assert_eq!(Sides::empty().minus(Sides::all()), Sides::empty());

    let ud = sides_of(&[Side::Up, Side::Down]);
    let lrfb = Sides::all().minus(ud);
    assert_eq!(lrfb, sides_of(&[Side::Left, Side::Right, Side::Front, Side::Back]));
}

#[test]
fn side_complement_partition() {
    for s in [Side::Front, Side::Back, Side::Up, Side::Down, Side::Left, Side::Right] {
        let single = Sides::from(s);
        assert_eq!(single.union(single.complement()), Sides::all());
        assert_eq!(single.intersect(single.complement()), Sides::empty());
    }
}

#[test]
fn from_text() {
    assert_eq!(Sides::from_text("fb"), sides_of(&[Side::Front, Side::Back]));
    assert_eq!(Sides::from_text("."), Sides::all());
    assert_eq!(Sides::from_text(""), Sides::empty());
    assert_eq!(Sides::from_text("zq"), Sides::empty());
    assert_eq!(Sides::from_text("udlrfb"), Sides::all());
}

#[test]
fn iteration_order() {
    let set = sides_of(&[Side::Right, Side::Front, Side::Down]);
    let mut it = SidesIterator::new(set);
    assert_eq!(it.next(), Some(Side::Front));
    assert_eq!(it.next(), Some(Side::Down));
    assert_eq!(it.next(), Some(Side::Right));
    assert_eq!(it.next(), None);
}

#[test]
fn opposite() {
    assert_eq!(Side::Front.opposite(), Side::Back);
    assert_eq!(Side::Back.opposite().opposite(), Side::Back);
    assert_eq!(Side::Left.opposite(), Side::Right);
}

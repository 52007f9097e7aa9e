use tilepipe::point::Point;
use tilepipe::sides::Side;

#[test]
fn modulo() {
    let p = Point(12, 5, -1);
    assert_eq!(p.modulo(5), Point(2, 0, 4));
}

#[test]
fn to() {
    let p = Point::zero()
        .to_up()
        .to_down()
        .to_front()
        .to_right();

    assert_eq!(p, Point(-1, 0, 1));
    assert_eq!(p, Point::zero().to(Side::Front).to(Side::Right));
}

#[test]
fn from() {
    let p = Point::from(Side::Up);
    assert_eq!(p, Point(0, 1, 0));

    assert_eq!(Point::from(Side::Front), Point::front());
    assert_eq!(Point::from(Side::Back), Point::back());
    assert_eq!(Point::from(Side::Down), Point::down());
    assert_eq!(Point::from(Side::Left), Point::left());
    assert_eq!(Point::from(Side::Right), Point::right());
}

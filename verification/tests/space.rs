use chipmunk::{
    AccessError, Arena, Body, BodyHandle, Scalar, Shape, ShapeHandle, Space, SpaceError, Vect,
};

fn scalar(x: f64) -> Scalar {
    Scalar { bits: x.to_bits() }
}

fn vect(x: f64, y: f64) -> Vect {
    Vect { x: scalar(x), y: scalar(y) }
}

#[test]
fn new_space_is_empty() {
    let mut space = Space::new(7);
    assert_eq!(space.as_ptr(), 7);
    assert_eq!(space.as_mut_ptr(), 7);
    assert_eq!(space.body_count(), 0);
    assert_eq!(space.shape_count(), 0);
    assert!(!space.contains_body(7));
    assert!(!space.contains_shape(7));
}

#[test]
fn add_then_remove_leaves_the_count_unchanged() {
    let mut bodies: Arena<Body> = Arena::new();
    let mut space = Space::new(1);
    let mut other = BodyHandle::new(&mut bodies, 50);
    assert_eq!(space.add_body(&mut bodies, &mut other), Ok(50));
    let before = space.body_count();

    let mut ball = BodyHandle::new(&mut bodies, 100);
    let mut twin = ball.clone(&mut bodies).unwrap();
    assert_eq!(space.add_body(&mut bodies, &mut ball), Ok(100));
    assert_eq!(space.body_count(), before + 1);
    assert_eq!(ball.strong_count(&bodies), 3);
    let removal = space.remove_body(&mut bodies, &mut twin).unwrap();
    assert_eq!(removal.native, 100);
    assert!(removal.was_member);
    assert_eq!(removal.destroyed, None);
    assert_eq!(space.body_count(), before);
    assert!(space.contains_body(50));
    assert!(!space.contains_body(100));
    assert_eq!(ball.strong_count(&bodies), 2);
}

#[test]
fn add_then_remove_shape_leaves_the_count_unchanged() {
    let mut bodies: Arena<Body> = Arena::new();
    let mut shapes: Arena<Shape> = Arena::new();
    let mut space = Space::new(1);
    let mut ball = BodyHandle::new(&mut bodies, 100);
    let mut shape =
        ShapeHandle::new_circle(&mut shapes, &mut bodies, &mut ball, 200, scalar(1.0), vect(0.0, 0.0))
            .unwrap();
    let mut twin = shape.clone(&mut shapes).unwrap();
    assert_eq!(space.add_shape(&mut shapes, &mut shape), Ok(200));
    assert_eq!(space.shape_count(), 1);
    assert!(space.contains_shape(200));
    let removal = space.remove_shape(&mut shapes, &mut twin).unwrap();
    assert_eq!(removal.native, 200);
    assert!(removal.was_member);
    assert!(removal.destroyed.is_none());
    assert_eq!(space.shape_count(), 0);
    assert_eq!(space.body_count(), 0);
    assert_eq!(shape.strong_count(&shapes), 2);
}

#[test]
fn a_member_is_not_added_twice() {
    let mut bodies: Arena<Body> = Arena::new();
    let mut shapes: Arena<Shape> = Arena::new();
    let mut space = Space::new(1);
    let mut ball = BodyHandle::new(&mut bodies, 100);
    let mut twin = ball.clone(&mut bodies).unwrap();
    let mut shape =
        ShapeHandle::new_circle(&mut shapes, &mut bodies, &mut ball, 200, scalar(1.0), vect(0.0, 0.0))
            .unwrap();
    assert_eq!(space.add_body(&mut bodies, &mut ball), Ok(100));
    assert_eq!(space.add_body(&mut bodies, &mut ball), Err(SpaceError::AlreadyAttached));
    assert_eq!(space.add_body(&mut bodies, &mut twin), Err(SpaceError::AlreadyAttached));
    assert_eq!(space.body_count(), 1);
    assert_eq!(ball.strong_count(&bodies), 3);
    assert_eq!(space.add_shape(&mut shapes, &mut shape), Ok(200));
    assert_eq!(space.add_shape(&mut shapes, &mut shape), Err(SpaceError::AlreadyAttached));
    assert_eq!(space.shape_count(), 1);
    assert_eq!(shape.strong_count(&shapes), 2);
}

#[test]
fn removing_a_stranger_changes_no_member() {
    let mut bodies: Arena<Body> = Arena::new();
    let mut shapes: Arena<Shape> = Arena::new();
    let mut space = Space::new(1);
    let mut member = BodyHandle::new(&mut bodies, 100);
    let mut stranger = BodyHandle::new(&mut bodies, 101);
    let mut shape =
        ShapeHandle::new_circle(&mut shapes, &mut bodies, &mut member, 200, scalar(1.0), vect(0.0, 0.0))
            .unwrap();
    assert_eq!(space.add_body(&mut bodies, &mut member), Ok(100));
    let removal = space.remove_body(&mut bodies, &mut stranger).unwrap();
    assert_eq!(removal.native, 101);
    assert!(!removal.was_member);
    assert_eq!(removal.destroyed, None);
    assert_eq!(space.body_count(), 1);
    assert_eq!(stranger.strong_count(&bodies), 1);
    assert_eq!(member.strong_count(&bodies), 2);
    let removal = space.remove_shape(&mut shapes, &mut shape).unwrap();
    assert_eq!(removal.native, 200);
    assert!(!removal.was_member);
    assert!(removal.destroyed.is_none());
}

#[test]
fn members_keep_their_order() {
    let mut bodies: Arena<Body> = Arena::new();
    let mut space = Space::new(1);
    let mut a = BodyHandle::new(&mut bodies, 10);
    let mut b = BodyHandle::new(&mut bodies, 20);
    let mut c = BodyHandle::new(&mut bodies, 30);
    assert_eq!(space.add_body(&mut bodies, &mut a), Ok(10));
    assert_eq!(space.add_body(&mut bodies, &mut b), Ok(20));
    assert_eq!(space.add_body(&mut bodies, &mut c), Ok(30));
    assert!(space.remove_body(&mut bodies, &mut b).unwrap().was_member);
    assert_eq!(space.body_count(), 2);
    assert!(space.contains_body(10));
    assert!(!space.contains_body(20));
    assert!(space.contains_body(30));
    assert_eq!(space.add_body(&mut bodies, &mut b), Ok(20));
    assert_eq!(space.body_count(), 3);
    assert_eq!(a.release(&mut bodies), None);
    assert_eq!(b.release(&mut bodies), None);
    assert_eq!(c.release(&mut bodies), None);
    let mut shapes: Arena<Shape> = Arena::new();
    let remains = space.destroy(&mut bodies, &mut shapes);
    assert_eq!(remains.bodies, vec![Body::new(20), Body::new(30), Body::new(10)]);
    assert!(remains.shapes.is_empty());
}

#[test]
fn a_busy_body_is_not_added_or_removed() {
    let mut bodies: Arena<Body> = Arena::new();
    let mut space = Space::new(1);
    let mut ball = BodyHandle::new(&mut bodies, 100);
    let reader = ball.borrow(&mut bodies).unwrap();
    assert_eq!(space.add_body(&mut bodies, &mut ball), Err(SpaceError::Access(AccessError::Busy)));
    assert_eq!(space.body_count(), 0);
    reader.end(&mut bodies);
    assert_eq!(space.add_body(&mut bodies, &mut ball), Ok(100));
    let writer = ball.borrow_mut(&mut bodies).unwrap();
    assert_eq!(
        space.remove_body(&mut bodies, &mut ball).unwrap_err(),
        SpaceError::Access(AccessError::Busy)
    );
    assert_eq!(space.body_count(), 1);
    writer.abandon(&mut bodies);
    assert_eq!(
        space.remove_body(&mut bodies, &mut ball).unwrap_err(),
        SpaceError::Access(AccessError::Poisoned)
    );
    assert_eq!(space.body_count(), 1);
    assert_eq!(ball.strong_count(&bodies), 2);
}

#[test]
fn a_body_that_is_gone_is_not_added() {
    let mut bodies: Arena<Body> = Arena::new();
    let mut elsewhere: Arena<Body> = Arena::new();
    let mut space = Space::new(1);
    let mut ball = BodyHandle::new(&mut bodies, 100);
    assert_eq!(
        space.add_body(&mut elsewhere, &mut ball),
        Err(SpaceError::Access(AccessError::Gone))
    );
    assert_eq!(
        space.remove_body(&mut elsewhere, &mut ball).unwrap_err(),
        SpaceError::Access(AccessError::Gone)
    );
    assert_eq!(space.body_count(), 0);
}

#[test]
fn the_space_keeps_its_floor_alive() {
    let mut bodies: Arena<Body> = Arena::new();
    let mut shapes: Arena<Shape> = Arena::new();
    let mut space = Space::new(1);
    let mut floor_body = BodyHandle::new_static(&mut bodies, 100);
    let mut floor_shape = {
        let mut s = Shape::new_segment(
            &mut bodies,
            &mut floor_body,
            200,
            vect(-10.0, 0.0),
            vect(10.0, 0.0),
            scalar(0.0),
        )
        .unwrap();
        assert_eq!(s.set_elasticity(scalar(0.6)), Ok(()));
        ShapeHandle::wrap(&mut shapes, s)
    };
    assert_eq!(space.add_body(&mut bodies, &mut floor_body), Ok(100));
    assert_eq!(space.add_shape(&mut shapes, &mut floor_shape), Ok(200));
    let weak = floor_body.downgrade();
    assert_eq!(floor_body.release(&mut bodies), None);
    assert!(weak.is_alive(&bodies));
    assert!(space.contains_body(100));
    assert_eq!(space.body_count(), 1);

    let view = floor_shape.borrow(&mut shapes).unwrap();
    let owner = view.get(&shapes).unwrap().body(&mut bodies);
    assert!(owner.is_some());
    assert_eq!(view.get(&shapes).unwrap().elasticity(), scalar(0.6));
    view.end(&mut shapes);
    let mut owner = owner.unwrap();
    assert_eq!(owner.write_native(&mut bodies), Ok(100));
    assert_eq!(space.reindex_shapes_for_body(&mut bodies, &mut owner), Ok(100));
    assert_eq!(space.reindex_shape(&mut shapes, &mut floor_shape), Ok(200));
    assert_eq!(owner.release(&mut bodies), None);
    assert!(weak.is_alive(&bodies));
}

#[test]
fn a_ball_and_its_shape_join_a_space() {
    let mut bodies: Arena<Body> = Arena::new();
    let mut shapes: Arena<Shape> = Arena::new();
    let mut space = Space::new(1);
    let mut ball_body = BodyHandle::new(&mut bodies, 100);
    let mut ball_shape = {
        let mut s =
            Shape::new_circle(&mut bodies, &mut ball_body, 200, scalar(1.0), vect(0.0, 0.0)).unwrap();
        assert_eq!(s.set_mass(&mut bodies, scalar(10.0)), Ok(100));
        assert_eq!(s.set_elasticity(scalar(0.9)), Ok(()));
        ShapeHandle::wrap(&mut shapes, s)
    };
    assert_eq!(space.add_body(&mut bodies, &mut ball_body), Ok(100));
    assert_eq!(space.add_shape(&mut shapes, &mut ball_shape), Ok(200));
    assert_eq!(space.body_count(), 1);
    assert_eq!(space.shape_count(), 1);
    let view = ball_body.borrow(&mut bodies).unwrap();
    assert_eq!(view.get(&bodies).unwrap().as_ptr(), 100);
    view.end(&mut bodies);
}

#[test]
fn removal_brings_out_what_nobody_else_holds() {
    let mut bodies: Arena<Body> = Arena::new();
    let mut space = Space::new(1);
    let mut ball = BodyHandle::new(&mut bodies, 100);
    let mut same = BodyHandle::new(&mut bodies, 100);
    assert_eq!(space.add_body(&mut bodies, &mut ball), Ok(100));
    let weak = ball.downgrade();
    assert_eq!(ball.release(&mut bodies), None);
    let removal = space.remove_body(&mut bodies, &mut same).unwrap();
    assert!(removal.was_member);
    assert_eq!(removal.destroyed, Some(Body::new(100)));
    assert!(!weak.is_alive(&bodies));
    assert_eq!(same.strong_count(&bodies), 1);
    assert_eq!(space.body_count(), 0);
}

#[test]
fn destroy_gives_up_every_member() {
    let mut bodies: Arena<Body> = Arena::new();
    let mut shapes: Arena<Shape> = Arena::new();
    let mut space = Space::new(1);
    let mut kept = BodyHandle::new(&mut bodies, 10);
    let mut dropped = BodyHandle::new_static(&mut bodies, 20);
    let mut kept_shape =
        ShapeHandle::new_circle(&mut shapes, &mut bodies, &mut kept, 30, scalar(1.0), vect(0.0, 0.0))
            .unwrap();
    let mut dropped_shape =
        ShapeHandle::new_circle(&mut shapes, &mut bodies, &mut dropped, 40, scalar(1.0), vect(0.0, 0.0))
            .unwrap();
    assert_eq!(space.add_body(&mut bodies, &mut kept), Ok(10));
    assert_eq!(space.add_body(&mut bodies, &mut dropped), Ok(20));
    assert_eq!(space.add_shape(&mut shapes, &mut kept_shape), Ok(30));
    assert_eq!(space.add_shape(&mut shapes, &mut dropped_shape), Ok(40));
    assert_eq!(dropped.release(&mut bodies), None);
    assert!(dropped_shape.release(&mut shapes).is_none());
    let remains = space.destroy(&mut bodies, &mut shapes);
    assert_eq!(remains.bodies, vec![Body::new_static(20)]);
    assert_eq!(remains.shapes.len(), 1);
    assert_eq!(remains.shapes[0].as_ptr(), 40);
    assert_eq!(kept.strong_count(&bodies), 1);
    assert_eq!(kept_shape.strong_count(&shapes), 1);
    assert_eq!(kept.release(&mut bodies), Some(Body::new(10)));
}

#[test]
fn reindex_asks_for_write_access() {
    let mut bodies: Arena<Body> = Arena::new();
    let mut shapes: Arena<Shape> = Arena::new();
    let mut space = Space::new(1);
    let mut body = BodyHandle::new_static(&mut bodies, 10);
    let mut shape =
        ShapeHandle::new_circle(&mut shapes, &mut bodies, &mut body, 30, scalar(1.0), vect(0.0, 0.0))
            .unwrap();
    assert_eq!(space.reindex_shape(&mut shapes, &mut shape), Ok(30));
    assert_eq!(space.reindex_shapes_for_body(&mut bodies, &mut body), Ok(10));
    let reader = shape.borrow(&mut shapes).unwrap();
    assert_eq!(
        space.reindex_shape(&mut shapes, &mut shape),
        Err(SpaceError::Access(AccessError::Busy))
    );
    reader.end(&mut shapes);
    let writer = body.borrow_mut(&mut bodies).unwrap();
    assert_eq!(
        space.reindex_shapes_for_body(&mut bodies, &mut body),
        Err(SpaceError::Access(AccessError::Busy))
    );
    writer.end(&mut bodies);
    assert_eq!(space.body_count(), 0);
}

use path_mesh::error::GeometryError;
use path_mesh::flatten::Curve;
use path_mesh::path::{Path, PathBuilder, PathCommand};

fn square() -> Path<(i32, i32)> {
    let mut b: PathBuilder<(i32, i32)> = Path::builder();
    b.begin((0, 0)).unwrap();
    b.line_to((1, 0)).unwrap();
    b.line_to((1, 1)).unwrap();
    b.line_to((0, 1)).unwrap();
    b.end(true).unwrap();
    b.build().unwrap()
}

#[test]
fn builder_records_commands_in_order() {
    let path = square();
    assert_eq!(
        path.commands().clone(),
        vec![
            PathCommand::Begin((0, 0)),
            PathCommand::LineTo((1, 0)),
            PathCommand::LineTo((1, 1)),
            PathCommand::LineTo((0, 1)),
            PathCommand::End(true),
        ]
    );
    assert_eq!(path.num_sub_paths(), 1);
    assert!(!path.is_empty());
}

#[test]
fn begin_while_open_is_rejected() {
    let mut b: PathBuilder<(i32, i32)> = Path::builder();
    b.begin((0, 0)).unwrap();
    assert_eq!(b.begin((5, 5)), Err(GeometryError::InvalidPathState));
    b.line_to((1, 1)).unwrap();
    b.close().unwrap();
    let path = b.build().unwrap();
    assert_eq!(path.commands().len(), 3);
}

#[test]
fn segments_without_open_sub_path_are_rejected() {
    let mut b: PathBuilder<(i32, i32)> = Path::builder();
    assert_eq!(b.line_to((1, 0)), Err(GeometryError::InvalidPathState));
    assert_eq!(b.quadratic_to((1, 0), (2, 0)), Err(GeometryError::InvalidPathState));
    assert_eq!(b.cubic_to((1, 0), (2, 0), (3, 0)), Err(GeometryError::InvalidPathState));
    assert_eq!(b.end(false), Err(GeometryError::InvalidPathState));
    assert_eq!(b.close(), Err(GeometryError::InvalidPathState));
    b.begin((0, 0)).unwrap();
    b.end(false).unwrap();
    assert_eq!(b.line_to((1, 0)), Err(GeometryError::InvalidPathState));
    assert!(!b.is_open());
}

#[test]
fn build_with_open_sub_path_is_rejected() {
    let mut b: PathBuilder<(i32, i32)> = Path::builder();
    b.begin((0, 0)).unwrap();
    b.line_to((1, 0)).unwrap();
    assert!(b.is_open());
    assert!(matches!(b.build(), Err(GeometryError::InvalidPathState)));
}

#[test]
fn empty_builder_gives_empty_path() {
    let b: PathBuilder<(i32, i32)> = Path::builder();
    let path = b.build().unwrap();
    assert!(path.is_empty());
    assert_eq!(path.num_sub_paths(), 0);
}

#[test]
fn counts_several_sub_paths() {
    let mut b: PathBuilder<(i32, i32)> = Path::builder();
    b.begin((0, 0)).unwrap();
    b.line_to((1, 0)).unwrap();
    b.quadratic_to((2, 0), (2, 1)).unwrap();
    b.end(false).unwrap();
    b.begin((10, 0)).unwrap();
    b.cubic_to((12, 2), (11, 2), (5, 0)).unwrap();
    b.close().unwrap();
    let path = b.build().unwrap();
    assert_eq!(path.num_sub_paths(), 2);
    assert_eq!(path.commands().len(), 7);
}

#[test]
fn flattening_straight_path_keeps_every_point() {
    let path = square();
    let flat = path.flattened(|_c: Curve<(i32, i32)>| -> Vec<(i32, i32)> {
        vec![(99, 99), (98, 98)]
    });
    assert_eq!(flat.commands().clone(), path.commands().clone());
}

#[test]
fn flattening_replaces_curves_with_chosen_points() {
    let mut b: PathBuilder<(i32, i32)> = Path::builder();
    b.begin((0, 0)).unwrap();
    b.line_to((1, 0)).unwrap();
    b.quadratic_to((2, 0), (2, 1)).unwrap();
    b.end(false).unwrap();
    b.begin((10, 0)).unwrap();
    b.cubic_to((12, 2), (11, 2), (5, 0)).unwrap();
    b.close().unwrap();
    let path = b.build().unwrap();
    let flat = path.flattened(|c: Curve<(i32, i32)>| -> Vec<(i32, i32)> {
        match c {
            Curve::Quadratic { from, ctrl, .. } => vec![from, ctrl],
            Curve::Cubic { from, .. } => vec![(from.0 + 100, from.1)],
        }
    });
    assert_eq!(
        flat.commands().clone(),
        vec![
            PathCommand::Begin((0, 0)),
            PathCommand::LineTo((1, 0)),
            PathCommand::LineTo((1, 0)),
            PathCommand::LineTo((2, 0)),
            PathCommand::LineTo((2, 1)),
            PathCommand::End(false),
            PathCommand::Begin((10, 0)),
            PathCommand::LineTo((110, 0)),
            PathCommand::LineTo((5, 0)),
            PathCommand::End(true),
        ]
    );
    assert_eq!(flat.num_sub_paths(), 2);
}

#[test]
fn flattening_with_no_interior_points_keeps_end_points() {
    let mut b: PathBuilder<(i32, i32)> = Path::builder();
    b.begin((0, 0)).unwrap();
    b.cubic_to((1, 1), (2, 1), (3, 0)).unwrap();
    b.end(true).unwrap();
    let path = b.build().unwrap();
    let flat = path.flattened(|_c: Curve<(i32, i32)>| -> Vec<(i32, i32)> { Vec::new() });
    assert_eq!(
        flat.commands().clone(),
        vec![PathCommand::Begin((0, 0)), PathCommand::LineTo((3, 0)), PathCommand::End(true)]
    );
}

use graphics::tangent::{incident_triangles, triangles, GeometryError};

#[test]
fn single_triangle_each_vertex_averages_one_basis() {
    let tris = triangles(&vec![0, 1, 2], 3).unwrap();
    assert_eq!(tris, vec![(0, 1, 2)]);
    let inc = incident_triangles(&tris, 3);
    assert_eq!(inc, vec![vec![0], vec![0], vec![0]]);
}

#[test]
fn shared_vertex_lists_every_incident_triangle() {
    // a fan of three triangles around vertex 0
    let tris = triangles(&vec![0, 1, 2, 0, 2, 3, 0, 3, 4], 6).unwrap();
    assert_eq!(tris, vec![(0, 1, 2), (0, 2, 3), (0, 3, 4)]);
    let inc = incident_triangles(&tris, 6);
    assert_eq!(inc[0], vec![0, 1, 2]);
    assert_eq!(inc[1], vec![0]);
    assert_eq!(inc[2], vec![0, 1]);
    assert_eq!(inc[3], vec![1, 2]);
    assert_eq!(inc[4], vec![2]);
    // vertex 5 is used by no triangle: its basis stays zero
    assert!(inc[5].is_empty());
}

#[test]
fn repeated_corner_counts_twice() {
    let tris = triangles(&vec![1, 1, 0], 2).unwrap();
    let inc = incident_triangles(&tris, 2);
    assert_eq!(inc, vec![vec![0], vec![0, 0]]);
}

#[test]
fn incomplete_triangle_is_refused() {
    assert_eq!(
        triangles(&vec![0, 1, 2, 0], 3),
        Err(GeometryError::IncompleteTriangle { index_count: 4 })
    );
    // the length is checked before the indices
    assert_eq!(
        triangles(&vec![7, 1], 3),
        Err(GeometryError::IncompleteTriangle { index_count: 2 })
    );
}

#[test]
fn first_out_of_range_index_is_reported() {
    assert_eq!(
        triangles(&vec![0, 1, 2, 2, 3, 9], 3),
        Err(GeometryError::IndexOutOfRange { position: 4, index: 3 })
    );
}

#[test]
fn empty_index_list_has_no_triangles() {
    let tris = triangles(&vec![], 4).unwrap();
    assert!(tris.is_empty());
    let inc = incident_triangles(&tris, 4);
    assert_eq!(inc.len(), 4);
    assert!(inc.iter().all(|l| l.is_empty()));
}

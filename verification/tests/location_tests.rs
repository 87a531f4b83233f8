use civicconnect::error::ApiError;
use civicconnect::location::{get_neighbors, is_valid_cell, nearby_search};
use civicconnect::types::NearbyQuery;

#[test]
fn test_valid_cell_format() {
    // Valid H3 index (resolution 7)
    assert!(is_valid_cell("872830828ffffff"));

    // Invalid - wrong length
    assert!(!is_valid_cell("123456"));

    // Invalid - not hex
    assert!(!is_valid_cell("zzzzzzzzzzzzzzzz"));
}

#[test]
fn test_cell_of_other_resolution_rejected() {
    // A well-formed cell at a finer resolution than the deployment's.
    let fine = h3o::LatLng::new(40.7, -74.0)
        .unwrap()
        .to_cell(h3o::Resolution::Nine)
        .to_string();
    assert!(!is_valid_cell(&fine));
    assert!(matches!(get_neighbors(&fine, 1), Err(ApiError::InvalidInput(_))));
}

#[test]
fn test_get_neighbors() {
    let cell = "872830828ffffff";

    // Ring 0 should just return the cell
    let ring0 = get_neighbors(cell, 0).unwrap();
    assert_eq!(ring0.len(), 1);
    assert_eq!(ring0[0], cell);

    // Ring 1 should return 7 cells (center + 6 neighbors)
    let ring1 = get_neighbors(cell, 1).unwrap();
    assert_eq!(ring1.len(), 7);
    assert!(ring1.contains(&cell.to_string()));
}

#[test]
fn test_neighbors_center_first_and_distinct() {
    let cell = "872830828ffffff";
    let ring2 = get_neighbors(cell, 2).unwrap();

    assert_eq!(ring2.len(), 19);
    assert_eq!(ring2[0], cell);
    for i in 0..ring2.len() {
        assert!(is_valid_cell(&ring2[i]));
        for j in (i + 1)..ring2.len() {
            assert_ne!(ring2[i], ring2[j]);
        }
    }
}

#[test]
fn test_neighbors_rings_clamped() {
    let cell = "872830828ffffff";
    // Ring counts above 2 are clamped to 2.
    assert_eq!(
        get_neighbors(cell, 9).unwrap().len(),
        get_neighbors(cell, 2).unwrap().len()
    );
}

#[test]
fn test_neighbors_of_malformed_cell() {
    // Malformed input fails fast with a structured error, never silently.
    assert!(matches!(get_neighbors("not-a-cell", 2), Err(ApiError::InvalidInput(_))));
    assert!(matches!(get_neighbors("123456", 1), Err(ApiError::InvalidInput(_))));
}

#[test]
fn test_pentagon_one_ring_has_six_cells() {
    // A pentagon cell has five neighbors, so its one-ring disk holds six.
    let pentagon = h3o::CellIndex::base_cells()
        .find(|c| c.is_pentagon())
        .unwrap()
        .center_child(h3o::Resolution::Seven)
        .unwrap()
        .to_string();
    assert!(is_valid_cell(&pentagon));
    assert_eq!(get_neighbors(&pentagon, 1).unwrap().len(), 6);
}

#[test]
fn test_nearby_search_valid_cell() {
    let query = NearbyQuery {
        cell: "872830828ffffff".to_string(),
        rings: 1,
        upcoming_only: true,
    };
    let resp = nearby_search(&query).unwrap();
    assert_eq!(resp.total_count, 0);
    assert!(resp.events.is_empty());
    assert_eq!(resp.cells_searched.len(), 7);
    assert_eq!(resp.cells_searched[0], "872830828ffffff");
}

#[test]
fn test_nearby_search_malformed_cell() {
    let query = NearbyQuery {
        cell: "123456".to_string(),
        rings: 1,
        upcoming_only: true,
    };
    assert!(matches!(nearby_search(&query), Err(ApiError::InvalidInput(_))));
}

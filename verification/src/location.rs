//! Spatial Index Adapter: cell validation and neighbor-ring expansion over
//! a hexagonal global grid at one fixed resolution.
//!
//! A cell id is the 15-character lowercase hex encoding of a valid cell
//! index at the deployment's fixed resolution. The grid arithmetic itself
//! is the grid crate's; every call into it stands behind a trusted
//! wrapper, and the ring logic around the calls is verified. Malformed
//! input fails fast with a structured error, never silently.

use vstd::prelude::*;
use vstd::seq_lib::*;

use crate::error::ApiError;
use crate::types::{NearbyQuery, NearbyResponse};

verus! {

/// Length of a well-formed cell id in characters.
pub const LOCATION_CELL_LEN: usize = 15;

/// The deployment's fixed grid resolution (hexagons of about 5 km).
pub const LOCATION_RESOLUTION: u64 = 7;

/// The cell index a string parses to, if any; the outcome of
/// `h3o::CellIndex::from_str`, deterministic in the string.
pub uninterp spec fn parsed_cell_of(s: Seq<char>) -> Option<u64>;

/// Whether a 64-bit value is a valid cell index; the outcome of
/// `h3o::CellIndex::try_from`.
pub uninterp spec fn is_cell_value(c: u64) -> bool;

/// The canonical string rendering of a valid cell index.
pub uninterp spec fn cell_str_of(c: u64) -> Seq<char>;

/// The set of cells within grid distance `k` of a cell, the cell itself
/// among them; what `h3o::CellIndex::grid_disk` produces.
pub uninterp spec fn disk_of(c: u64, k: int) -> Set<u64>;

/// Whether a cell is one of the grid's twelve pentagons per resolution;
/// the outcome of `h3o::CellIndex::is_pentagon`.
pub uninterp spec fn is_pentagon(c: u64) -> bool;

/// The resolution encoded in a cell index: bits 52 to 55.
pub open spec fn spec_cell_resolution(c: u64) -> u64 {
    (c >> 52u64) & 0xf
}

/// A valid cell id: 15 characters that parse to exactly one cell at the
/// deployment's fixed resolution.
pub open spec fn spec_valid_cell(s: Seq<char>) -> bool {
    &&& s.len() == 15
    &&& parsed_cell_of(s) matches Some(c) && spec_cell_resolution(c) == LOCATION_RESOLUTION
}

/// Ring counts are clamped to at most 2.
pub open spec fn spec_clamped_rings(rings: u32) -> int {
    if rings <= 2 {
        rings as int
    } else {
        2
    }
}

/// Relies on `str::parse::<h3o::CellIndex>`: deterministic in the string;
/// `Some` only for a hex encoding of a valid cell index.
#[verifier::external_body]
pub(crate) fn parse_cell(s: &str) -> (r: Option<u64>)
    ensures
        r == parsed_cell_of(s@),
        r matches Some(c) ==> is_cell_value(c),
{
    s.parse::<h3o::CellIndex>().ok().map(u64::from)
}

/// Relies on `h3o::CellIndex::to_string` (`Display`, lowercase hex): 15
/// digits for any valid cell index, parsing back to the same index.
#[verifier::external_body]
fn cell_to_string(c: u64) -> (r: String)
    requires
        is_cell_value(c),
    ensures
        r@ == cell_str_of(c),
        r@.len() == 15,
        parsed_cell_of(r@) == Some(c),
{
    h3o::CellIndex::try_from(c).unwrap().to_string()
}

/// Relies on `h3o::CellIndex::grid_disk`: every cell within grid distance
/// `k` of the origin, each exactly once, the origin among them; the origin
/// alone for distance 0. The one-ring disk holds 7 cells around a hexagon
/// and 6 around a pentagon (which has five neighbors); a two-ring disk
/// free of pentagons holds the full 1 + 6 + 12 cells.
#[verifier::external_body]
pub(crate) fn grid_disk_cells(c: u64, k: u32) -> (r: Vec<u64>)
    requires
        is_cell_value(c),
        k <= 2,
    ensures
        r@.no_duplicates(),
        r@.contains(c),
        forall|i: int|
            0 <= i < r@.len() ==> is_cell_value(#[trigger] r@[i]) && disk_of(c, k as int).contains(
                r@[i],
            ),
        forall|d: u64| #[trigger] disk_of(c, k as int).contains(d) ==> r@.contains(d),
        k == 0 ==> r@.len() == 1,
        k == 1 ==> r@.len() == (if is_pentagon(c) {
            6int
        } else {
            7int
        }),
        (k == 2 && (forall|d: u64|
            #[trigger] disk_of(c, 2).contains(d) ==> !is_pentagon(d))) ==> r@.len() == 19,
{
    let cell = h3o::CellIndex::try_from(c).unwrap();
    cell.grid_disk::<Vec<_>>(k).into_iter().map(u64::from).collect()
}

/// Whether a string is a well-formed cell id: 15 characters encoding
/// exactly one cell at the deployment's fixed resolution.
pub fn is_valid_cell(cell_str: &str) -> (r: bool)
    ensures
        r == spec_valid_cell(cell_str@),
{
    if cell_str.unicode_len() != LOCATION_CELL_LEN {
        return false;
    }
    match parse_cell(cell_str) {
        Some(c) => (c >> 52u64) & 0xf == LOCATION_RESOLUTION,
        None => false,
    }
}

/// The cells within `rings` rings (clamped to 2) of a cell, the given
/// cell first, each exactly once; a malformed cell id is rejected with a
/// structured error before any work.
#[verifier::loop_isolation(false)]
pub fn get_neighbors(cell_str: &str, rings: u32) -> (r: Result<Vec<String>, ApiError>)
    ensures
        r is Ok <==> spec_valid_cell(cell_str@),
        (r matches Err(e) ==> e matches ApiError::InvalidInput(_)),
        r matches Ok(v) ==> (parsed_cell_of(cell_str@) matches Some(c) && {
            let k = spec_clamped_rings(rings);
            &&& v@.len() >= 1
            &&& v@[0]@ == cell_str@
            &&& forall|i: int|
                0 <= i < v@.len() ==> parsed_cell_of(#[trigger] v@[i]@) is Some && disk_of(
                    c,
                    k,
                ).contains(parsed_cell_of(v@[i]@).unwrap())
            &&& forall|i: int, j: int|
                0 <= i < j < v@.len() ==> parsed_cell_of(#[trigger] v@[i]@) != parsed_cell_of(
                    #[trigger] v@[j]@,
                )
            &&& forall|i: int, j: int| 0 <= i < j < v@.len() ==> v@[i]@ != v@[j]@
            &&& forall|d: u64| #[trigger]
                disk_of(c, k).contains(d) ==> exists|i: int|
                    0 <= i < v@.len() && parsed_cell_of(#[trigger] v@[i]@) == Some(d)
            &&& rings == 0 ==> v@.len() == 1
            &&& k == 1 ==> v@.len() == (if is_pentagon(c) {
                6int
            } else {
                7int
            })
            &&& (k == 2 && (forall|d: u64|
                #[trigger] disk_of(c, 2).contains(d) ==> !is_pentagon(d))) ==> v@.len() == 19
        }),
{
    if !is_valid_cell(cell_str) {
        return Err(ApiError::InvalidInput(String::from_str("malformed location cell")));
    }
    let mut out: Vec<String> = Vec::new();
    out.push(cell_str.to_owned());
    let c = match parse_cell(cell_str) {
        Some(c) => c,
        None => {
            return Err(ApiError::InvalidInput(String::from_str("malformed location cell")));
        },
    };
    let k: u32 = if rings <= 2 {
        rings
    } else {
        2
    };
    let cells = grid_disk_cells(c, k);
    let ghost all: Seq<u64> = cells@;
    let ghost mut vals: Seq<u64> = seq![c];
    let ghost mut seen_center: bool = false;
    let mut j: usize = 0;
    while j < cells.len()
        invariant
            0 <= j <= all.len(),
            out@.len() == vals.len(),
            vals.len() >= 1,
            vals[0] == c,
            out@[0]@ == cell_str@,
            forall|m: int|
                0 <= m < out@.len() ==> parsed_cell_of(#[trigger] out@[m]@) == Some(vals[m]),
            forall|m: int| 1 <= m < vals.len() ==> #[trigger] vals[m] != c,
            forall|m: int|
                1 <= m < vals.len() ==> exists|jj: int| 0 <= jj < j && #[trigger] vals[m] == all[jj],
            vals.no_duplicates(),
            forall|jj: int| 0 <= jj < j ==> all[jj] == c || vals.contains(#[trigger] all[jj]),
            seen_center == exists|jj: int| 0 <= jj < j && #[trigger] all[jj] == c,
            out@.len() == j + (if seen_center {
                0int
            } else {
                1int
            }),
        decreases all.len() - j,
    {
        let x = cells[j];
        if x != c {
            let s = cell_to_string(x);
            out.push(s);
            proof {
                assert forall|m: int| 0 <= m < vals.len() implies #[trigger] vals[m] != x by {
                    if m >= 1 {
                        let jj = choose|jj: int| 0 <= jj < j && vals[m] == all[jj];
                        assert(all[jj] != all[j as int]);
                    }
                }
                let ghost prev = vals;
                vals = vals.push(x);
                assert(vals.no_duplicates());
                assert(vals.contains(x)) by {
                    assert(vals[vals.len() - 1] == x);
                }
                assert forall|y: u64| prev.contains(y) implies vals.contains(y) by {
                    let m = choose|m: int| 0 <= m < prev.len() && prev[m] == y;
                    assert(vals[m] == y);
                }
            }
        } else {
            proof {
                assert(vals.contains(all[j as int])) by {
                    assert(vals[0] == c);
                }
                if seen_center {
                    let jj = choose|jj: int| 0 <= jj < j && all[jj] == c;
                    assert(all[jj] == all[j as int]);
                    assert(false);
                }
                seen_center = true;
                assert(all[j as int] == c);
            }
        }
        j = j + 1;
    }
    proof {
        assert(all.contains(c));
        assert(seen_center) by {
            let jc = choose|jc: int| 0 <= jc < all.len() && all[jc] == c;
            assert(all[jc] == c);
        }
        assert(out@.len() == all.len());
        assert(disk_of(c, k as int).contains(c)) by {
            assert(all.contains(c));
        }
        assert forall|m: int| 0 <= m < vals.len() implies disk_of(c, k as int).contains(
            #[trigger] vals[m],
        ) by {
            if m >= 1 {
                let jj = choose|jj: int| 0 <= jj < j && vals[m] == all[jj];
                assert(disk_of(c, k as int).contains(all[jj]));
            }
        }
        assert forall|d: u64| #[trigger] disk_of(c, k as int).contains(d) implies exists|i: int|
            0 <= i < out@.len() && parsed_cell_of(#[trigger] out@[i]@) == Some(d) by {
            assert(all.contains(d));
            let jj = choose|jj: int| 0 <= jj < all.len() && all[jj] == d;
            if d == c {
                assert(parsed_cell_of(out@[0]@) == Some(d));
            } else {
                assert(vals.contains(d));
                let m = choose|m: int| 0 <= m < vals.len() && vals[m] == d;
                assert(parsed_cell_of(out@[m]@) == Some(d));
            }
        }
        assert forall|i1: int, i2: int| 0 <= i1 < i2 < out@.len() implies out@[i1]@ != out@[i2]@ by {
            assert(parsed_cell_of(out@[i1]@) == Some(vals[i1]));
            assert(parsed_cell_of(out@[i2]@) == Some(vals[i2]));
            assert(vals[i1] != vals[i2]);
        }
    }
    Ok(out)
}

/// Plan a privacy-preserving nearby search: the cells to search are the
/// cell and every neighbor within the clamped ring count, the cell first,
/// each exactly once. A malformed cell id is rejected with a structured
/// error before any work.
pub fn nearby_search(query: &NearbyQuery) -> (r: Result<NearbyResponse, ApiError>)
    ensures
        r is Ok <==> spec_valid_cell(query.cell@),
        (r matches Err(e) ==> e matches ApiError::InvalidInput(_)),
        r matches Ok(resp) ==> (parsed_cell_of(query.cell@) matches Some(c) && {
            let k = spec_clamped_rings(query.rings as u32);
            &&& resp.events@.len() == 0
            &&& resp.total_count == 0
            &&& resp.cells_searched@.len() >= 1
            &&& resp.cells_searched@[0]@ == query.cell@
            &&& forall|i: int|
                0 <= i < resp.cells_searched@.len() ==> parsed_cell_of(
                    #[trigger] resp.cells_searched@[i]@,
                ) is Some && disk_of(c, k).contains(parsed_cell_of(resp.cells_searched@[i]@).unwrap())
            &&& forall|d: u64| #[trigger]
                disk_of(c, k).contains(d) ==> exists|i: int|
                    0 <= i < resp.cells_searched@.len() && parsed_cell_of(
                        #[trigger] resp.cells_searched@[i]@,
                    ) == Some(d)
            &&& forall|i: int, j: int|
                0 <= i < j < resp.cells_searched@.len() ==> resp.cells_searched@[i]@
                    != resp.cells_searched@[j]@
        }),
{
    let cells_searched = get_neighbors(query.cell.as_str(), query.rings as u32)?;
    Ok(NearbyResponse { events: Vec::new(), cells_searched, total_count: 0 })
}

} // verus!

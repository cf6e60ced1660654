use vstd::prelude::*;

verus! {

/// Largest magnitude a shape center coordinate may have, in model units.
/// Window coordinates are tiny compared to this; the bound keeps every
/// intermediate product of the marbling transform inside 128-bit arithmetic.
pub const COORD_MAX: i64 = 100_000_000;

/// Largest radius a style may carry, in model units.
pub const RADIUS_MAX: i64 = 100_000_000;

/// Largest magnitude a boundary point coordinate can reach. Construction
/// keeps points within `2 * COORD_MAX`; one marbling pass can push a point
/// out to about `2 * COORD_MAX * (1 + RADIUS_MAX)`, still well under this.
pub const POINT_MAX: i64 = 100_000_000_000_000_000;

} // verus!

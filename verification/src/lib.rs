//! Exact planar orientation predicates.
//!
//! Given two or three reference points with integer coordinates, the
//! predicates decide whether a query point lies strictly left of, exactly
//! on, or strictly right of a directed line (`orient2d`), or strictly
//! inside, exactly on, or strictly outside the circle through three
//! counterclockwise points (`incircle`). Both determinants are evaluated
//! in exact integer arithmetic, so the sign of the returned value is the
//! sign of the true mathematical determinant — including an exact zero for
//! exactly degenerate input.

pub mod arithmetic;
pub mod primitives;

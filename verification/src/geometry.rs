//! Points, vectors, rays and their intersections with surfaces.
pub mod intersection;
pub mod point;
pub mod ray;
pub mod sphere;
pub mod unit_length;
pub mod vector;

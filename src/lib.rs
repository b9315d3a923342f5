//! Decision logic of a sphere-scene ray tracer: the layout of the pixel
//! buffer, which sphere a ray meets first, whether a shadow ray is blocked,
//! when tracing stops, which materials can scatter, and how each pixel's
//! random source is seeded.
pub mod hits;
pub mod integrator;
pub mod material;
pub mod raster;
pub mod seed;

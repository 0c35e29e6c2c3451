//! The core of an offline Monte Carlo path tracer.
//!
//! The crate holds the scene, the intersection of rays with it, the
//! materials, the camera, the integrator that follows a path of light, and
//! the encoding of the image.  Its numbers are binary32 values held by their
//! encoding ([`scalar::Scalar`]), and its arithmetic is that of IEEE 754,
//! done on whole numbers ([`arith`]), so that an image is the same on every
//! machine.  What the crate leaves to its caller are files, threads, the
//! uniform samples that chance supplies, and the functions that no finite
//! rule computes: sines, cosines and their inverses.
pub mod scalar;
pub mod rounding;
pub mod arith;
pub mod vec3;
pub mod ray;
pub mod onb;
pub mod pdf;
pub mod utility;
pub mod color;
pub mod texture;
pub mod material;
pub mod hit_record;
pub mod bbox;
pub mod sphere;
pub mod rectangle;
pub mod triangle;
pub mod hittable_list;
pub mod sphere_array;
pub mod translate;
pub mod mesh;
pub mod camera;
pub mod sampling_filters;
pub mod integrator;
pub mod raytracer;
pub mod document;
pub mod config;
pub mod parser;

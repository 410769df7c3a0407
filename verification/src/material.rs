//! Surface reflectance parameters and a few stock materials.

use vstd::prelude::*;

use crate::math::Vec3;

verus! {

/// Lambert-Phong material: diffuse albedo, specular strength `ks`, whole
/// shininess exponent, and ambient coefficient `ka`.
#[derive(Clone, Copy, Debug, PartialEq, Eq, Structural)]
pub struct Material {
    pub albedo: Vec3,
    pub ks: i64,
    pub shininess: u32,
    pub ka: i64,
}

/// A matte light-gray surface.
pub fn light_gray() -> (m: Material)
    ensures
        m == (Material {
            albedo: Vec3 { x: 750_000, y: 750_000, z: 750_000 },
            ks: 200_000,
            shininess: 8,
            ka: 60_000,
        }),
{
    Material {
        albedo: Vec3 { x: 750_000, y: 750_000, z: 750_000 },
        ks: 200_000,
        shininess: 8,
        ka: 60_000,
    }
}

/// A dull red rubber-like surface.
pub fn rubber_red() -> (m: Material)
    ensures
        m == (Material {
            albedo: Vec3 { x: 600_000, y: 100_000, z: 100_000 },
            ks: 100_000,
            shininess: 6,
            ka: 70_000,
        }),
{
    Material {
        albedo: Vec3 { x: 600_000, y: 100_000, z: 100_000 },
        ks: 100_000,
        shininess: 6,
        ka: 70_000,
    }
}

/// A warm off-white surface with a mild highlight.
pub fn ivory() -> (m: Material)
    ensures
        m == (Material {
            albedo: Vec3 { x: 900_000, y: 850_000, z: 750_000 },
            ks: 300_000,
            shininess: 18,
            ka: 70_000,
        }),
{
    Material {
        albedo: Vec3 { x: 900_000, y: 850_000, z: 750_000 },
        ks: 300_000,
        shininess: 18,
        ka: 70_000,
    }
}

/// A strongly specular metal-like surface.
pub fn chrome() -> (m: Material)
    ensures
        m == (Material {
            albedo: Vec3 { x: 700_000, y: 700_000, z: 750_000 },
            ks: 900_000,
            shininess: 64,
            ka: 30_000,
        }),
{
    Material {
        albedo: Vec3 { x: 700_000, y: 700_000, z: 750_000 },
        ks: 900_000,
        shininess: 64,
        ka: 30_000,
    }
}

} // verus!

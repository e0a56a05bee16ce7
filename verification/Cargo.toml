[package]
name = "manifolds"
version = "0.1.0"
edition = "2021"
publish = false

[dependencies]
bytemuck = "=1.25.2"
const_soft_float = "=0.1.4"
libm = "=0.2.16"

[dev-dependencies]
nalgebra = "=0.35.0"

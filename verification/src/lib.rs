//! The verified core of a magnetohydrodynamics simulation that runs on the GPU.
//!
//! The simulation keeps a staggered grid of cells in two buffers and advances it with
//! a fixed sequence of compute kernels that ping-pong between them. This crate holds
//! the logic around that: how the grid is laid out ([`grid`]), the xorshift sequence
//! that scatters the tracer particles ([`rng`]), the order of the kernels and the
//! buffers they read and write ([`schedule`]), the simulation's integer state and
//! what each frame does ([`state`]), the pause and restart switches ([`controls`]),
//! and how window events are answered ([`events`]). The GPU calls themselves and the
//! floating-point initial conditions live with the application.

pub mod config;
pub mod controls;
pub mod events;
pub mod grid;
pub mod rng;
pub mod schedule;
pub mod state;

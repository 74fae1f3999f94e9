# mhdm

The verified core of a GPU magnetohydrodynamics simulation (a staggered grid of
cells advanced by compute kernels, with tracer particles and mouse interaction).

- `src/` is the library, checked by Verus: grid layout (`grid`), the xorshift
  sequence that scatters the particles (`rng`), the order of the compute kernels and
  the buffers they read and write (`schedule`), the simulation's integer state and
  what each frame does (`state`), the pause and restart switches (`controls`), and
  how window events are answered (`events`).
- `app/` is the program around it: the window and event loop (winit), the GPU
  resources and passes (wgpu), and the floating-point initial conditions. It
  performs the plans that the library returns.
- `tests/` exercises the library on concrete values.

The program reads its WGSL shaders, `render.wgsl` and `compute.wgsl`, from a `res`
directory under the working directory.

# solar_system

A software-rendered solar system. The verified library (`src/`) holds the
parts of the renderer that are integer or index logic, each with a Verus
contract:

- `color`: RGB colours, `0xRRGGBB` packing, and the half-and-half layer blend.
- `planet`: the kinds of body and the colour of the trail each one leaves.
- `trail`: the bounded, oldest-first particle buffer behind every body.
- `render`: primitive assembly, orbit and polyline segment indices, and the
  alpha byte of trail pixels.
- `input`: the camera's per-frame keyboard decisions (bird's-eye switch with
  saved state, flight controls) and the warp-key choice.

`app/` is the program: window and keyboard (minifb), f32 geometry and
matrices (nalgebra-glm), noise-based shaders (fastnoise-lite, rand), OBJ
loading and rasterisation. It calls the library for every decision above.

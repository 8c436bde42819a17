# sdf_game

A fly-through game in which signed-distance primitives rush towards the
camera. The crate splits in two:

- `src/` is the verified library: the primitive kinds and how a random roll
  picks one (`primitives`), the shader effects (`camera`), the input rules of
  a running level (`level`), the scene state of the game (`game`), the key
  report of the user interface (`controller`), and the random generator it
  draws from (`rng`).
- `app/` is the renderer and the window glue: wgpu buffers and pipelines,
  the camera and distance maths on floats, the spawn timer, and the eframe
  application that drives a level every frame.

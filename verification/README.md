# loop_blinn

A Loop-Blinn cubic Bezier renderer: a window with an interactive
control-point editor and a gallery of reference curves, each classified
(serpentine, loop, cusp, quadratic, line, point) and drawn through the
implicit form K^3 - L*M = 0.

- `src/` is the Verus-verified library: the decisions of the renderer.
  - `kind`: classifications, their names, the classification from the
    outcomes of its numeric tests, and the choice of K, L, M formula.
  - `basis`: the choice of the best-conditioned basis of control points.
  - `chop`: the plan for splitting a loop curve at its self-intersection.
  - `fan`: triangle-fan index lists.
  - `gallery`: the gallery grid (rows, cell of a preset, preset of a cell).
  - `interactive`: the control-point drag state machine.
  - `edge`: edge types, their names, rotation and shader numbers.
  - `controls`: scenes, keys, window events, gallery clicks and GL
    configuration choice.
- `app/` is the program around it: the `f32` curve math and geometry, the
  camera, OpenGL drawing through glow, and the winit/glutin window.
- `tests/` exercises the library on concrete values.

# stormbird

Index bookkeeping of lifting-line wake models and multi-wing line force models, verified with
Verus.

A lifting-line simulation represents each wing as a chain of span lines and the wake behind the
wings as a structured surface of points and panels. Points and panels are stored in flat vectors,
stream-wise major, and the span lines of all wings are stored after each other. This crate holds
that index logic with proved contracts:

- `lifting_line::wake::indices`: flat panel and point indices (`WakeIndices`), with the proof that
  the flat index is a one-to-one map of the panel grid.
- `lifting_line::wake::dynamic_wake`: the wake (`Wake`), generic over point, strength and panel
  types; corner points of each panel, with one extra point per wing in every row.
- `lifting_line::wake::update_data`: streaming strengths and points downstream, updating the
  first row and rebuilding panel data, and the updates before and after the solver at each time
  step.
- `lifting_line::wake::initialization`: streaming a new wake out to its full length.
- `lifting_line::wake::induced_velocity_calc`: which panels act on which points, and what goes
  into the induced velocity of one panel.
- `lifting_line::wake::builders`: building a wake from the span points, and the panel list for
  export.
- `line_force_model::wing_indices`: the ranges of span lines of each wing.
- `line_force_model::span_points`: where each span point value comes from, given the values at
  the control points.
- `line_force_model::corrections`, `line_force_model::solver_utils`: correction settings,
  smoothing end conditions and convergence counting.

The floating-point arithmetic enters the verified functions as closures (how a point is streamed
or moved, how panel data is built, what the velocity at the wake points is), and the contracts say
which values each closure is handed. `app/` supplies those closures, built on the `stormath`
crate, together with damping, the serde settings and file export.

Most of the floating-point models are in neither the library nor `app/`: the wake and wing
builders' length and viscous-core computations, the line force model with its circulation,
smoothing and velocity corrections, the frozen wake, and rigid-body motion.

# laser_solver

A fibre-laser solver whose control logic is verified with Verus.

`src/` is the verified library:

- `maths::picard` — a generic Picard (fixed-point) iteration driver with optional
  relaxation; its contracts describe every sweep it performs and what becomes of it.
- `maths::rootfind`, `error` — the error vocabulary of the solvers.
- `lase` — pump-scan bookkeeping: a solve whose root was not bracketed counts as below
  threshold, and the first solve that fails otherwise is the scan's error.
- `plotter` and the plot modules (`kappa_plot`, `pi_pos_plot`, `pi_pos_threshold_plot`,
  `threshold_plot`, `pop_plot`, `profile_plot`) — the assembly of each view's plot from what
  the numerical solvers return, as methods of `dfb::LaserParameters`, the colours the lines
  of a plot cycle through, and the solve times the timed views record (`timing`).
- `views` — the views the application offers and their plot identifiers.

All floating-point work (field propagation, gain, root finding) is in `app/`, which hands it
to the library as closures; `app/` is also the desktop user interface (eframe and egui_plot)
that draws the plots.

# debugui

Program values that a debug window shows and may override.

- `src/` is the verified library: the parameter trait and its impls
  (`param`), the record of a parameter and its lock (`storage`), the
  viewer choices (`viewer`) and the window's event handling (`ui`).
- `app/` holds what Verus does not see: link-time registration of parameters
  and viewers, type-erased storage, egui drawing, and the window and GPU setup.

Parameters hold integers, `bool`, `char` or `String`. There are no float
parameters: floating point is kept out of `src/`, and `app/` cannot implement
the library's trait for `f32` or `f64`, so there are no float viewers either.

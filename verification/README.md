# jord (verified parts)

`src/` is a Verus library:

- `gen/`: reading the model and surface description files (`text`, `words`, `model`,
  `surface`, `driver`) and writing the Rust declarations of the models and surfaces they
  describe. Every parsing and generation step has an exact contract over plain character
  sequences.
- `prng`: the xorshift32 generator and its Fisher-Yates shuffle, with the proofs that the
  generator never reaches zero and that a shuffle is a permutation.
- `model`, `models`: model identifiers, longitude ranges and the standard models.
- `orientation`, `error`, `great_circle`, `spherical`, `internal`: local frame orientations,
  errors, and the enumerations of sides, loop relations and rounding.

`app/` is the `gen` program (file input and output, floating-point parsing and formatting)
and the floating-point quantities (angles, lengths, speeds, vectors, matrices, rotations,
spheres and ellipsoids), which Verus cannot hold.

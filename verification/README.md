# Pinball Defense

A tower defense game that is played only with a pinball: the ball charges
extra fields, builds towers through a pinball menu, hits enemies, and the
player levels up with the points it earns.

`src/` holds the rules of the game as a library verified with Verus: points
and levels, the mechanical counters, extra fields and their effects, the ball
starter, flippers, controls, progress bars, health, the pinball menu, the
contact lights, how enemy animations blend and advance, and the state of a
match. Every public function states what it returns in its
contract, and the laws of the game (a field fills on exactly its last needed
hit, bars and health stay within their range, a counter shows the number it
was set to, a clamped ball is never faster than the limit, a slowed ball
ends below its speed limit) are proof functions.

Continuous quantities are fixed point integers: millimetres, milliseconds,
millimetres per second, milliradians, per mille factors, and progress in
`PROGRESS_ONE` parts of a full bar (see `src/units.rs`).

`app/` is the program around the library: it runs the game in the bevy
engine, reads input and physics, converts them to the library's units and
shows what the rules decide. `tests/` holds the tests of the library.

# daedalus

The core of a RoboMaster simulator, written in Verus: the shared memory through which it hands
frames, poses and ground truth to a vision process, the rules by which that process may take over
the gimbal, and what keys, mouse and gamepad ask of the robots.

- `src/` is the library. Every function in it has a contract that Verus proves. Floats travel
  through it as bit patterns; the rules compare, negate and copy them, which is exact.
- `app/` is ordinary Rust around it: the mapped memory, the Bevy systems that measure the scene,
  and arithmetic that rounds. It builds without a renderer and without a window: what is to be
  drawn, the focus, the pointer and screenshots are plain components and resources
  (`app/components.rs`) that the renderer and the windowing side read and keep.
- `tests/` runs the library on concrete values, with the real input collections of Bevy.

| Part | Modules |
| --- | --- |
| Shared memory | `layout`, `wire`, `codec`, `memory`, `region`, `triple_buffer`, `seqlock` |
| Its two ends | `publisher`, `publisher_records`, `subscriber`, `capture` |
| Ground truth | `ground_truth`, `plates`, `runes`, `names`, `rotation` |
| Who moves the gimbal | `link`, `plugin`, `controller`, `keys`, `gamepad`, `camera` |
| The rest | `config`, `projectile`, `statistic`, `debug`, `float` |

The library never touches shared memory. It answers with steps (`memory::ShmOp`), whoever holds the
mapping carries them out in order, and the contracts say what the region holds afterwards.

What is believed without proof stands in `keys`: the wrappers around `bevy::input::ButtonInput`.

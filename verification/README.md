# animation_playground

A third-person character animation playground built on bevy. The decision
logic of its animation controller is a Verus-verified library:

- `src/animation.rs`: the animation state each layer is asked to play, and
  when a layer restarts (layer 0 whole body, layer 1 upper-body aim).
- `src/control.rs`: player input and the jump cycle
  (Grounded → JumpStart → JumpLoop → JumpLand → Grounded).
- `src/bone_path.rs`, `src/bone_mask.rs`: bone paths and the assignment of
  lower-body and upper-body bones to the mask groups of a bevy
  `AnimationGraph`.
- `src/clips.rs`: the clip layout of the locomotion and aim blends and the
  retarget group of each layer.
- `src/float_bits.rs`: `f32` equality on bit patterns, for the blend samples
  the controller compares.

`app/` is the bevy program: asset loading, ECS systems, the velocity and
upper-body weight ramps and the spine IK, which are floating-point work, and
the glue to `bevy_animation_controllers`.

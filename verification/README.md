# depth_peeling

Depth-peeled screen-space transmission for a Bevy renderer, and the texture samplers and
transforms of glTF. The logic is in a library that is verified with Verus; Bevy is driven
by ordinary Rust around it.

Transmissive meshes are drawn in layers. The depth of each layer is peeled against the
layer before it, nearest first. Then the layers are drawn onto the picture, farthest first,
each of them seeing the picture with the layers behind it.

## The library, `src/`

| module | what it holds |
| --- | --- |
| `settings` | the settings of a camera |
| `phase` | sorted render phases: filing, sorting and measuring draws |
| `queue` | which visible meshes are drawn, with which keys, and into which phases |
| `views` | which views have phases |
| `textures` | depth textures, their usages and bind groups |
| `pass` | the render passes that peel a view |
| `mesh_layout` | where a mesh keeps the positions of its vertices |
| `pipeline` | the depth pipeline and the colour pipeline |
| `sampler` | glTF texture samplers |
| `transform` | glTF texture transforms |
| `phase_laws`, `queue_laws`, `pass_laws`, `pipeline_laws`, `transform_laws`, `frame_laws` | what holds of all of it |

Floating-point numbers go through the library as their bits.

## Around it, `app/`

A Bevy plugin that is generic over the renderer it is added to (`host::Host`), with the
systems, the phase items and the conversions between Bevy's types and the library's.

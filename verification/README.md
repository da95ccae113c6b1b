# egui_graph

A node-graph widget for egui: nodes with input and output sockets, edges
between them, rectangle selection, dragging with snap-alignment, and edge
creation by dragging from a socket.

- `src/` is the verified core. It decides every selection, press, drag,
  deletion and edge-creation step from plain values (positions are opaque
  to it), keeps the set of selected nodes, orders alignment candidates
  deterministically, and maps a node's dataflow direction to the sides its
  sockets sit on. `src/laws.rs` states the properties that span frames.
- `app/` is the egui widget around it: the scene, painting, memory, and the
  floating-point geometry (snapping, alignment, zoom preservation, dot grid,
  polyline helpers), plus serializable copies of the core's values.

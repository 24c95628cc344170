# isometric

An isometric terrain viewer, split in two:

* `src/` is the verified library: the layout of the terrain grid (node,
  edge and tile cells, edge matrices, borders and their triangulation), the
  rotation states of the camera, the text editor and the other input
  handlers' decisions, the parser of glyph tables, and the bookkeeping of
  vertex buffers (strides, attribute layouts, slots and draw ranges).
* `app/` is the program around it: the window and event loop, OpenGL, the
  user interface, and the floating-point geometry (projections, terrain
  positions, vertex data).

`tests/` runs the library on concrete values.

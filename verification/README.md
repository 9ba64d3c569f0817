# doombox

The logic of a bare-metal kernel that boots into a DOOM-like raycasting
engine, as a verified library.

- `src/vga.rs`: the 320x200 mode 13h picture (`Renderer`), clearing it and
  drawing blocks of text as one dot per character, with clipping.
- `src/doom.rs`: the title screen (gradient and logo).
- `src/doom_engine.rs`: depth-shaded floor and ceiling, wall columns, the HUD
  and whole frames, with the laws that relate them.
- `src/counter_text.rs`: the frame counter's decimal text in a
  `heapless::String`.
- `src/banner.rs`: the ASCII-art logo.
- `src/idt.rs`, `src/gdt.rs`, `src/memory.rs`: interrupt vectors, the GDT
  layout and the placeholder frame allocator.

`app/` is the kernel around it: the hardware setup, the interrupt handlers,
the floating-point ray casting, and copying each picture to video memory.

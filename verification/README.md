# FixScreen

A small always-on-top window that shows a scaled-down copy of the desktop, for a monitor of which a
part has died. Frames come from Desktop Duplication, or are copied from the screen where that does
not work.

| Action | Effect |
|---|---|
| Mouse wheel | resize the window |
| Left-click and drag | move the window |
| `M` | next monitor |
| `Esc`, right-click, the X in the corner | close |

## Layout

`src/` is a library in Verus. It holds what the program decides and computes, with contracts and
proofs:

- `capture` - the steps of the capture thread; `capture_model` says what each of them does, and
  `capture_laws` what holds of the thread as a whole
- `frame`, `shared` - the picture and the flags that pass between the threads
- `window` - what each message of the window does
- `render` - what is drawn, and what is kept from one frame to the next
- `text`, `geometry`, `num`, `startup` - the status line, sizes and places, integer conversions,
  and choices made at the start

`app/` is the program around it: the calls into Win32, Direct3D and GDI. The two threads share one
`SharedState` behind a lock. The size of the mouse pointer is scaled there, with floating point.

`tests/` runs the library on examples.

# gpu_scenes

A small wgpu playground: a window shows one of four scenes, and releasing the
space key switches to the next one.

- `src/` is the verified library (Verus): the scene list and selector
  (`scenes`), the pipeline and frame descriptions each scene asks for
  (`pipeline`), the uniform data and its byte image (`uniform`), and the
  application state machine that turns window events into GPU and window
  actions (`base_work`).
- `app/` is the program around it: it opens the winit window, talks to the
  GPU through wgpu, feeds window events to the library and performs the
  actions it returns.
- `tests/` exercise the library.

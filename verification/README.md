# wgpu_uwu

A set of small wgpu demos (a moving square, a brightness control, a glitch
and wave effect, layered textures, bloom). The logic that does not touch the
GPU or floating point is a Verus-verified library under `src/`:

- `keys`: the table of held keys and how key events update it;
- `lumiere`, `plusieurs`, `carre`: arrow keys to directions and steps;
- `frame`: what a renderer does with each outcome of acquiring a frame;
- `viewport`: the viewport of the pixel-art scaler: the largest whole
  factor that fits the window on both axes, centred; proved to keep the
  aspect ratio, to be centred, to fit inside the window on both axes and to
  be the largest such factor;
- `mesh`: the quad's index list and its index-buffer bytes (every index
  names one of the quad's four vertices);
- `texture`: texture sizes, image decoding into an RGBA8 upload, the glow
  chain's sizes and passes (each pass up blends a texture of its own size
  with one of the next smaller size).

`app/` holds the programs: window and event loop (winit), GPU work (wgpu),
and the floating-point parts. Run it with the demo's name as first
argument; shaders and images are read at start-up from the `assets/`
directory of the package (or from `WGPU_UWU_ASSETS`), under each demo's
name, e.g. `assets/milieu/src/shader.wgsl`.

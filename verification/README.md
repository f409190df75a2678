# splat_studio

The verified core of Gaussian Splat Studio, a desktop tool that turns video
captures into Gaussian Splat reconstructions for 3ds Max.

- `src/` — the library, proved with Verus:
  - `config` — capture, training, refinement and export settings and their defaults;
  - `jobs` — the stage progression of a reconstruction job;
  - `models` — the downloadable model packs and their sizes;
  - `pipeline` — runtime profiles and the planned pipeline for each;
  - `project` — the project manifest and how a project is named;
  - `runner` — how pipeline output lines become events, and what the runner
    does on each look at the pipeline process;
  - `runtime`, `system` — the workspace layout and the meaning of tool probes;
  - `paths`, `text` — paths, decimal numerals, whitespace trimming, prefixes.
- `app/` — the egui application, process and thread plumbing, file output and
  the serializable copies of the settings.
- `tests/` — tests of the library.

Real-valued settings are held in the library as the IEEE-754 bit patterns of
their `f32`/`f64` values; the application converts them.

The JSON form of the settings and of the project manifest (the serializable
copies in `app/config.rs` and `app/project.rs`, with their float/bit-pattern
conversions) and `app/project.rs`'s `save` are application code that no test
exercises: tests see only the library, and the library has no serde derives.

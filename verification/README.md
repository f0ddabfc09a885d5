# mediaframe

Descriptors for decoded video frames and the vocabularies around them, with every behaviour
stated as a contract and proved by Verus.

## What is here

- `frame` — raster `Dimensions` and `Rect` (containment, storage aspect ratio, the
  sample-aspect-ratio display size with half-away-from-zero rounding), exact `Rational`s with the
  `SampleAspectRatio` and `FrameRate` views over them, the orientation vocabularies `Rotation`,
  `FieldOrder` and `StereoMode`, pixel `Plane`s, the runtime-tagged `VideoFrame` and the
  `TimestampedFrame` wrapper, and the error payloads frame validation reports.
- `pixel_format` — every FFmpeg pixel format by name and wire id, the Bayer extensions, the
  aliases `canonical` resolves, and an open escape for names the roster does not carry.
- `image` — still-image container and codec formats, their canonical slugs and on-disk
  extensions.
- `lang` — BCP 47 language identity: `Language`, `ScriptSubtag` and `Region`, each folded to its
  canonical spelling at construction, and `LanguageId`, the lossless whole tag that composes them,
  all read against the vendored IANA registry in `lang::registry`.
- `parse` — the shared parse error, the case axis every vocabulary parse declares, and the ASCII
  case fold.
- `order` — the order texts and optional seats compare in, which the language types' `PartialOrd`
  states.
- `text` — the character-level specifications and routines the rest is built on.

Each vocabulary states its laws as public proof functions (`law_*`): every named value survives
its own text, parsing is idempotent through the text form, and the language doors and the
whole-tag composition are reparse-stable.

## Layout

- `src/` — the verified library.
- `tests/` — its tests, run against the compiled library.
- `app/` — the unverified faces: `Display` and `std::error::Error` through each value's canonical
  text, and serde records that carry values across a wire and back through the library's doors.

# piaf

A verified decoder for EDID and DisplayID display capability data, written in Verus.

## Layout

- `src/parser.rs` — validates a raw EDID byte stream (length, header, block checksums,
  extension tags) and splits it into 128-byte blocks.
- `src/capabilities/` — runs block handlers over a parsed EDID:
  - `base.rs` decodes the base block header fields;
  - `cea861.rs` decodes CTA-861 extension blocks: the video modes of the Video Data
    Blocks in the data block collection, with a warning for a block that runs past it;
  - `displayid/` decodes DisplayID 1.x and 2.x sections: framing and checksums (`mod.rs`),
    metadata blocks (`metadata.rs`) and video timing blocks (`timing/`);
  - `mod.rs` holds the allocating pipeline (`capabilities_from_edid`) and the
    fixed-capacity one (`capabilities_from_edid_static`).
- `src/model/` — the data model (`DisplayCapabilities`, `VideoMode`, `RefreshRate`, the
  extension registries and handler traits, the panel and DisplayID types) with the spec
  views that the contracts are written in.
- `tests/` — unit and scenario tests, run against the compiled library.
- `app/` — what stays outside the verified library: `std::error::Error` and serde copies of
  model types, and floating-point readings of raw fields.

Every public function of `src/` states its result over the spec model in its `ensures`.
Handlers for the fixed-capacity pipeline implement `StaticExtensionHandler`, which names
the tag they take and what they leave in the mode and warning slots; the pipeline's
result is stated in those terms. The handlers that `ExtensionLibrary` runs are the
library's own (`BlockHandler`): the base block, DisplayID and CTA-861 decoders. Of CTA-861
blocks only the Video Data Blocks are decoded; detailed timing descriptors and the other
data block types are skipped. The properties that relate several functions are public proof
functions (`lemma_*`). The DMT and CTA-861 timing tables and the CVT formula come from the
`display-types` crate, called through trusted wrappers in `src/capabilities/displayid/timing/`.

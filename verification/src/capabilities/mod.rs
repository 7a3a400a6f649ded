//! Capability extraction from a parsed EDID.

use vstd::prelude::*;

use crate::model::capabilities::{
    empty_slots, lemma_context_given_up, lemma_slots_with_modes_bounded, slots_with_modes, CapabilitiesView,
    DisplayCapabilities, ModeSink, SlotState, StaticContext, StaticDisplayCapabilities,
};
use crate::model::diagnostics::EdidWarning;
use crate::model::edid::EdidSource;
use crate::model::screen::ScreenSize;
use crate::model::extension::{
    BlockHandler, ExtensionHandler, ExtensionLibrary, ExtensionMetadata, StaticExtensionHandler,
};
use base::{base_decoded, decode_base_block};
use cea861::{cea861_processed, lemma_cea861_keeps_other_fields, Cea861Handler};
use displayid::{block_views, displayid_processed, DisplayIdHandler};

/// Base block decoding.
pub mod base;
/// CTA-861 extension block handling.
pub mod cea861;
/// DisplayID extension block handling.
pub mod displayid;

verus! {

impl ExtensionLibrary {
    /// Creates a library with the base block handler and the standard extension tags
    /// (CEA-861 `0x02`, DisplayID `0x70`, Block Map `0xF0`) registered, the CEA-861 handler
    /// attached to the CEA-861 tag.
    pub fn with_standard_handlers() -> (r: Self)
        ensures
            r.base_handlers@ == seq![BlockHandler::BaseBlock],
            r.extensions@.len() == 3,
            r.tags() == seq![0x02u8, 0x70u8, 0xF0u8],
            r.extensions@[0].display_name@ == "CEA-861"@,
            r.extensions@[1].display_name@ == "DisplayID"@,
            r.extensions@[2].display_name@ == "Block Map"@,
            r.extensions@[0].handler == Some(BlockHandler::Cea861),
            r.extensions@[1].handler.is_none(),
            r.extensions@[2].handler.is_none(),
    {
        let mut lib = Self::new();
        lib.register(
            ExtensionMetadata {
                tag: 0x02,
                display_name: "CEA-861".to_owned(),
                handler: Some(BlockHandler::Cea861),
            },
        );
        assert(lib.tags() =~= seq![0x02u8]);
        lib.register(ExtensionMetadata { tag: 0x70, display_name: "DisplayID".to_owned(), handler: None });
        assert(lib.tags() =~= seq![0x02u8, 0x70u8]);
        lib.register(ExtensionMetadata { tag: 0xF0, display_name: "Block Map".to_owned(), handler: None });
        assert(lib.tags() =~= seq![0x02u8, 0x70u8, 0xF0u8]);
        lib.add_base_handler(BlockHandler::BaseBlock);
        assert(lib.base_handlers@ =~= seq![BlockHandler::BaseBlock]);
        lib
    }
}

/// The model and warnings after handler `h` runs over `blocks`: the base block handler
/// decodes the first block, the DisplayID and CTA-861 handlers the whole sequence.
pub open spec fn handler_run(
    h: BlockHandler,
    blocks: Seq<Seq<u8>>,
    c: CapabilitiesView,
    w: Seq<EdidWarning>,
) -> (CapabilitiesView, Seq<EdidWarning>) {
    match h {
        BlockHandler::BaseBlock => if blocks.len() > 0 {
            base_decoded(blocks[0], c, w)
        } else {
            (c, w)
        },
        BlockHandler::DisplayId => displayid_processed(blocks, c, w),
        BlockHandler::Cea861 => cea861_processed(blocks, c, w),
    }
}

impl ExtensionHandler for BlockHandler {
    /// Runs the handler this value names over `blocks`: the base block handler decodes the
    /// first block, the DisplayID and CTA-861 handlers all of them.
    fn process(
        &self,
        blocks: &[[u8; 128]],
        caps: &mut DisplayCapabilities,
        warnings: &mut Vec<EdidWarning>,
    )
        ensures
            (final(caps)@, final(warnings)@) == handler_run(
                *self,
                block_views(blocks@),
                old(caps)@,
                old(warnings)@,
            ),
    {
        match *self {
            BlockHandler::BaseBlock => {
                if blocks.len() > 0 {
                    decode_base_block(&blocks[0], caps, warnings);
                }
            },
            BlockHandler::DisplayId => {
                ExtensionHandler::process(&DisplayIdHandler, blocks, caps, warnings);
            },
            BlockHandler::Cea861 => {
                ExtensionHandler::process(&Cea861Handler, blocks, caps, warnings);
            },
        }
    }
}

/// The model and warnings after the first `n` base handlers run over `base`.
pub open spec fn base_handlers_run(
    handlers: Seq<BlockHandler>,
    n: int,
    base: Seq<u8>,
    c: CapabilitiesView,
    w: Seq<EdidWarning>,
) -> (CapabilitiesView, Seq<EdidWarning>)
    decreases n,
{
    if n <= 0 {
        (c, w)
    } else {
        let (c1, w1) = base_handlers_run(handlers, n - 1, base, c, w);
        handler_run(handlers[n - 1], seq![base], c1, w1)
    }
}

/// The blocks of `blocks` whose first byte (the extension tag) is `tag`, in order.
pub open spec fn blocks_with_tag(blocks: Seq<Seq<u8>>, tag: u8) -> Seq<Seq<u8>>
    decreases blocks.len(),
{
    if blocks.len() == 0 {
        Seq::empty()
    } else {
        let prev = blocks_with_tag(blocks.drop_last(), tag);
        if blocks.last()[0] == tag {
            prev.push(blocks.last())
        } else {
            prev
        }
    }
}

/// The model and warnings after the first `n` registered extension types run: each with a
/// handler gets all extension blocks with its tag, in stream order, if there are any.
pub open spec fn extension_handlers_run(
    entries: Seq<ExtensionMetadata>,
    n: int,
    blocks: Seq<Seq<u8>>,
    c: CapabilitiesView,
    w: Seq<EdidWarning>,
) -> (CapabilitiesView, Seq<EdidWarning>)
    decreases n,
{
    if n <= 0 {
        (c, w)
    } else {
        let (c1, w1) = extension_handlers_run(entries, n - 1, blocks, c, w);
        let m = entries[n - 1];
        match m.handler {
            Some(h) => {
                let bs = blocks_with_tag(blocks, m.tag);
                if bs.len() > 0 {
                    handler_run(h, bs, c1, w1)
                } else {
                    (c1, w1)
                }
            },
            None => (c1, w1),
        }
    }
}

/// The capabilities that `library` derives from `edid`: base handlers first, in
/// registration order, then extension handlers in registration order; the warnings list
/// ends with the parse warnings followed by the handlers' warnings.
pub open spec fn capabilities_of<T: EdidSource>(edid: &T, library: &ExtensionLibrary) -> CapabilitiesView {
    let (c1, w1) = base_handlers_run(
        library.base_handlers@,
        library.base_handlers@.len() as int,
        edid.base_view(),
        CapabilitiesView::empty(),
        Seq::empty(),
    );
    let (c2, w2) = extension_handlers_run(
        library.extensions@,
        library.extensions@.len() as int,
        edid.extension_views(),
        c1,
        w1,
    );
    CapabilitiesView { warnings: c2.warnings + edid.parse_warnings_view() + w2, ..c2 }
}

/// Collects copies of the extension blocks of `edid` whose tag is `tag`, in stream order.
fn collect_blocks<T: EdidSource>(edid: &T, tag: u8) -> (r: Vec<[u8; 128]>)
    ensures
        block_views(r@) == blocks_with_tag(edid.extension_views(), tag),
{
    let ghost all = edid.extension_views();
    let n = edid.extension_count();
    let mut out: Vec<[u8; 128]> = Vec::new();
    let mut j: usize = 0;
    while j < n
        invariant
            n == all.len(),
            j <= n,
            all == edid.extension_views(),
            block_views(out@) == blocks_with_tag(all.take(j as int), tag),
        decreases n - j,
    {
        let block = edid.extension_at(j);
        assert(all.take(j + 1).drop_last() =~= all.take(j as int));
        assert(all.take(j + 1).last() == block@);
        let ghost before = out@;
        if block[0] == tag {
            out.push(block);
            assert(block_views(out@) =~= block_views(before).push(block@));
        }
        j = j + 1;
    }
    assert(all.take(j as int) =~= all);
    out
}

/// Derives [`DisplayCapabilities`] from a parsed EDID by running the handlers registered in
/// `library`.
///
/// Base handlers run first over the base block, in registration order; then every
/// registered extension type with a handler gets the extension blocks carrying its tag, in
/// stream order, when there are any. Parse warnings and handler warnings are appended to
/// [`DisplayCapabilities::warnings`].
pub fn capabilities_from_edid<T: EdidSource>(edid: &T, library: &ExtensionLibrary) -> (r:
    DisplayCapabilities)
    ensures
        r@ == capabilities_of(edid, library),
{
    let mut caps = DisplayCapabilities::default();
    let mut warnings: Vec<EdidWarning> = Vec::new();
    let base = [edid.base_block()];
    assert(block_views(base@) =~= seq![edid.base_view()]);
    let mut i: usize = 0;
    while i < library.base_handlers.len()
        invariant
            i <= library.base_handlers@.len(),
            block_views(base@) == seq![edid.base_view()],
            (caps@, warnings@) == base_handlers_run(
                library.base_handlers@,
                i as int,
                edid.base_view(),
                CapabilitiesView::empty(),
                Seq::empty(),
            ),
        decreases library.base_handlers@.len() - i,
    {
        library.base_handlers[i].process(&base, &mut caps, &mut warnings);
        i = i + 1;
    }
    let ghost after_base = (caps@, warnings@);
    let mut k: usize = 0;
    while k < library.extensions.len()
        invariant
            k <= library.extensions@.len(),
            (caps@, warnings@) == extension_handlers_run(
                library.extensions@,
                k as int,
                edid.extension_views(),
                after_base.0,
                after_base.1,
            ),
        decreases library.extensions@.len() - k,
    {
        let metadata = &library.extensions[k];
        if let Some(h) = metadata.handler {
            let blocks = collect_blocks(edid, metadata.tag);
            if blocks.len() > 0 {
                h.process(&blocks, &mut caps, &mut warnings);
            }
        }
        k = k + 1;
    }
    let ghost handled = caps@.warnings;
    let ghost pre = caps@;
    let parse_warnings = edid.parse_warnings();
    let mut p: usize = 0;
    while p < parse_warnings.len()
        invariant
            p <= parse_warnings@.len(),
            caps@ == (CapabilitiesView { warnings: caps@.warnings, ..pre }),
            caps@.warnings == handled + parse_warnings@.take(p as int),
        decreases parse_warnings@.len() - p,
    {
        caps.warnings.push(parse_warnings[p]);
        p = p + 1;
        assert(caps@.warnings =~= handled + parse_warnings@.take(p as int));
    }
    let ghost with_parse = caps@.warnings;
    let mut q: usize = 0;
    while q < warnings.len()
        invariant
            q <= warnings@.len(),
            caps@.warnings == with_parse + warnings@.take(q as int),
            caps@ == (CapabilitiesView { warnings: caps@.warnings, ..pre }),
        decreases warnings@.len() - q,
    {
        caps.warnings.push(warnings[q]);
        q = q + 1;
        assert(caps@.warnings =~= with_parse + warnings@.take(q as int));
    }
    assert(parse_warnings@.take(p as int) =~= parse_warnings@);
    assert(warnings@.take(q as int) =~= warnings@);
    caps
}

/// The scalar fields that the allocation-free pipeline takes from the base block model;
/// the others keep their empty values.
pub open spec fn static_scalars(c: CapabilitiesView) -> CapabilitiesView {
    CapabilitiesView {
        manufacturer: c.manufacturer,
        manufacture_date: c.manufacture_date,
        edid_version: c.edid_version,
        product_code: c.product_code,
        serial_number: c.serial_number,
        serial_number_string: c.serial_number_string,
        display_name: c.display_name,
        unspecified_text: c.unspecified_text,
        digital: c.digital,
        color_bit_depth: c.color_bit_depth,
        chromaticity: c.chromaticity,
        video_interface: c.video_interface,
        screen_size: c.screen_size,
        min_v_rate: c.min_v_rate,
        max_v_rate: c.max_v_rate,
        min_h_rate_khz: c.min_h_rate_khz,
        max_h_rate_khz: c.max_h_rate_khz,
        max_pixel_clock_mhz: c.max_pixel_clock_mhz,
        preferred_image_size_mm: c.preferred_image_size_mm,
        ..CapabilitiesView::empty()
    }
}

/// The index of the first handler from index `k` on whose tag is `tag`, or the number of
/// handlers when none is.
pub open spec fn first_handler(hs: Seq<&dyn StaticExtensionHandler>, tag: u8, k: int) -> int
    decreases hs.len() - k,
{
    if k < 0 || k >= hs.len() {
        hs.len() as int
    } else if hs[k].handled_tag() == tag {
        k
    } else {
        first_handler(hs, tag, k + 1)
    }
}

/// The slots after the first `n` extension blocks are dispatched: each block, on its own and
/// in stream order, goes to the first handler whose tag is the block's tag byte; a block no
/// handler takes changes nothing.
pub open spec fn extensions_into_slots(
    hs: Seq<&dyn StaticExtensionHandler>,
    exts: Seq<Seq<u8>>,
    n: int,
    s: SlotState,
) -> SlotState
    decreases n,
{
    if n <= 0 {
        s
    } else {
        let prev = extensions_into_slots(hs, exts, n - 1, s);
        let b = exts[n - 1];
        let i = first_handler(hs, b[0], 0);
        if i < hs.len() {
            hs[i].slots_after(seq![b], prev)
        } else {
            prev
        }
    }
}

proof fn lemma_first_handler(hs: Seq<&dyn StaticExtensionHandler>, tag: u8, k: int, j: int)
    requires
        0 <= j <= k <= hs.len(),
        forall|m: int| 0 <= m < k ==> (#[trigger] hs[m]).handled_tag() != tag,
        k == hs.len() || hs[k].handled_tag() == tag,
    ensures
        first_handler(hs, tag, j) == k,
    decreases k - j,
{
    if j < k {
        lemma_first_handler(hs, tag, k, j + 1);
    }
}

/// Derives [`StaticDisplayCapabilities`] from any [`EdidSource`] without heap allocation for
/// the result.
///
/// The base block is decoded and its scalar fields and modes are copied (modes beyond `N` are
/// dropped). Then each extension block, on its own and in stream order, goes to the first
/// handler in `handlers` whose [`tag`][StaticExtensionHandler::tag] matches the block's tag
/// byte. Handlers reach only the mode and warning slots, so the scalar fields stay those of
/// the base block, and the counts stay within the `N` mode slots and eight warning slots.
pub fn capabilities_from_edid_static<const N: usize, T: EdidSource>(
    parsed: &T,
    handlers: &[&dyn StaticExtensionHandler],
) -> (r: StaticDisplayCapabilities<N>)
    ensures
        ({
            let (b, _w) = base_decoded(parsed.base_view(), CapabilitiesView::empty(), Seq::empty());
            &&& r.scalars() == static_scalars(b)
            &&& r.slots() == extensions_into_slots(
                handlers@,
                parsed.extension_views(),
                parsed.extension_views().len() as int,
                slots_with_modes(empty_slots(N as nat), b.supported_modes),
            )
        }),
        r.num_modes <= N,
        r.num_warnings <= 8,
{
    let mut base_caps = DisplayCapabilities::default();
    let mut base_warnings: Vec<EdidWarning> = Vec::new();
    let base = parsed.base_block();
    decode_base_block(&base, &mut base_caps, &mut base_warnings);
    let ghost b = base_caps@;
    let mut caps = StaticDisplayCapabilities::<N>::default();
    caps.manufacturer = base_caps.manufacturer;
    caps.manufacture_date = base_caps.manufacture_date;
    caps.edid_version = base_caps.edid_version;
    caps.product_code = base_caps.product_code;
    caps.serial_number = base_caps.serial_number;
    caps.serial_number_string = base_caps.serial_number_string;
    caps.display_name = base_caps.display_name;
    caps.unspecified_text = base_caps.unspecified_text;
    caps.digital = base_caps.digital;
    caps.color_bit_depth = base_caps.color_bit_depth;
    caps.chromaticity = base_caps.chromaticity;
    caps.video_interface = base_caps.video_interface;
    caps.screen_size = base_caps.screen_size;
    caps.min_v_rate = base_caps.min_v_rate;
    caps.max_v_rate = base_caps.max_v_rate;
    caps.min_h_rate_khz = base_caps.min_h_rate_khz;
    caps.max_h_rate_khz = base_caps.max_h_rate_khz;
    caps.max_pixel_clock_mhz = base_caps.max_pixel_clock_mhz;
    caps.preferred_image_size_mm = base_caps.preferred_image_size_mm;
    assert(caps.scalars().unspecified_text =~= static_scalars(b).unspecified_text);
    assert(caps.scalars() == static_scalars(b));
    let ghost start = caps.slots();
    let mut i: usize = 0;
    while i < base_caps.supported_modes.len()
        invariant
            i <= b.supported_modes.len(),
            b.supported_modes == base_caps.supported_modes@,
            caps.scalars() == static_scalars(b),
            caps.slots() == slots_with_modes(start, b.supported_modes.take(i as int)),
        decreases b.supported_modes.len() - i,
    {
        assert(b.supported_modes.take(i + 1).drop_last() =~= b.supported_modes.take(i as int));
        caps.push_mode(base_caps.supported_modes[i]);
        i = i + 1;
    }
    assert(b.supported_modes.take(i as int) =~= b.supported_modes);
    let ghost based = caps.slots();
    proof {
        lemma_slots_with_modes_bounded(start, b.supported_modes);
    }
    let ghost exts = parsed.extension_views();
    let n = parsed.extension_count();
    let mut j: usize = 0;
    while j < n
        invariant
            n == exts.len(),
            exts == parsed.extension_views(),
            j <= n,
            caps.scalars() == static_scalars(b),
            caps.slots() == extensions_into_slots(handlers@, exts, j as int, based),
            caps.num_modes <= N,
            caps.num_warnings <= 8,
        decreases n - j,
    {
        let ext = parsed.extension_at(j);
        let tag = ext[0];
        let mut k: usize = 0;
        while k < handlers.len() && handlers[k].tag() != tag
            invariant
                k <= handlers@.len(),
                forall|m: int| 0 <= m < k ==> (#[trigger] handlers@[m]).handled_tag() != tag,
            decreases handlers@.len() - k,
        {
            k = k + 1;
        }
        proof {
            lemma_first_handler(handlers@, tag, k as int, 0);
            assert(ext@ == exts[j as int]);
            assert(tag == exts[j as int][0]);
        }
        if k < handlers.len() {
            let handler = handlers[k];
            let blocks = [ext];
            assert(block_views(blocks@) =~= seq![exts[j as int]]);
            let mut ctx = StaticContext::new(&mut caps);
            handler.process(&blocks, &mut ctx);
            proof {
                lemma_context_given_up(ctx);
            }
        }
        j = j + 1;
    }
    caps
}


proof fn lemma_cea_only_handlers_keep_fields(
    entries: Seq<ExtensionMetadata>,
    n: int,
    blocks: Seq<Seq<u8>>,
    c: CapabilitiesView,
    w: Seq<EdidWarning>,
)
    requires
        n <= entries.len(),
        forall|i: int|
            0 <= i < entries.len() ==> (#[trigger] entries[i]).handler is None
                || entries[i].handler == Some(BlockHandler::Cea861),
    ensures
        extension_handlers_run(entries, n, blocks, c, w).0 == (CapabilitiesView {
            supported_modes: extension_handlers_run(entries, n, blocks, c, w).0.supported_modes,
            ..c
        }),
    decreases n,
{
    if n > 0 {
        lemma_cea_only_handlers_keep_fields(entries, n - 1, blocks, c, w);
        let (c1, w1) = extension_handlers_run(entries, n - 1, blocks, c, w);
        let m = entries[n - 1];
        let bs = blocks_with_tag(blocks, m.tag);
        lemma_cea861_keeps_other_fields(bs, bs.len() as int, c1, w1);
    }
}

/// With no extension blocks, no extension handler runs: the model and warnings stay as
/// they were.
proof fn lemma_no_extension_blocks_keep(
    entries: Seq<ExtensionMetadata>,
    n: int,
    c: CapabilitiesView,
    w: Seq<EdidWarning>,
)
    ensures
        extension_handlers_run(entries, n, Seq::empty(), c, w) == (c, w),
    decreases n,
{
    if n > 0 {
        lemma_no_extension_blocks_keep(entries, n - 1, c, w);
        assert(blocks_with_tag(Seq::<Seq<u8>>::empty(), entries[n - 1].tag).len() == 0);
    }
}

/// For an EDID of a base block alone, the allocation-free pipeline takes the same scalar
/// fields as the allocating pipeline with the base block handler, whatever extension
/// handlers the library holds (those of [`ExtensionLibrary::with_standard_handlers`]
/// among them): manufacturer, manufacture date, EDID version, product code, serial number
/// and its string, display name, unspecified text, digital flag, color depth,
/// chromaticity, video interface, screen size, rate and clock limits and preferred image
/// size. The screen size in particular is read from base block bytes 21 and 22.
pub proof fn lemma_static_scalars_match_alloc_base_only<T: EdidSource>(
    edid: &T,
    library: &ExtensionLibrary,
)
    requires
        edid.base_view().len() == 128,
        edid.extension_views().len() == 0,
        library.base_handlers@ == seq![BlockHandler::BaseBlock],
    ensures
        ({
            let (b, _w) = base_decoded(edid.base_view(), CapabilitiesView::empty(), Seq::empty());
            let s = static_scalars(b);
            let a = capabilities_of(edid, library);
            &&& s.manufacturer == a.manufacturer
            &&& s.manufacture_date == a.manufacture_date
            &&& s.edid_version == a.edid_version
            &&& s.product_code == a.product_code
            &&& s.serial_number == a.serial_number
            &&& s.serial_number_string == a.serial_number_string
            &&& s.display_name == a.display_name
            &&& s.unspecified_text == a.unspecified_text
            &&& s.digital == a.digital
            &&& s.color_bit_depth == a.color_bit_depth
            &&& s.chromaticity == a.chromaticity
            &&& s.video_interface == a.video_interface
            &&& s.screen_size == a.screen_size
            &&& s.min_v_rate == a.min_v_rate
            &&& s.max_v_rate == a.max_v_rate
            &&& s.min_h_rate_khz == a.min_h_rate_khz
            &&& s.max_h_rate_khz == a.max_h_rate_khz
            &&& s.max_pixel_clock_mhz == a.max_pixel_clock_mhz
            &&& s.preferred_image_size_mm == a.preferred_image_size_mm
            &&& s.screen_size == ScreenSize::spec_from_edid_bytes(
                edid.base_view()[21],
                edid.base_view()[22],
            )
        }),
{
    let base = edid.base_view();
    let e = CapabilitiesView::empty();
    let w0 = Seq::<EdidWarning>::empty();
    assert(library.base_handlers@.len() == 1 && library.base_handlers@[0] == BlockHandler::BaseBlock);
    assert(base_handlers_run(library.base_handlers@, 0, base, e, w0) == (e, w0));
    assert(seq![base][0] == base);
    assert(base_handlers_run(library.base_handlers@, 1, base, e, w0) == handler_run(
        BlockHandler::BaseBlock,
        seq![base],
        e,
        w0,
    ));
    let (c1, w1) = base_handlers_run(library.base_handlers@, 1, base, e, w0);
    assert(edid.extension_views() =~= Seq::<Seq<u8>>::empty());
    lemma_no_extension_blocks_keep(library.extensions@, library.extensions@.len() as int, c1, w1);
}

/// The allocation-free pipeline takes the same scalar fields from an EDID as the allocating
/// pipeline does with the base block handler and no extension handler but CTA-861's (as
/// [`ExtensionLibrary::with_standard_handlers`] registers): manufacturer, manufacture date,
/// EDID version, product code, serial number and its string, display name, unspecified
/// text, digital flag, color depth, chromaticity, video interface, screen size, rate and
/// clock limits and preferred image size. The screen size in particular is read from base
/// block bytes 21 and 22.
pub proof fn lemma_static_scalars_match_alloc<T: EdidSource>(edid: &T, library: &ExtensionLibrary)
    requires
        edid.base_view().len() == 128,
        library.base_handlers@ == seq![BlockHandler::BaseBlock],
        forall|i: int|
            0 <= i < library.extensions@.len() ==> (#[trigger] library.extensions@[i]).handler
                is None || library.extensions@[i].handler == Some(BlockHandler::Cea861),
    ensures
        ({
            let (b, _w) = base_decoded(edid.base_view(), CapabilitiesView::empty(), Seq::empty());
            let s = static_scalars(b);
            let a = capabilities_of(edid, library);
            &&& s.manufacturer == a.manufacturer
            &&& s.manufacture_date == a.manufacture_date
            &&& s.edid_version == a.edid_version
            &&& s.product_code == a.product_code
            &&& s.serial_number == a.serial_number
            &&& s.serial_number_string == a.serial_number_string
            &&& s.display_name == a.display_name
            &&& s.unspecified_text == a.unspecified_text
            &&& s.digital == a.digital
            &&& s.color_bit_depth == a.color_bit_depth
            &&& s.chromaticity == a.chromaticity
            &&& s.video_interface == a.video_interface
            &&& s.screen_size == a.screen_size
            &&& s.min_v_rate == a.min_v_rate
            &&& s.max_v_rate == a.max_v_rate
            &&& s.min_h_rate_khz == a.min_h_rate_khz
            &&& s.max_h_rate_khz == a.max_h_rate_khz
            &&& s.max_pixel_clock_mhz == a.max_pixel_clock_mhz
            &&& s.preferred_image_size_mm == a.preferred_image_size_mm
            &&& s.screen_size == ScreenSize::spec_from_edid_bytes(
                edid.base_view()[21],
                edid.base_view()[22],
            )
        }),
{
    let base = edid.base_view();
    let e = CapabilitiesView::empty();
    let w0 = Seq::<EdidWarning>::empty();
    assert(library.base_handlers@.len() == 1 && library.base_handlers@[0] == BlockHandler::BaseBlock);
    assert(base_handlers_run(library.base_handlers@, 0, base, e, w0) == (e, w0));
    assert(seq![base][0] == base);
    assert(base_handlers_run(library.base_handlers@, 1, base, e, w0) == handler_run(
        BlockHandler::BaseBlock,
        seq![base],
        e,
        w0,
    ));
    let (c1, w1) = base_handlers_run(library.base_handlers@, 1, base, e, w0);
    lemma_cea_only_handlers_keep_fields(
        library.extensions@,
        library.extensions@.len() as int,
        edid.extension_views(),
        c1,
        w1,
    );
}

} // verus!

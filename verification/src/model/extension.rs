use vstd::prelude::*;

use crate::model::capabilities::{
    same_capacity, slots_bounded, DisplayCapabilities, SlotState, StaticContext,
};
use crate::model::edid::block_views;
use crate::model::diagnostics::EdidWarning;

verus! {

/// Processes the EDID blocks it is given and fills in [`DisplayCapabilities`].
///
/// Implement this trait to add support for an extension block format or to customise base
/// block decoding. A handler gets every block that is routed to it, in stream order, and
/// pushes non-fatal issues to `warnings` rather than discarding them.
pub trait ExtensionHandler {
    /// Inspects `blocks` and updates `caps` and `warnings` accordingly.
    fn process(
        &self,
        blocks: &[[u8; 128]],
        caps: &mut DisplayCapabilities,
        warnings: &mut Vec<EdidWarning>,
    );
}

/// Processes EDID extension blocks without heap allocation, writing decoded video modes and
/// warnings through a [`StaticContext`].
///
/// An implementation states, by [`handled_tag`][Self::handled_tag] and
/// [`slots_after`][Self::slots_after], which blocks it takes and what it leaves in the mode
/// and warning slots, and keeps the counts of slots in use within the slots.
pub trait StaticExtensionHandler {
    /// The extension tag byte whose blocks this handler processes.
    spec fn handled_tag(&self) -> u8;

    /// The slots after this handler processes `blocks` starting from the slots `s`.
    spec fn slots_after(&self, blocks: Seq<Seq<u8>>, s: SlotState) -> SlotState;

    /// The extension tag byte whose blocks this handler processes.
    fn tag(&self) -> (r: u8)
        ensures
            r == self.handled_tag(),
    ;

    /// Inspects `blocks` and pushes what it decodes to `ctx`.
    fn process(&self, blocks: &[[u8; 128]], ctx: &mut StaticContext<'_>)
        ensures
            final(ctx).slots() == self.slots_after(block_views(blocks@), old(ctx).slots()),
            slots_bounded(old(ctx).slots()) ==> slots_bounded(final(ctx).slots()) && same_capacity(
                final(ctx).slots(),
                old(ctx).slots(),
            ),
            final(final(ctx).modes_ref())@ == final(old(ctx).modes_ref())@,
            *final(final(ctx).num_modes_ref()) == *final(old(ctx).num_modes_ref()),
            final(final(ctx).warnings_ref())@ == final(old(ctx).warnings_ref())@,
            *final(final(ctx).num_warnings_ref()) == *final(old(ctx).num_warnings_ref()),
    ;
}

/// Implemented by types that tell the parser which extension block tags are known.
///
/// Implemented by [`ExtensionTagRegistry`] and [`ExtensionLibrary`], so either can be
/// passed to [`parse_edid`][crate::parse_edid].
pub trait KnownExtensions {
    /// The set of tags this value recognises.
    spec fn knows(&self, tag: u8) -> bool;

    /// Returns `true` if `tag` identifies a known extension block type.
    fn is_known(&self, tag: u8) -> (r: bool)
        ensures
            r == self.knows(tag),
    ;
}

/// Whether `tag` occurs in `tags`.
fn contains_tag(tags: &Vec<u8>, tag: u8) -> (r: bool)
    ensures
        r == tags@.contains(tag),
{
    let mut i: usize = 0;
    while i < tags.len()
        invariant
            i <= tags@.len(),
            forall|j: int| 0 <= j < i ==> tags@[j] != tag,
        decreases tags@.len() - i,
    {
        if tags[i] == tag {
            return true;
        }
        i = i + 1;
    }
    false
}

/// The known-tag list after registering `tag`: unchanged when `tag` is already in it,
/// otherwise extended by `tag`.
pub open spec fn registered(tags: Seq<u8>, tag: u8) -> Seq<u8> {
    if tags.contains(tag) {
        tags
    } else {
        tags.push(tag)
    }
}

/// After registering `tag`, exactly the tags known before and `tag` itself are known.
pub proof fn lemma_register_knows(tags: Seq<u8>, tag: u8, other: u8)
    ensures
        registered(tags, tag).contains(other) <==> (tags.contains(other) || other == tag),
{
    if !tags.contains(tag) {
        let r = tags.push(tag);
        if tags.contains(other) {
            let j = choose|j: int| 0 <= j < tags.len() && tags[j] == other;
            assert(r[j] == other);
        }
        if other == tag {
            assert(r[tags.len() as int] == other);
        }
        if r.contains(other) {
            let j = choose|j: int| 0 <= j < r.len() && r[j] == other;
            if j < tags.len() {
                assert(tags[j] == other);
            }
        }
    }
}

/// Registering a tag again is the same as registering it once.
pub proof fn lemma_register_idempotent(tags: Seq<u8>, tag: u8)
    ensures
        registered(registered(tags, tag), tag) == registered(tags, tag),
{
    lemma_register_knows(tags, tag, tag);
}

/// Registering keeps the tag list free of repeats.
pub proof fn lemma_register_no_repeats(tags: Seq<u8>, tag: u8)
    requires
        tags.no_duplicates(),
    ensures
        registered(tags, tag).no_duplicates(),
{
    if !tags.contains(tag) {
        let r = tags.push(tag);
        assert forall|i: int, j: int| 0 <= i < r.len() && 0 <= j < r.len() && i != j implies r[i]
            != r[j] by {
            if i == tags.len() {
                assert(r[j] == tags[j]);
            } else if j == tags.len() {
                assert(r[i] == tags[i]);
            }
        }
    }
}

/// A lightweight set of known extension tag bytes.
pub struct ExtensionTagRegistry {
    /// The registered tag bytes, in registration order, without repetition.
    pub known_tags: Vec<u8>,
}

impl ExtensionTagRegistry {
    /// No tag is registered twice.
    pub open spec fn no_repeats(&self) -> bool {
        self.known_tags@.no_duplicates()
    }

    /// Creates an empty registry.
    pub fn new() -> (r: Self)
        ensures
            r.known_tags@ == Seq::<u8>::empty(),
    {
        ExtensionTagRegistry { known_tags: Vec::new() }
    }

    /// Adds `tag` to the set of known tags. Registering a tag again changes nothing.
    pub fn register(&mut self, tag: u8)
        ensures
            final(self).known_tags@ == registered(old(self).known_tags@, tag),
    {
        if !contains_tag(&self.known_tags, tag) {
            self.known_tags.push(tag);
        }
    }

    /// Returns `true` if `tag` has been registered.
    pub fn is_known(&self, tag: u8) -> (r: bool)
        ensures
            r == self.known_tags@.contains(tag),
    {
        contains_tag(&self.known_tags, tag)
    }
}

impl Default for ExtensionTagRegistry {
    /// An empty registry.
    fn default() -> (r: Self)
        ensures
            r.known_tags@ == Seq::<u8>::empty(),
    {
        Self::new()
    }
}

impl KnownExtensions for ExtensionTagRegistry {
    open spec fn knows(&self, tag: u8) -> bool {
        self.known_tags@.contains(tag)
    }

    fn is_known(&self, tag: u8) -> (r: bool) {
        ExtensionTagRegistry::is_known(self, tag)
    }
}

/// The block handlers this library provides.
///
/// A handler is attached to the base block or to an extension tag in an
/// [`ExtensionLibrary`], and [`capabilities_from_edid`][crate::capabilities_from_edid]
/// runs it over the matching blocks.
#[derive(Debug, Clone, Copy, PartialEq, Eq, Structural)]
pub enum BlockHandler {
    /// Decodes the 128-byte EDID base block.
    BaseBlock,
    /// Decodes DisplayID extension blocks (tag `0x70`).
    DisplayId,
    /// Decodes the video modes of CTA-861 extension blocks (tag `0x02`).
    Cea861,
}

/// Registration entry for an EDID extension block type.
#[derive(Debug, Clone)]
pub struct ExtensionMetadata {
    /// The tag byte that identifies this extension block format (e.g. `0x02` for CEA-861).
    pub tag: u8,
    /// Human-readable name used in diagnostics.
    pub display_name: String,
    /// Handler that processes blocks with this tag; `None` means the tag is recognised but
    /// no processing is performed.
    pub handler: Option<BlockHandler>,
}

/// A registry of extension block types and base block handlers.
pub struct ExtensionLibrary {
    /// Handlers run against the base block, in registration order.
    pub base_handlers: Vec<BlockHandler>,
    /// Registered extension block types, in registration order.
    pub extensions: Vec<ExtensionMetadata>,
}

impl ExtensionLibrary {
    /// The tags of the registered extension types, in registration order.
    pub open spec fn tags(&self) -> Seq<u8> {
        Seq::new(self.extensions@.len(), |i: int| self.extensions@[i].tag)
    }

    /// Creates an empty library with no handlers or registered extensions.
    pub fn new() -> (r: Self)
        ensures
            r.base_handlers@ == Seq::<BlockHandler>::empty(),
            r.extensions@ == Seq::<ExtensionMetadata>::empty(),
    {
        ExtensionLibrary { base_handlers: Vec::new(), extensions: Vec::new() }
    }

    /// Appends a handler that will be run against the base block.
    pub fn add_base_handler(&mut self, handler: BlockHandler)
        ensures
            final(self).base_handlers@ == old(self).base_handlers@.push(handler),
            final(self).extensions@ == old(self).extensions@,
    {
        self.base_handlers.push(handler);
    }

    /// Registers an extension block type. A tag that is already registered is ignored.
    pub fn register(&mut self, metadata: ExtensionMetadata)
        ensures
            final(self).base_handlers@ == old(self).base_handlers@,
            final(self).extensions@ == (if old(self).tags().contains(metadata.tag) {
                old(self).extensions@
            } else {
                old(self).extensions@.push(metadata)
            }),
    {
        let tag = metadata.tag;
        let mut i: usize = 0;
        while i < self.extensions.len()
            invariant
                i <= self.extensions@.len(),
                tag == metadata.tag,
                *self == *old(self),
                forall|j: int| 0 <= j < i ==> self.extensions@[j].tag != tag,
            decreases self.extensions@.len() - i,
        {
            if self.extensions[i].tag == tag {
                assert(self.tags()[i as int] == tag);
                assert(self.tags().contains(tag));
                return;
            }
            i = i + 1;
        }
        assert(!self.tags().contains(tag)) by {
            assert forall|j: int| 0 <= j < self.tags().len() implies self.tags()[j] != tag by {
                assert(self.extensions@[j].tag != tag);
            }
        }
        self.extensions.push(metadata);
    }

    /// Creates a library with CEA-861 (`0x02`), DisplayID (`0x70`) and Block Map (`0xF0`)
    /// registered as known tags, without handlers.
    pub fn with_standard_extensions() -> (r: Self)
        ensures
            r.base_handlers@ == Seq::<BlockHandler>::empty(),
            r.extensions@.len() == 3,
            r.tags() == seq![0x02u8, 0x70u8, 0xF0u8],
            r.extensions@[0].display_name@ == "CEA-861"@,
            r.extensions@[1].display_name@ == "DisplayID"@,
            r.extensions@[2].display_name@ == "Block Map"@,
            forall|i: int| 0 <= i < 3 ==> (#[trigger] r.extensions@[i]).handler.is_none(),
    {
        let mut lib = Self::new();
        lib.register(ExtensionMetadata { tag: 0x02, display_name: "CEA-861".to_owned(), handler: None });
        assert(lib.tags() =~= seq![0x02u8]);
        lib.register(ExtensionMetadata { tag: 0x70, display_name: "DisplayID".to_owned(), handler: None });
        assert(lib.tags() =~= seq![0x02u8, 0x70u8]);
        lib.register(ExtensionMetadata { tag: 0xF0, display_name: "Block Map".to_owned(), handler: None });
        assert(lib.tags() =~= seq![0x02u8, 0x70u8, 0xF0u8]);
        lib
    }

    /// Returns an [`ExtensionTagRegistry`] holding the tags registered in this library.
    pub fn export_tags(&self) -> (r: ExtensionTagRegistry)
        ensures
            r.known_tags@ == self.tags(),
    {
        let mut known_tags: Vec<u8> = Vec::new();
        let mut i: usize = 0;
        while i < self.extensions.len()
            invariant
                i <= self.extensions@.len(),
                known_tags@ == self.tags().take(i as int),
            decreases self.extensions@.len() - i,
        {
            known_tags.push(self.extensions[i].tag);
            i = i + 1;
            assert(known_tags@ =~= self.tags().take(i as int));
        }
        assert(self.tags().take(i as int) =~= self.tags());
        ExtensionTagRegistry { known_tags }
    }

    /// Returns `true` if an extension type with `tag` is registered.
    pub fn is_known(&self, tag: u8) -> (r: bool)
        ensures
            r == self.tags().contains(tag),
    {
        let mut i: usize = 0;
        while i < self.extensions.len()
            invariant
                i <= self.extensions@.len(),
                forall|j: int| 0 <= j < i ==> self.extensions@[j].tag != tag,
            decreases self.extensions@.len() - i,
        {
            if self.extensions[i].tag == tag {
                assert(self.tags()[i as int] == tag);
                return true;
            }
            i = i + 1;
        }
        assert forall|j: int| 0 <= j < self.tags().len() implies self.tags()[j] != tag by {
            assert(self.extensions@[j].tag != tag);
        }
        false
    }
}

/// The registry that a library exports knows exactly the tags the library knows.
pub proof fn lemma_export_keeps_known_tags(lib: ExtensionLibrary, reg: ExtensionTagRegistry, tag: u8)
    requires
        reg.known_tags@ == lib.tags(),
    ensures
        reg.knows(tag) == lib.knows(tag),
{
}

impl Default for ExtensionLibrary {
    /// An empty library.
    fn default() -> (r: Self)
        ensures
            r.base_handlers@ == Seq::<BlockHandler>::empty(),
            r.extensions@ == Seq::<ExtensionMetadata>::empty(),
    {
        Self::new()
    }
}

/// Registering an extension type keeps the registered tags free of repeats.
pub proof fn lemma_library_register_no_repeats(
    lib: ExtensionLibrary,
    metadata: ExtensionMetadata,
    after: ExtensionLibrary,
)
    requires
        lib.tags().no_duplicates(),
        after.extensions@ == (if lib.tags().contains(metadata.tag) {
            lib.extensions@
        } else {
            lib.extensions@.push(metadata)
        }),
    ensures
        after.tags().no_duplicates(),
{
    if !lib.tags().contains(metadata.tag) {
        assert(after.tags() =~= lib.tags().push(metadata.tag));
        assert forall|i: int, j: int| 0 <= i < after.tags().len() && 0 <= j < after.tags().len()
            && i != j implies after.tags()[i] != after.tags()[j] by {
            if i == lib.tags().len() {
                assert(after.tags()[j] == lib.tags()[j]);
            } else if j == lib.tags().len() {
                assert(after.tags()[i] == lib.tags()[i]);
            }
        }
    } else {
        assert(after.tags() =~= lib.tags());
    }
}

impl KnownExtensions for ExtensionLibrary {
    open spec fn knows(&self, tag: u8) -> bool {
        self.tags().contains(tag)
    }

    fn is_known(&self, tag: u8) -> (r: bool) {
        ExtensionLibrary::is_known(self, tag)
    }
}

} // verus!

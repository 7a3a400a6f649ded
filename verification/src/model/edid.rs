use vstd::prelude::*;

use crate::model::diagnostics::EdidWarning;

verus! {

/// The 128-byte blocks as byte sequences.
pub open spec fn block_views(bs: Seq<[u8; 128]>) -> Seq<Seq<u8>> {
    Seq::new(bs.len(), |i: int| bs[i]@)
}


/// EDID specification version and revision, decoded from base block bytes 18–19.
#[derive(Debug, Clone, Copy, PartialEq, Eq, Structural)]
pub struct EdidVersion {
    /// EDID version number (byte 18).
    pub version: u8,
    /// EDID revision number (byte 19).
    pub revision: u8,
}

/// Copies the 128 bytes of `bytes` starting at `start` into a block.
pub fn copy_block(bytes: &[u8], start: usize) -> (r: [u8; 128])
    requires
        start + 128 <= bytes@.len(),
    ensures
        r@ == bytes@.subrange(start as int, start + 128),
{
    let mut block = [0u8; 128];
    let len = bytes.len();
    let mut i: usize = 0;
    while i < 128
        invariant
            i <= 128,
            len == bytes@.len(),
            start + 128 <= bytes@.len(),
            block@.len() == 128,
            forall|j: int| 0 <= j < i ==> block@[j] == bytes@[start + j],
        decreases 128 - i,
    {
        block[i] = bytes[start + i];
        i = i + 1;
    }
    assert(block@ =~= bytes@.subrange(start as int, start + 128));
    block
}

/// A source of EDID blocks for [`capabilities_from_edid`][crate::capabilities_from_edid]:
/// a base block, extension blocks in stream order, and the warnings of the parse that
/// produced them.
pub trait EdidSource {
    /// The base block.
    spec fn base_view(&self) -> Seq<u8>;

    /// The extension blocks, in stream order.
    spec fn extension_views(&self) -> Seq<Seq<u8>>;

    /// The parse warnings to carry into the capabilities.
    spec fn parse_warnings_view(&self) -> Seq<EdidWarning>;

    /// The 128-byte base block.
    fn base_block(&self) -> (r: [u8; 128])
        ensures
            r@ == self.base_view(),
    ;

    /// The number of extension blocks.
    fn extension_count(&self) -> (r: usize)
        ensures
            r == self.extension_views().len(),
    ;

    /// Extension block `i`.
    fn extension_at(&self, i: usize) -> (r: [u8; 128])
        requires
            i < self.extension_views().len(),
        ensures
            r@ == self.extension_views()[i as int],
    ;

    /// The parse warnings to carry into the capabilities.
    fn parse_warnings(&self) -> (r: &[EdidWarning])
        ensures
            r@ == self.parse_warnings_view(),
    ;
}

/// The output of [`parse_edid`][crate::parse_edid]: the validated blocks of an EDID stream.
#[derive(Debug, Clone)]
pub struct ParsedEdid {
    /// The raw 128-byte base block, validated and checksum-verified.
    pub base_block: [u8; 128],
    /// Raw 128-byte extension blocks, in stream order.
    pub extensions: Vec<[u8; 128]>,
    /// Non-fatal conditions encountered during parsing.
    pub warnings: Vec<EdidWarning>,
}

impl EdidSource for ParsedEdid {
    open spec fn base_view(&self) -> Seq<u8> {
        self.base_block@
    }

    open spec fn extension_views(&self) -> Seq<Seq<u8>> {
        Seq::new(self.extensions@.len(), |i: int| self.extensions@[i]@)
    }

    open spec fn parse_warnings_view(&self) -> Seq<EdidWarning> {
        self.warnings@
    }

    fn base_block(&self) -> (r: [u8; 128]) {
        self.base_block
    }

    fn extension_count(&self) -> (r: usize) {
        self.extensions.len()
    }

    fn extension_at(&self, i: usize) -> (r: [u8; 128]) {
        self.extensions[i]
    }

    fn parse_warnings(&self) -> (r: &[EdidWarning]) {
        self.warnings.as_slice()
    }
}

/// A parsed EDID that borrows its blocks from the input bytes.
#[derive(Debug)]
pub struct ParsedEdidRef<'a> {
    /// The 128-byte base block.
    pub base_block: &'a [u8; 128],
    /// The bytes after the base block: extension block `i` is bytes `128 i .. 128 i + 128`.
    pub raw_extensions: &'a [u8],
    /// The number of extension blocks the parser kept.
    pub num_extensions: usize,
    /// Non-fatal conditions encountered during parsing.
    pub warnings: Vec<EdidWarning>,
}

impl<'a> ParsedEdidRef<'a> {
    /// The number of extension blocks present in full: at most `num_extensions`, and no
    /// more than `raw_extensions` holds.
    pub open spec fn present_blocks(&self) -> int {
        let whole = self.raw_extensions@.len() as int / 128;
        if self.num_extensions < whole {
            self.num_extensions as int
        } else {
            whole
        }
    }

    /// Returns a copy of extension block `i`, or `None` when `raw_extensions` does not
    /// hold it in full.
    pub fn extension_block(&self, i: usize) -> (r: Option<[u8; 128]>)
        ensures
            match r {
                Some(b) => 128 * i + 128 <= self.raw_extensions@.len() && b@
                    == self.raw_extensions@.subrange(128 * i, 128 * i + 128),
                None => 128 * i + 128 > self.raw_extensions@.len(),
            },
    {
        let len = self.raw_extensions.len();
        if i >= len / 128 {
            return None;
        }
        let start = i * 128;
        assert(start + 128 <= len) by (nonlinear_arith)
            requires
                i < len / 128,
                start == i * 128,
        ;
        Some(copy_block(self.raw_extensions, start))
    }

    /// The parse warnings.
    pub fn iter_warnings(&self) -> (r: &[EdidWarning])
        ensures
            r@ == self.warnings@,
    {
        self.warnings.as_slice()
    }
}

impl<'a> EdidSource for ParsedEdidRef<'a> {
    open spec fn base_view(&self) -> Seq<u8> {
        self.base_block@
    }

    open spec fn extension_views(&self) -> Seq<Seq<u8>> {
        Seq::new(
            self.present_blocks() as nat,
            |i: int| self.raw_extensions@.subrange(128 * i, 128 * i + 128),
        )
    }

    open spec fn parse_warnings_view(&self) -> Seq<EdidWarning> {
        self.warnings@
    }

    fn base_block(&self) -> (r: [u8; 128]) {
        *self.base_block
    }

    fn extension_count(&self) -> (r: usize) {
        let whole = self.raw_extensions.len() / 128;
        if self.num_extensions < whole {
            self.num_extensions
        } else {
            whole
        }
    }

    fn extension_at(&self, i: usize) -> (r: [u8; 128]) {
        let len = self.raw_extensions.len();
        let start = i * 128;
        assert(start + 128 <= len) by (nonlinear_arith)
            requires
                i < len / 128,
                start == i * 128,
        ;
        copy_block(self.raw_extensions, start)
    }

    fn parse_warnings(&self) -> (r: &[EdidWarning]) {
        self.warnings.as_slice()
    }
}

impl ParsedEdid {
    /// An owned copy of a borrowed parse: the base block, the extension blocks present in
    /// full, and the warnings.
    pub fn from_ref(r: ParsedEdidRef<'_>) -> (p: Self)
        ensures
            p.base_view() == r.base_view(),
            p.extension_views() == r.extension_views(),
            p.parse_warnings_view() == r.parse_warnings_view(),
    {
        let n = r.extension_count();
        let mut extensions: Vec<[u8; 128]> = Vec::new();
        let mut i: usize = 0;
        while i < n
            invariant
                n == r.extension_views().len(),
                i <= n,
                extensions@.len() == i,
                forall|j: int| 0 <= j < i ==> (#[trigger] extensions@[j])@ == r.extension_views()[j],
            decreases n - i,
        {
            let b = r.extension_at(i);
            extensions.push(b);
            i = i + 1;
        }
        let p = ParsedEdid { base_block: *r.base_block, extensions, warnings: r.warnings };
        assert(p.extension_views() =~= r.extension_views());
        p
    }
}

} // verus!

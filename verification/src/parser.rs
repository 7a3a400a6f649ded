use vstd::prelude::*;

use crate::model::diagnostics::{EdidError, EdidWarning};
use crate::model::edid::{copy_block, ParsedEdid};
use crate::model::extension::KnownExtensions;

verus! {

/// The fixed 8-byte magic header at offset 0 of every valid EDID stream.
pub const EDID_HEADER: [u8; 8] = [0x00, 0xFF, 0xFF, 0xFF, 0xFF, 0xFF, 0xFF, 0x00];

/// Maximum number of extension blocks the parser stores and processes.
pub const MAX_EXTENSION_BLOCKS: usize = 64;

/// The EDID header as a sequence.
pub open spec fn edid_header() -> Seq<u8> {
    seq![0x00u8, 0xFFu8, 0xFFu8, 0xFFu8, 0xFFu8, 0xFFu8, 0xFFu8, 0x00u8]
}

/// The sum of the bytes of `s`.
pub open spec fn byte_sum(s: Seq<u8>) -> nat
    decreases s.len(),
{
    if s.len() == 0 {
        0
    } else {
        byte_sum(s.drop_last()) + s.last() as nat
    }
}

/// A block whose bytes sum to zero modulo 256.
pub open spec fn checksum_valid(block: Seq<u8>) -> bool {
    byte_sum(block) % 256 == 0
}

/// The `i`-th 128-byte block of `bytes` (block 0 is the base block).
pub open spec fn edid_block(bytes: Seq<u8>, i: int) -> Seq<u8> {
    bytes.subrange(128 * i, 128 * i + 128)
}

/// The extension count declared at byte 126 of the base block.
pub open spec fn declared_extension_count(bytes: Seq<u8>) -> int {
    bytes[126] as int
}

/// The number of extension blocks the parser keeps: the declared count, capped at the limit.
pub open spec fn stored_extension_count(bytes: Seq<u8>) -> int {
    if declared_extension_count(bytes) > MAX_EXTENSION_BLOCKS {
        MAX_EXTENSION_BLOCKS as int
    } else {
        declared_extension_count(bytes)
    }
}

/// The length that the declared extension count asks for.
pub open spec fn required_length(bytes: Seq<u8>) -> int {
    128 * (1 + declared_extension_count(bytes))
}

/// The first structural check that `bytes` fails, in the order the parser makes them.
pub open spec fn parse_error(bytes: Seq<u8>) -> Option<EdidError> {
    if bytes.len() < 128 {
        Some(EdidError::InvalidLength)
    } else if bytes.subrange(0, 8) != edid_header() {
        Some(EdidError::InvalidHeader)
    } else if !checksum_valid(edid_block(bytes, 0)) {
        Some(EdidError::ChecksumMismatch)
    } else if bytes.len() < required_length(bytes) {
        Some(EdidError::InvalidLength)
    } else if exists|i: int|
        1 <= i <= stored_extension_count(bytes) && !checksum_valid(#[trigger] edid_block(bytes, i)) {
        Some(EdidError::ChecksumMismatch)
    } else {
        None
    }
}

/// One `UnknownExtension` warning for each of the first `n` extension blocks whose tag
/// `tags` does not know, in stream order.
pub open spec fn unknown_tag_warnings<T: KnownExtensions>(bytes: Seq<u8>, tags: &T, n: int) -> Seq<
    EdidWarning,
>
    decreases n,
{
    if n <= 0 {
        Seq::empty()
    } else {
        let prev = unknown_tag_warnings(bytes, tags, n - 1);
        let tag = bytes[128 * n];
        if tags.knows(tag) {
            prev
        } else {
            prev.push(EdidWarning::UnknownExtension(tag))
        }
    }
}

/// The warnings of a successful parse: a size mismatch when the input is longer than the
/// declared blocks, the block limit when more blocks are declared than kept, then one
/// warning per unknown extension tag.
pub open spec fn parse_warnings<T: KnownExtensions>(bytes: Seq<u8>, tags: &T) -> Seq<EdidWarning> {
    let size = if bytes.len() > required_length(bytes) {
        seq![
            EdidWarning::SizeMismatch {
                expected: required_length(bytes) as usize,
                actual: bytes.len() as usize,
            },
        ]
    } else {
        Seq::empty()
    };
    let limit = if declared_extension_count(bytes) > MAX_EXTENSION_BLOCKS {
        seq![
            EdidWarning::ExtensionBlockLimitReached {
                declared: declared_extension_count(bytes) as usize,
                limit: MAX_EXTENSION_BLOCKS,
            },
        ]
    } else {
        Seq::empty()
    };
    size + limit + unknown_tag_warnings(bytes, tags, stored_extension_count(bytes))
}

/// A stream the parser accepts starts with the EDID header, is long enough for every
/// declared block, and every block the parser keeps has a valid checksum.
pub proof fn lemma_accepted_blocks_valid(bytes: Seq<u8>)
    requires
        parse_error(bytes) is None,
    ensures
        bytes.subrange(0, 8) == edid_header(),
        bytes.len() >= required_length(bytes),
        forall|i: int|
            0 <= i <= stored_extension_count(bytes) ==> checksum_valid(
                #[trigger] edid_block(bytes, i),
            ),
{
    assert forall|i: int| 0 <= i <= stored_extension_count(bytes) implies checksum_valid(
        #[trigger] edid_block(bytes, i),
    ) by {
        if i >= 1 && !checksum_valid(edid_block(bytes, i)) {
            assert(exists|k: int|
                1 <= k <= stored_extension_count(bytes) && !checksum_valid(
                    #[trigger] edid_block(bytes, k),
                ));
        }
    }
}

/// With every one of the first `n` extension tags known, no unknown-tag warning arises.
pub proof fn lemma_known_tags_give_no_unknown_warnings<T: KnownExtensions>(
    bytes: Seq<u8>,
    tags: &T,
    n: int,
)
    requires
        forall|i: int| 1 <= i <= n ==> tags.knows(#[trigger] bytes[128 * i]),
    ensures
        unknown_tag_warnings(bytes, tags, n) == Seq::<EdidWarning>::empty(),
    decreases n,
{
    if n > 0 {
        lemma_known_tags_give_no_unknown_warnings(bytes, tags, n - 1);
        assert(tags.knows(bytes[128 * n]));
    }
}

/// A stream of exactly the declared length, with no more extension blocks than the parser
/// keeps and only known extension tags, parses without warnings.
pub proof fn lemma_clean_stream_no_warnings<T: KnownExtensions>(bytes: Seq<u8>, tags: &T)
    requires
        bytes.len() >= 128,
        bytes.len() == required_length(bytes),
        declared_extension_count(bytes) <= MAX_EXTENSION_BLOCKS,
        forall|i: int| 1 <= i <= declared_extension_count(bytes) ==> tags.knows(#[trigger] bytes[128 * i]),
    ensures
        parse_warnings(bytes, tags) == Seq::<EdidWarning>::empty(),
{
    lemma_known_tags_give_no_unknown_warnings(bytes, tags, stored_extension_count(bytes));
    assert(parse_warnings(bytes, tags) =~= Seq::<EdidWarning>::empty());
}

/// Whether the 128 bytes of `bytes` starting at `start` sum to zero modulo 256.
fn block_checksum_valid(bytes: &[u8], start: usize) -> (r: bool)
    requires
        start + 128 <= bytes@.len(),
    ensures
        r == checksum_valid(bytes@.subrange(start as int, start + 128)),
{
    let ghost block = bytes@.subrange(start as int, start + 128);
    let len = bytes.len();
    let mut sum: u32 = 0;
    let mut i: usize = 0;
    while i < 128
        invariant
            i <= 128,
            len == bytes@.len(),
            start + 128 <= bytes@.len(),
            block == bytes@.subrange(start as int, start + 128),
            sum == byte_sum(block.take(i as int)),
            sum <= 255 * i,
        decreases 128 - i,
    {
        assert(block.take(i + 1).drop_last() =~= block.take(i as int));
        sum = sum + bytes[start + i] as u32;
        i = i + 1;
    }
    assert(block.take(128) =~= block);
    sum % 256 == 0
}

/// Validates and decodes a raw EDID byte slice into a [`ParsedEdid`].
///
/// Checks the length, the header and the checksum of the base block and of every declared
/// extension block (at most [`MAX_EXTENSION_BLOCKS`] of them are kept). Extension blocks
/// whose tag `tags` does not know are kept but produce an
/// [`EdidWarning::UnknownExtension`] warning.
pub fn parse_edid<T: KnownExtensions>(bytes: &[u8], tags: &T) -> (r: Result<ParsedEdid, EdidError>)
    ensures
        match r {
            Err(e) => parse_error(bytes@) == Some(e),
            Ok(p) => {
                &&& parse_error(bytes@) is None
                &&& p.base_block@ == edid_block(bytes@, 0)
                &&& p.extensions@.len() == stored_extension_count(bytes@)
                &&& forall|i: int|
                    0 <= i < p.extensions@.len() ==> (#[trigger] p.extensions@[i])@ == edid_block(
                        bytes@,
                        i + 1,
                    )
                &&& p.warnings@ == parse_warnings(bytes@, tags)
            },
        },
{
    if bytes.len() < 128 {
        return Err(EdidError::InvalidLength);
    }
    if !(bytes[0] == 0x00 && bytes[1] == 0xFF && bytes[2] == 0xFF && bytes[3] == 0xFF
        && bytes[4] == 0xFF && bytes[5] == 0xFF && bytes[6] == 0xFF && bytes[7] == 0x00) {
        proof {
            if bytes@.subrange(0, 8) == edid_header() {
                assert(bytes@.subrange(0, 8)[0] == bytes@[0]);
                assert(bytes@[1] == bytes@.subrange(0, 8)[1]);
                assert(bytes@[2] == bytes@.subrange(0, 8)[2]);
                assert(bytes@[3] == bytes@.subrange(0, 8)[3]);
                assert(bytes@[4] == bytes@.subrange(0, 8)[4]);
                assert(bytes@[5] == bytes@.subrange(0, 8)[5]);
                assert(bytes@[6] == bytes@.subrange(0, 8)[6]);
                assert(bytes@[7] == bytes@.subrange(0, 8)[7]);
            }
        }
        return Err(EdidError::InvalidHeader);
    }
    assert(bytes@.subrange(0, 8) =~= edid_header());
    if !block_checksum_valid(bytes, 0) {
        return Err(EdidError::ChecksumMismatch);
    }
    let base_block = copy_block(bytes, 0);

    let extension_count = bytes[126] as usize;
    let total_required = 128 * (1 + extension_count);
    if bytes.len() < total_required {
        return Err(EdidError::InvalidLength);
    }

    let mut warnings: Vec<EdidWarning> = Vec::new();
    if bytes.len() > total_required {
        warnings.push(EdidWarning::SizeMismatch { expected: total_required, actual: bytes.len() });
    }
    let blocks_to_parse = if extension_count > MAX_EXTENSION_BLOCKS {
        warnings.push(
            EdidWarning::ExtensionBlockLimitReached {
                declared: extension_count,
                limit: MAX_EXTENSION_BLOCKS,
            },
        );
        MAX_EXTENSION_BLOCKS
    } else {
        extension_count
    };
    let ghost prefix = warnings@;
    assert(prefix + unknown_tag_warnings(bytes@, tags, 0) =~= prefix);

    let mut extensions: Vec<[u8; 128]> = Vec::new();
    let mut i: usize = 1;
    while i <= blocks_to_parse
        invariant
            1 <= i <= blocks_to_parse + 1,
            blocks_to_parse == stored_extension_count(bytes@),
            bytes@.len() >= 128,
            bytes@.subrange(0, 8) == edid_header(),
            checksum_valid(edid_block(bytes@, 0)),
            bytes@.len() >= required_length(bytes@),
            128 * (1 + blocks_to_parse) <= bytes@.len(),
            extensions@.len() == i - 1,
            forall|j: int|
                0 <= j < extensions@.len() ==> (#[trigger] extensions@[j])@ == edid_block(
                    bytes@,
                    j + 1,
                ),
            forall|j: int| 1 <= j < i ==> checksum_valid(#[trigger] edid_block(bytes@, j)),
            warnings@ == prefix + unknown_tag_warnings(bytes@, tags, i - 1),
        decreases blocks_to_parse + 1 - i,
    {
        let start = i * 128;
        if !block_checksum_valid(bytes, start) {
            assert(!checksum_valid(edid_block(bytes@, i as int)));
            return Err(EdidError::ChecksumMismatch);
        }
        let ext_block = copy_block(bytes, start);
        let tag = ext_block[0];
        assert(tag == bytes@[128 * i]);
        if !tags.is_known(tag) {
            warnings.push(EdidWarning::UnknownExtension(tag));
        }
        extensions.push(ext_block);
        i = i + 1;
        assert(warnings@ =~= prefix + unknown_tag_warnings(bytes@, tags, i - 1));
    }
    assert(parse_error(bytes@) is None);
    Ok(ParsedEdid { base_block, extensions, warnings })
}

} // verus!

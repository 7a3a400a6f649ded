use vstd::prelude::*;

verus! {

/// A known extension block type: its tag and a name for diagnostics.
#[derive(Debug, Clone, PartialEq)]
pub struct Extension {
    /// The extension block tag byte.
    pub tag: u8,
    /// Human-readable name.
    pub display_name: String,
}

/// A registry of known extension block types, keyed by tag.
pub struct ExtensionRegistry {
    /// The known extensions, in registration order, no tag twice.
    pub known_extensions: Vec<Extension>,
}

impl ExtensionRegistry {
    /// The tags of the known extensions, in order.
    pub open spec fn tags(&self) -> Seq<u8> {
        self.known_extensions@.map_values(|e: Extension| e.tag)
    }

    /// Creates a registry that knows CEA-861 (`0x02`) and DisplayID (`0x70`).
    pub fn new() -> (r: Self)
        ensures
            r.tags() == seq![0x02u8, 0x70u8],
            r.known_extensions@[0].display_name@ == "CEA-861"@,
            r.known_extensions@[1].display_name@ == "DisplayID"@,
    {
        let mut known_extensions: Vec<Extension> = Vec::new();
        known_extensions.push(Extension { tag: 0x02, display_name: "CEA-861".to_owned() });
        known_extensions.push(Extension { tag: 0x70, display_name: "DisplayID".to_owned() });
        let r = ExtensionRegistry { known_extensions };
        assert(r.tags() =~= seq![0x02u8, 0x70u8]);
        r
    }

    /// Adds `extension` unless an extension with its tag is already known.
    pub fn register(&mut self, extension: Extension)
        ensures
            final(self).known_extensions@ == (if old(self).tags().contains(extension.tag) {
                old(self).known_extensions@
            } else {
                old(self).known_extensions@.push(extension)
            }),
    {
        if !self.is_known(extension.tag) {
            self.known_extensions.push(extension);
        }
    }

    /// Returns `true` if an extension with `tag` is known.
    pub fn is_known(&self, tag: u8) -> (r: bool)
        ensures
            r == self.tags().contains(tag),
    {
        let mut i: usize = 0;
        while i < self.known_extensions.len()
            invariant
                i <= self.known_extensions@.len(),
                forall|j: int| 0 <= j < i ==> self.known_extensions@[j].tag != tag,
            decreases self.known_extensions@.len() - i,
        {
            if self.known_extensions[i].tag == tag {
                assert(self.tags()[i as int] == tag);
                return true;
            }
            i = i + 1;
        }
        assert forall|j: int| 0 <= j < self.tags().len() implies self.tags()[j] != tag by {
            assert(self.known_extensions@[j].tag != tag);
        }
        false
    }
}

} // verus!

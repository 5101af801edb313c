//! Boundary model of the controller's two resolution collaborators: the
//! association from display-tree nodes to content contexts, and the asset
//! catalog that resolves an export name within a context.

use vstd::prelude::*;

verus! {

/// The association from display-tree nodes to the content context each one
/// carries, plus the root-level fallback context. Nodes are identity keys:
/// holding one here keeps nothing alive.
#[derive(Clone, Debug, PartialEq, Eq)]
pub struct ContextResolver {
    /// Node identity paired with the content context it exposes.
    pub node_contexts: Vec<(u32, u32)>,
    /// The root-level context, available as fallback while a root is loaded.
    pub root_context: Option<u32>,
}

/// First context associated with `node` at or after index `i`.
pub open spec fn node_context_from(s: Seq<(u32, u32)>, i: int, node: u32) -> Option<u32>
    decreases s.len() - i,
{
    if i < 0 || i >= s.len() {
        None
    } else if s[i].0 == node {
        Some(s[i].1)
    } else {
        node_context_from(s, i + 1, node)
    }
}

impl ContextResolver {
    /// The content context `node` exposes, if any.
    pub open spec fn spec_node_context(self, node: u32) -> Option<u32> {
        node_context_from(self.node_contexts@, 0, node)
    }

    /// Context resolution as the controller performs it: an owner that
    /// exposes a content context wins; in every other case the root-level
    /// context is the answer, if one is loaded.
    pub open spec fn spec_resolve(self, owner: Option<u32>) -> Option<u32> {
        match owner {
            Some(node) => match self.spec_node_context(node) {
                Some(ctx) => Some(ctx),
                None => self.root_context,
            },
            None => self.root_context,
        }
    }

    /// The content context `node` exposes, if any.
    pub fn node_context(&self, node: u32) -> (r: Option<u32>)
        ensures
            r == self.spec_node_context(node),
    {
        let mut i: usize = 0;
        while i < self.node_contexts.len()
            invariant
                0 <= i <= self.node_contexts@.len(),
                node_context_from(self.node_contexts@, i as int, node)
                    == self.spec_node_context(node),
            decreases self.node_contexts@.len() - i,
        {
            if self.node_contexts[i].0 == node {
                return Some(self.node_contexts[i].1);
            }
            i = i + 1;
        }
        None
    }

    /// The content context to resolve names in, for a controller scoped to
    /// `owner`.
    pub fn resolve(&self, owner: Option<u32>) -> (r: Option<u32>)
        ensures
            r == self.spec_resolve(owner),
    {
        match owner {
            Some(node) => match self.node_context(node) {
                Some(ctx) => Some(ctx),
                None => self.root_context,
            },
            None => self.root_context,
        }
    }
}

/// An asset exported by name: either a sound, carrying its backend handle,
/// or an asset of any other kind, which name resolution rejects.
#[derive(Clone, Copy, Debug, PartialEq, Eq, Structural)]
pub enum ExportedAsset {
    Sound(u32),
    Other,
}

/// One export entry of a content context's library.
#[derive(Clone, Debug, PartialEq, Eq)]
pub struct AssetEntry {
    /// The content context whose library exports this entry.
    pub context: u32,
    /// The export name the entry is found under.
    pub name: String,
    pub asset: ExportedAsset,
}

/// The loaded-content asset catalog: every export entry of every context.
#[derive(Clone, Debug, PartialEq, Eq)]
pub struct AssetCatalog {
    pub entries: Vec<AssetEntry>,
}

/// First entry for `name` in `context` at or after index `i`.
pub open spec fn find_from(s: Seq<AssetEntry>, i: int, context: u32, name: Seq<char>) -> Option<
    ExportedAsset,
>
    decreases s.len() - i,
{
    if i < 0 || i >= s.len() {
        None
    } else if s[i].context == context && s[i].name@ == name {
        Some(s[i].asset)
    } else {
        find_from(s, i + 1, context, name)
    }
}

impl AssetCatalog {
    /// The asset the first matching export entry names, if any.
    pub open spec fn spec_find(self, context: u32, name: Seq<char>) -> Option<ExportedAsset> {
        find_from(self.entries@, 0, context, name)
    }

    /// Sound-asset resolution: the handle of the sound the name exports.
    /// A name whose first match is a non-sound asset resolves to nothing,
    /// exactly like an absent name.
    pub open spec fn spec_find_sound(self, context: u32, name: Seq<char>) -> Option<u32> {
        match self.spec_find(context, name) {
            Some(ExportedAsset::Sound(h)) => Some(h),
            _ => None,
        }
    }

    /// Look `name` up in `context`'s library, accepting only a sound asset.
    pub fn find_sound(&self, context: u32, name: &String) -> (r: Option<u32>)
        ensures
            r == self.spec_find_sound(context, name@),
    {
        let mut i: usize = 0;
        while i < self.entries.len()
            invariant
                0 <= i <= self.entries@.len(),
                find_from(self.entries@, i as int, context, name@) == self.spec_find(
                    context,
                    name@,
                ),
            decreases self.entries@.len() - i,
        {
            if self.entries[i].context == context && self.entries[i].name == *name {
                return match self.entries[i].asset {
                    ExportedAsset::Sound(h) => Some(h),
                    ExportedAsset::Other => None,
                };
            }
            i = i + 1;
        }
        None
    }
}

} // verus!

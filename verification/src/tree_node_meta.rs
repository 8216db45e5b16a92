use vstd::prelude::*;
use std::collections::HashMap;
use std::sync::Arc;
use crate::ids::TypeKey;
use crate::line_position::LinePosition;

verus! {

broadcast use vstd::std_specs::hash::group_hash_axioms;

/// Editor information about a UI tree node: where it was declared, its widget path, data attached by editor
/// extensions (one value per extension type), and whether it was modified.
pub struct TreeNodeMeta<V> {
    line_pos: LinePosition,
    path: String,
    extension_data: HashMap<TypeKey, Arc<V>>,
    changed: bool,
}

impl<V> TreeNodeMeta<V> {
    /// Extension data by extension type.
    pub closed spec fn extensions(&self) -> Map<TypeKey, Arc<V>> {
        self.extension_data@
    }

    pub closed spec fn changed(&self) -> bool {
        self.changed
    }

    pub closed spec fn path(&self) -> Seq<char> {
        self.path@
    }

    pub closed spec fn line_pos(&self) -> LinePosition {
        self.line_pos
    }

    /// Metadata for a node declared at `line_pos` with widget path `path`: no extension data, not changed.
    pub fn new(line_pos: LinePosition, path: String) -> (res: Self)
        ensures
            res.line_pos() == line_pos,
            res.path() == path@,
            res.extensions() == Map::<TypeKey, Arc<V>>::empty(),
            !res.changed(),
    {
        TreeNodeMeta { line_pos, path, extension_data: HashMap::new(), changed: false }
    }

    /// Attach (or replace) the data of extension type `ext`.
    pub fn set_extension_data(&mut self, ext: TypeKey, extension_data: V)
        ensures
            final(self).extensions() == old(self).extensions().insert(ext, Arc::new(extension_data)),
            final(self).changed() == old(self).changed(),
            final(self).path() == old(self).path(),
            final(self).line_pos() == old(self).line_pos(),
    {
        self.extension_data.insert(ext, Arc::new(extension_data));
    }

    /// Detach and return the data of extension type `ext`, if any.
    pub fn remove_extension_data(&mut self, ext: TypeKey) -> (res: Option<Arc<V>>)
        ensures
            final(self).extensions() == old(self).extensions().remove(ext),
            res == (if old(self).extensions().contains_key(ext) {
                Some(old(self).extensions()[ext])
            } else {
                None
            }),
            final(self).changed() == old(self).changed(),
            final(self).path() == old(self).path(),
            final(self).line_pos() == old(self).line_pos(),
    {
        self.extension_data.remove(&ext)
    }

    /// The data of extension type `ext`, if any.
    pub fn get_extension_data(&self, ext: TypeKey) -> (res: Option<Arc<V>>)
        ensures
            res == (if self.extensions().contains_key(ext) {
                Some(self.extensions()[ext])
            } else {
                None
            }),
    {
        match self.extension_data.get(&ext) {
            Some(d) => Some(Arc::clone(d)),
            None => None,
        }
    }

    /// Number of extensions with data.
    pub fn num_extensions(&self) -> (res: usize)
        ensures
            res == self.extensions().len(),
    {
        self.extension_data.len()
    }

    /// Mark the node as modified.
    pub fn mark_changed(&mut self)
        ensures
            final(self).changed(),
            final(self).extensions() == old(self).extensions(),
            final(self).path() == old(self).path(),
            final(self).line_pos() == old(self).line_pos(),
    {
        self.changed = true;
    }

    /// Whether the node was modified.
    pub fn is_changed(&self) -> (res: bool)
        ensures
            res == self.changed(),
    {
        self.changed
    }
}

/// The editor's record of the live UI tree nodes, keyed by entity.
pub struct TreeExt<V> {
    active_nodes: HashMap<u64, TreeNodeMeta<V>>,
}

impl<V> TreeExt<V> {
    /// Node metadata by entity.
    pub closed spec fn nodes(&self) -> Map<u64, TreeNodeMeta<V>> {
        self.active_nodes@
    }

    /// No nodes.
    pub fn new() -> (res: Self)
        ensures
            res.nodes() == Map::<u64, TreeNodeMeta<V>>::empty(),
    {
        TreeExt { active_nodes: HashMap::new() }
    }

    /// Record a new tree node `entity` declared at `line_pos` with widget path `path` (replacing any earlier record).
    pub fn add_node(&mut self, entity: u64, line_pos: LinePosition, path: String)
        ensures
            final(self).nodes().dom() == old(self).nodes().dom().insert(entity),
            forall|k: u64| k != entity && old(self).nodes().contains_key(k) ==> #[trigger] final(self).nodes()[k]
                == old(self).nodes()[k],
            final(self).nodes()[entity].line_pos() == line_pos,
            final(self).nodes()[entity].path() == path@,
            final(self).nodes()[entity].extensions() == Map::<TypeKey, Arc<V>>::empty(),
            !final(self).nodes()[entity].changed(),
    {
        self.active_nodes.insert(entity, TreeNodeMeta::new(line_pos, path));
    }

    /// Forget the dead tree node `entity`.
    pub fn remove_node(&mut self, entity: u64)
        ensures
            final(self).nodes() == old(self).nodes().remove(entity),
    {
        self.active_nodes.remove(&entity);
    }

    /// Whether `entity` is a recorded tree node.
    pub fn contains_node(&self, entity: u64) -> (res: bool)
        ensures
            res == self.nodes().contains_key(entity),
    {
        self.active_nodes.contains_key(&entity)
    }

    /// Attach the data of extension type `ext` to the node `entity`; returns false (and changes nothing) if the node
    /// is not recorded.
    pub fn set_node_extension_data(&mut self, entity: u64, ext: TypeKey, extension_data: V) -> (res: bool)
        ensures
            res == old(self).nodes().contains_key(entity),
            final(self).nodes().dom() == old(self).nodes().dom(),
            forall|k: u64| k != entity && old(self).nodes().contains_key(k) ==> #[trigger] final(self).nodes()[k]
                == old(self).nodes()[k],
            res ==> final(self).nodes()[entity].extensions() == old(self).nodes()[entity].extensions().insert(
                ext,
                Arc::new(extension_data),
            ),
            res ==> final(self).nodes()[entity].changed() == old(self).nodes()[entity].changed(),
            res ==> final(self).nodes()[entity].path() == old(self).nodes()[entity].path(),
            res ==> final(self).nodes()[entity].line_pos() == old(self).nodes()[entity].line_pos(),
            !res ==> final(self).nodes() == old(self).nodes(),
    {
        match self.active_nodes.remove(&entity) {
            Some(mut node) => {
                node.set_extension_data(ext, extension_data);
                self.active_nodes.insert(entity, node);
                assert(self.active_nodes@.dom() =~= old(self).active_nodes@.dom());
                true
            },
            None => {
                assert(self.active_nodes@ =~= old(self).active_nodes@);
                false
            },
        }
    }

    /// Detach the data of extension type `ext` from the node `entity`; returns false (and changes nothing) if the
    /// node is not recorded.
    pub fn remove_node_extension_data(&mut self, entity: u64, ext: TypeKey) -> (res: bool)
        ensures
            res == old(self).nodes().contains_key(entity),
            final(self).nodes().dom() == old(self).nodes().dom(),
            forall|k: u64| k != entity && old(self).nodes().contains_key(k) ==> #[trigger] final(self).nodes()[k]
                == old(self).nodes()[k],
            res ==> final(self).nodes()[entity].extensions() == old(self).nodes()[entity].extensions().remove(ext),
            res ==> final(self).nodes()[entity].changed() == old(self).nodes()[entity].changed(),
            res ==> final(self).nodes()[entity].path() == old(self).nodes()[entity].path(),
            res ==> final(self).nodes()[entity].line_pos() == old(self).nodes()[entity].line_pos(),
            !res ==> final(self).nodes() == old(self).nodes(),
    {
        match self.active_nodes.remove(&entity) {
            Some(mut node) => {
                let _ = node.remove_extension_data(ext);
                self.active_nodes.insert(entity, node);
                assert(self.active_nodes@.dom() =~= old(self).active_nodes@.dom());
                true
            },
            None => {
                assert(self.active_nodes@ =~= old(self).active_nodes@);
                false
            },
        }
    }
}

} // verus!

//! A window's stack of open dialogs, and where focus goes when one closes.
use vstd::prelude::*;

verus! {

/// An open dialog: its id and what held focus before it opened.
pub struct DialogLayer<F> {
    pub id: usize,
    pub previous_focus: Option<F>,
}

/// Ids increase from the bottom layer up and stay below `next_id`.
pub open spec fn layers_ordered<F>(layers: Seq<DialogLayer<F>>, next_id: int) -> bool {
    &&& forall|i: int, j: int| 0 <= i < j < layers.len() ==> layers[i].id < layers[j].id
    &&& forall|i: int| 0 <= i < layers.len() ==> layers[i].id < next_id
}

/// Index of the layer with `id`.
pub open spec fn layer_index<F>(layers: Seq<DialogLayer<F>>, id: usize) -> Option<int> {
    if exists|i: int| 0 <= i < layers.len() && layers[i].id == id {
        Some(choose|i: int| 0 <= i < layers.len() && layers[i].id == id)
    } else {
        None
    }
}

/// How an open dialog is shown: its id, its layer counted from the bottom
/// (each layer paints above the one below), and whether it is the topmost
/// layer, the only one that shows the scrim, answers backdrop presses and
/// receives Escape.
#[derive(Debug, Clone, Copy, PartialEq, Eq, Structural)]
pub struct LayerConfig {
    pub id: usize,
    pub layer: usize,
    pub topmost: bool,
}

/// The open dialogs of a window, bottom first; `F` is a focus holder.
pub struct DialogStack<F> {
    entries: Vec<DialogLayer<F>>,
    next_id: usize,
}

impl<F> DialogStack<F> {
    pub closed spec fn layers(&self) -> Seq<DialogLayer<F>> {
        self.entries@
    }

    pub closed spec fn next_id_spec(&self) -> int {
        self.next_id as int
    }

    /// Layer ids increase upwards and are never handed out twice.
    pub closed spec fn wf(&self) -> bool {
        layers_ordered(self.entries@, self.next_id as int)
    }

    /// No dialog open; the first gets id 0.
    pub fn new() -> (r: Self)
        ensures
            r.wf(),
            r.layers() == Seq::<DialogLayer<F>>::empty(),
            r.next_id_spec() == 0,
    {
        DialogStack { entries: Vec::new(), next_id: 0 }
    }

    /// The id the next dialog gets.
    pub fn next_id(&self) -> (r: usize)
        ensures
            r == self.next_id_spec(),
    {
        self.next_id
    }

    /// Number of open dialogs.
    pub fn len(&self) -> (r: usize)
        ensures
            r == self.layers().len(),
    {
        self.entries.len()
    }

    /// Whether no dialog is open.
    pub fn is_empty(&self) -> (r: bool)
        ensures
            r == (self.layers().len() == 0),
    {
        self.entries.len() == 0
    }

    /// The ids of the open dialogs, bottom first.
    pub fn ids(&self) -> (r: Vec<usize>)
        ensures
            r@.len() == self.layers().len(),
            forall|i: int| 0 <= i < r@.len() ==> #[trigger] r@[i] == self.layers()[i].id,
    {
        let mut out: Vec<usize> = Vec::new();
        let mut i: usize = 0;
        while i < self.entries.len()
            invariant
                i <= self.entries@.len(),
                out@.len() == i,
                forall|k: int| 0 <= k < i ==> #[trigger] out@[k] == self.entries@[k].id,
            decreases self.entries@.len() - i,
        {
            out.push(self.entries[i].id);
            i += 1;
        }
        out
    }

    /// How each open dialog is shown, bottom first: the `i`-th is on layer
    /// `i`, and only the last is topmost.
    pub fn layer_configs(&self) -> (r: Vec<LayerConfig>)
        ensures
            r@.len() == self.layers().len(),
            forall|i: int|
                0 <= i < r@.len() ==> #[trigger] r@[i] == (LayerConfig {
                    id: self.layers()[i].id,
                    layer: i as usize,
                    topmost: i == self.layers().len() - 1,
                }),
    {
        let n = self.entries.len();
        let mut out: Vec<LayerConfig> = Vec::new();
        let mut i: usize = 0;
        while i < n
            invariant
                n == self.entries@.len(),
                i <= n,
                out@.len() == i,
                forall|k: int|
                    0 <= k < i ==> #[trigger] out@[k] == (LayerConfig {
                        id: self.entries@[k].id,
                        layer: k as usize,
                        topmost: k == n - 1,
                    }),
            decreases n - i,
        {
            out.push(LayerConfig { id: self.entries[i].id, layer: i, topmost: i + 1 == n });
            i += 1;
        }
        out
    }

    /// Opens a dialog on top, remembering `previous_focus` to return focus
    /// to when it closes; returns its id.
    pub fn open(&mut self, previous_focus: Option<F>) -> (id: usize)
        requires
            old(self).wf(),
            old(self).next_id_spec() < usize::MAX,
        ensures
            final(self).wf(),
            id == old(self).next_id_spec(),
            final(self).next_id_spec() == old(self).next_id_spec() + 1,
            final(self).layers() == old(self).layers().push(DialogLayer { id, previous_focus }),
    {
        let id = self.next_id;
        self.next_id = id + 1;
        self.entries.push(DialogLayer { id, previous_focus });
        id
    }

    /// Closes the top dialog; returns the focus holder to restore, if any.
    pub fn close_top(&mut self) -> (r: Option<F>)
        requires
            old(self).wf(),
        ensures
            final(self).wf(),
            final(self).next_id_spec() == old(self).next_id_spec(),
            old(self).layers().len() == 0 ==> r is None && final(self).layers() == old(
                self,
            ).layers(),
            old(self).layers().len() > 0 ==> r == old(self).layers().last().previous_focus
                && final(self).layers() == old(self).layers().drop_last(),
    {
        match self.entries.pop() {
            Some(layer) => layer.previous_focus,
            None => None,
        }
    }

    /// Closes every dialog; returns what held focus before the bottom one
    /// opened, if any.
    pub fn close_all(&mut self) -> (r: Option<F>)
        requires
            old(self).wf(),
        ensures
            final(self).wf(),
            final(self).next_id_spec() == old(self).next_id_spec(),
            final(self).layers() == Seq::<DialogLayer<F>>::empty(),
            old(self).layers().len() == 0 ==> r is None,
            old(self).layers().len() > 0 ==> r == old(self).layers()[0].previous_focus,
    {
        if self.entries.len() == 0 {
            return None;
        }
        let bottom = self.entries.remove(0);
        self.entries.clear();
        bottom.previous_focus
    }

    /// Removes the dialog `id` after it closed itself; returns the focus
    /// holder to restore when it was the top dialog.
    pub fn remove(&mut self, id: usize) -> (r: Option<F>)
        requires
            old(self).wf(),
        ensures
            final(self).wf(),
            final(self).next_id_spec() == old(self).next_id_spec(),
            match layer_index(old(self).layers(), id) {
                None => r is None && final(self).layers() == old(self).layers(),
                Some(i) => {
                    &&& final(self).layers() == old(self).layers().remove(i)
                    &&& r == if i == old(self).layers().len() - 1 {
                        old(self).layers()[i].previous_focus
                    } else {
                        None
                    }
                },
            },
    {
        let ghost layers = self.entries@;
        proof {
            lemma_layer_index(layers, id);
        }
        let mut position: usize = 0;
        while position < self.entries.len()
            invariant
                self.entries@ == layers,
                position <= layers.len(),
                forall|k: int| 0 <= k < position ==> layers[k].id != id,
            ensures
                position <= layers.len(),
                position < layers.len() ==> layers[position as int].id == id,
                forall|k: int| 0 <= k < position ==> layers[k].id != id,
            decreases layers.len() - position,
        {
            if self.entries[position].id == id {
                break;
            }
            position += 1;
        }
        if position == self.entries.len() {
            return None;
        }
        let layer = self.entries.remove(position);
        assert(layer_index(layers, id) == Some(position as int));
        proof {
            let rest = self.entries@;
            assert forall|i: int, j: int| 0 <= i < j < rest.len() implies rest[i].id
                < rest[j].id by {
                let a = if i < position { i } else { i + 1 };
                let b = if j < position { j } else { j + 1 };
                assert(rest[i] == layers[a] && rest[j] == layers[b]);
            }
            assert forall|i: int| 0 <= i < rest.len() implies rest[i].id < self.next_id by {
                let a = if i < position { i } else { i + 1 };
                assert(rest[i] == layers[a]);
            }
        }
        if position == self.entries.len() {
            layer.previous_focus
        } else {
            None
        }
    }
}

/// Ids are unique, so the layer found is the one at any position with the
/// id.
proof fn lemma_layer_index<F>(layers: Seq<DialogLayer<F>>, id: usize)
    requires
        forall|i: int, j: int| 0 <= i < j < layers.len() ==> layers[i].id < layers[j].id,
    ensures
        layer_index(layers, id) matches Some(i) ==> 0 <= i < layers.len() && layers[i].id == id,
        forall|k: int|
            0 <= k < layers.len() && layers[k].id == id ==> layer_index(layers, id) == Some(k),
{
    if exists|i: int| 0 <= i < layers.len() && layers[i].id == id {
        let w = choose|i: int| 0 <= i < layers.len() && layers[i].id == id;
        assert forall|k: int| 0 <= k < layers.len() && layers[k].id == id implies k == w by {
            if k < w {
                assert(layers[k].id < layers[w].id);
            } else if w < k {
                assert(layers[w].id < layers[k].id);
            }
        }
    }
}

/// Closing the top dialog right after opening one gives back the focus
/// holder it was opened with and leaves the stack as it was.
pub proof fn law_close_top_undoes_open<F>(
    layers: Seq<DialogLayer<F>>,
    id: usize,
    previous_focus: Option<F>,
)
    ensures
        layers.push(DialogLayer { id, previous_focus }).drop_last() == layers,
        layers.push(DialogLayer { id, previous_focus }).last().previous_focus == previous_focus,
{
    assert(layers.push(DialogLayer { id, previous_focus }).drop_last() =~= layers);
}

} // verus!

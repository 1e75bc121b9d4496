//! Per-entity history of a component's value at each past paint layer,
//! indexable by absolute layer index.

use vstd::prelude::*;
use crate::layer_distance::LayerIndex;

verus! {

/// The recorded values of one component, one entry per paint layer since
/// `initial_layer`: entry `k` holds the value at layer
/// `initial_layer + k`.
pub struct PaintableHistory<C> {
    /// The recorded values, oldest first.
    pub history: Vec<C>,
    /// The layer the first entry belongs to.
    pub initial_layer: LayerIndex,
}

impl<C> PaintableHistory<C> {
    /// An empty history starting at the given layer.
    pub fn new_with_initial_layer(initial_layer: LayerIndex) -> (r: PaintableHistory<C>)
        ensures
            r.history@.len() == 0,
            r.initial_layer == initial_layer,
    {
        PaintableHistory { initial_layer, history: Vec::new() }
    }

    /// The value recorded at an absolute layer index: `Some` exactly for
    /// layers from the initial one up to the last recorded one.
    pub fn get(&self, absolute: LayerIndex) -> (r: Option<&C>)
        ensures
            r is Some <==> (self.initial_layer.0 <= absolute.0 && absolute.0
                - self.initial_layer.0 < self.history@.len()),
            r is Some ==> *r->Some_0 == self.history@[absolute.0 - self.initial_layer.0],
    {
        if absolute.0 < self.initial_layer.0 {
            return None;
        }
        let relative: usize = (absolute.0 - self.initial_layer.0) as usize;
        if relative < self.history.len() {
            Some(&self.history[relative])
        } else {
            None
        }
    }

    /// Record the component's value for the next layer.
    pub fn record(&mut self, value: C)
        ensures
            final(self).initial_layer == old(self).initial_layer,
            final(self).history@ == old(self).history@.push(value),
    {
        self.history.push(value);
    }
}

} // verus!

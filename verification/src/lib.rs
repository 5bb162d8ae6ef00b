//! Dispatch core of a component-tree UI for a resource-constrained device:
//! a tree of drawable components receives events top-down and propagates
//! repaint requests bottom-up, with zero dynamic allocation and O(1)
//! bookkeeping per node.

pub mod component;
pub mod ctx;
pub mod time;
pub mod token;

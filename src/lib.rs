//! A growable, contiguous sequence container with an explicit, exactly
//! managed capacity.
mod buffer;
mod iter;
mod laws;

pub use buffer::{cap_after_push, next_cap, room_for_push, RawVec};
pub use iter::{Iter, IterMut};
pub use laws::{
    after_pushes, cap_after_pushes, lemma_cap_monotone, lemma_get_agrees_with_index,
    lemma_pushes_in_order,
};

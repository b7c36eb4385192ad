//! A wrapper that hides a value's textual rendering behind a fixed placeholder,
//! while reads, writes, comparisons and hashing go straight to the value.

mod strategy;
mod wrapper;

pub use strategy::{
    lemma_ellipses_is_fixed, lemma_type_info_ignores_value, no_debug_text, Ellipses, Msg, WithTypeInfo,
};
pub use wrapper::{
    lemma_eq_by_value, lemma_order_by_value, lemma_read_after_wrap, no_display_text, NoDebug,
};

//! A uniform representation of a row's identifying key: a key of one,
//! two or three columns, convertible from raw names and from named
//! column values, and renderable as bare identifier text.

mod identity;
mod laws;

pub use identity::ColumnTrait;
pub use identity::EntityTrait;
pub use identity::IdenStatic;
pub use identity::Identity;
pub use identity::IdentityOf;
pub use identity::IntoIdentity;
pub use laws::lemma_arity_is_part_count;
pub use laws::lemma_binary_order_sensitive;
pub use laws::lemma_binary_render;
pub use laws::lemma_render_is_flatten_of_parts;
pub use laws::lemma_ternary_render;
pub use laws::lemma_text_conversions_agree;
pub use laws::lemma_unary_render;

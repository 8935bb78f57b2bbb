//! The engine's cross-cutting guarantees, stated and proved once: the
//! attribute-precedence chain, the width-arithmetic formula, and balance of
//! the conditional-comment protocol. The slot-synthesis guarantee lives
//! with the accordion kind, and uniqueness of generated ids with the
//! header.

use vstd::prelude::*;
use crate::attributes::resolve_spec;
use crate::buffer::MarkerCounts;
use crate::wrapper::{
    WrapperView, current_width_spec, border_horizontal_spec, padding_horizontal_spec,
};

verus! {

/// Attribute precedence: for any name set at two or more tiers
/// simultaneously, resolution returns the extra-attribute value if
/// present, else the raw value, else the default, else nothing — never a
/// mix.
pub proof fn lemma_attribute_precedence(
    extra: Map<Seq<char>, Seq<char>>,
    raw: Map<Seq<char>, Seq<char>>,
    default: Option<Seq<char>>,
    name: Seq<char>,
)
    ensures
        extra.contains_key(name) ==> resolve_spec(extra, raw, default, name) == Some(extra[name]),
        !extra.contains_key(name) && raw.contains_key(name) ==> resolve_spec(
            extra,
            raw,
            default,
            name,
        ) == Some(raw[name]),
        !extra.contains_key(name) && !raw.contains_key(name) ==> resolve_spec(
            extra,
            raw,
            default,
            name,
        ) == default,
{
}

/// Width arithmetic: for all border/padding widths summing to at most the
/// container width, the current width is exactly
/// `container - border - padding`; it floors at zero past the container
/// width, and is unconstrained when no container width was ever set.
pub proof fn lemma_width_arithmetic(
    w: WrapperView,
    extra: Map<Seq<char>, Seq<char>>,
    container: Option<u32>,
)
    ensures
        container is None ==> current_width_spec(w, extra, container) is None,
        container matches Some(cw) ==> current_width_spec(w, extra, container) == Some(
            (if border_horizontal_spec(w, extra) + padding_horizontal_spec(w, extra) <= cw {
                ((cw - border_horizontal_spec(w, extra) - padding_horizontal_spec(
                    w,
                    extra,
                )) as u32)
            } else {
                0u32
            }),
        ),
{
}

/// Conditional balance: a buffer whose regions were balanced stays
/// balanced across any writer that opens as many regions of each family as
/// it closes; in particular a whole render pass, starting from the empty
/// buffer, ends with every opened region closed.
pub proof fn lemma_conditional_balance(pre: MarkerCounts, post: MarkerCounts)
    requires
        pre.balanced(),
        MarkerCounts::same_delta(pre, post),
    ensures
        post.balanced(),
{
}

} // verus!

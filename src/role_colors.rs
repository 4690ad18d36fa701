use vstd::prelude::*;

verus! {

/// Colors of a role.
///
/// `primary_color` is always filled. The other two can only be non-null
/// when the guild has the enhanced role colors feature: a secondary color
/// makes the role a gradient, a tertiary one turns it holographic.
#[derive(Clone, Debug, PartialEq, Eq, Hash)]
pub struct RoleColors {
    /// Primary color, a hexadecimal RGB value; `0x000000` is ignored.
    pub primary_color: u32,
    /// Secondary color of the gradient, a hexadecimal RGB value.
    pub secondary_color: Option<u32>,
    /// Tertiary color, which makes the gradient holographic.
    pub tertiary_color: Option<u32>,
}

} // verus!

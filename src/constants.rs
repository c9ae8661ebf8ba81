use vstd::prelude::*;

verus! {

/// Bytes that precede every stored account: the account-type tag.
pub const DISCRIMINATOR: usize = 8;

/// The largest number of members a registry (or a spending limit) may list.
pub const MAX_MEMBERS: usize = 10;

} // verus!

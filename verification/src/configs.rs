//! The persisted configuration list's one rule: configurations are
//! deduplicated on `(mode, tunnel_address, target_address)`. Reading and
//! writing the store itself happens outside.

use vstd::prelude::*;
use crate::command::{ConfigView, NodePassConfig};
use crate::text::str_eq;

verus! {

/// Two configurations name the same tunnel.
pub open spec fn same_key(a: ConfigView, b: ConfigView) -> bool {
    a.mode == b.mode && a.tunnel_addr == b.tunnel_addr && a.target_addr == b.target_addr
}

/// The list already holds a configuration with this key.
pub open spec fn has_key(s: Seq<NodePassConfig>, c: ConfigView) -> bool {
    exists|i: int| 0 <= i < s.len() && same_key((#[trigger] s[i])@, c)
}

/// Append the configuration unless one with the same key is already
/// present; the list is never reordered and nothing else changes.
pub fn add_config(configs: &mut Vec<NodePassConfig>, c: &NodePassConfig)
    ensures
        has_key(old(configs)@, c@) ==> final(configs)@ == old(configs)@,
        !has_key(old(configs)@, c@) ==> final(configs)@.len() == old(configs)@.len() + 1
            && final(configs)@.subrange(0, old(configs)@.len() as int) == old(configs)@
            && final(configs)@.last()@ == c@,
{
    let mut i: usize = 0;
    while i < configs.len()
        invariant
            i <= configs@.len(),
            configs@ == old(configs)@,
            forall|k: int| 0 <= k < i ==> !same_key((#[trigger] configs@[k])@, c@),
        decreases configs@.len() - i,
    {
        let same = str_eq(configs[i].mode.as_str(), c.mode.as_str()) && str_eq(
            configs[i].tunnel_addr.as_str(),
            c.tunnel_addr.as_str(),
        ) && str_eq(configs[i].target_addr.as_str(), c.target_addr.as_str());
        if same {
            assert(same_key(configs@[i as int]@, c@));
            return;
        }
        i = i + 1;
    }
    assert(!has_key(configs@, c@));
    configs.push(c.duplicate());
    assert(final(configs)@.subrange(0, old(configs)@.len() as int) =~= old(configs)@);
}

} // verus!

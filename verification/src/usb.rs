//! Picking a probe's CMSIS-DAP interface out of its USB descriptors.

use vstd::prelude::*;

verus! {

/// The text that marks a CMSIS-DAP interface in its interface string.
pub open spec fn dap_marker() -> Seq<char> {
    seq!['C', 'M', 'S', 'I', 'S', '-', 'D', 'A', 'P']
}

/// Whether the interface string `name` holds "CMSIS-DAP".
pub open spec fn spec_names_dap(name: Seq<char>) -> bool {
    exists|i: int| 0 <= i && i + 9 <= name.len() && #[trigger] name.subrange(i, i + 9) == dap_marker()
}

/// Whether the nine characters of `name` from `i` on are "CMSIS-DAP".
fn marker_at(name: &str, n: usize, i: usize) -> (r: bool)
    requires
        n == name@.len(),
        i + 9 <= n,
    ensures
        r == (name@.subrange(i as int, i + 9) == dap_marker()),
{
    let marker: [char; 9] = ['C', 'M', 'S', 'I', 'S', '-', 'D', 'A', 'P'];
    assert(marker@ =~= dap_marker());
    let mut j: usize = 0;
    while j < 9
        invariant
            n == name@.len(),
            i + 9 <= n,
            j <= 9,
            marker@ == dap_marker(),
            forall|k: int| 0 <= k < j ==> name@[i + k] == dap_marker()[k],
        decreases 9 - j,
    {
        if name.get_char(i + j) != marker[j] {
            assert(name@.subrange(i as int, i + 9)[j as int] != dap_marker()[j as int]);
            return false;
        }
        j = j + 1;
    }
    assert(name@.subrange(i as int, i + 9) =~= dap_marker());
    true
}

/// Whether the interface string `name` holds "CMSIS-DAP".
pub fn names_dap(name: &str) -> (r: bool)
    ensures
        r == spec_names_dap(name@),
{
    let n = name.unicode_len();
    if n < 9 {
        return false;
    }
    let mut i: usize = 0;
    while i <= n - 9
        invariant
            n == name@.len(),
            n >= 9,
            i <= n - 8,
            forall|k: int| 0 <= k < i ==> #[trigger] name@.subrange(k, k + 9) != dap_marker(),
        decreases n - i,
    {
        if marker_at(name, n, i) {
            return true;
        }
        i = i + 1;
    }
    assert forall|k: int| 0 <= k && k + 9 <= name@.len() implies #[trigger] name@.subrange(k, k + 9)
        != dap_marker() by {
        assert(k < i);
    }
    false
}

/// What an interface descriptor says of one of its endpoints.
#[derive(Clone, Copy, Debug, PartialEq, Eq, Structural)]
pub struct EndpointDesc {
    /// A bulk endpoint.
    pub bulk: bool,
    /// An IN (device to host) endpoint.
    pub dir_in: bool,
    pub address: u8,
    pub max_packet_size: u16,
}

/// The endpoints through which a probe is driven.
#[derive(Clone, Copy, Debug, PartialEq, Eq, Structural)]
pub struct ProbeEndpoints {
    /// The bulk OUT endpoint that commands go to.
    pub tx_ep: u8,
    /// The bulk IN endpoint that replies come from.
    pub rx_ep: u8,
    /// The largest packet the IN endpoint gives.
    pub max_pkt_sz: usize,
}

/// A CMSIS-DAP interface has exactly two endpoints, bulk OUT then bulk IN.
pub open spec fn spec_dap_endpoints(eps: Seq<EndpointDesc>) -> Option<ProbeEndpoints> {
    if eps.len() == 2 && eps[0].bulk && !eps[0].dir_in && eps[1].bulk && eps[1].dir_in {
        Some(
            ProbeEndpoints {
                tx_ep: eps[0].address,
                rx_ep: eps[1].address,
                max_pkt_sz: eps[1].max_packet_size as usize,
            },
        )
    } else {
        None
    }
}

/// The endpoints of a CMSIS-DAP interface with these endpoint descriptors,
/// or `None` when they are not the two a CMSIS-DAP interface has.
pub fn dap_endpoints(eps: &[EndpointDesc]) -> (r: Option<ProbeEndpoints>)
    ensures
        r == spec_dap_endpoints(eps@),
{
    if eps.len() != 2 {
        return None;
    }
    if !eps[0].bulk || eps[0].dir_in {
        return None;
    }
    if !eps[1].bulk || !eps[1].dir_in {
        return None;
    }
    Some(
        ProbeEndpoints {
            tx_ep: eps[0].address,
            rx_ep: eps[1].address,
            max_pkt_sz: eps[1].max_packet_size as usize,
        },
    )
}

} // verus!

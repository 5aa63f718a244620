//! Enumeration of the local addresses to advertise: the machine's interfaces
//! are listed by `if_addrs`, and the loopback ones are filtered out here.
use vstd::prelude::*;

verus! {

/// The addresses of `s`, in order, whose loopback flag is false.
pub open spec fn non_loopback_addresses(s: Seq<(Seq<char>, bool)>) -> Seq<Seq<char>>
    decreases s.len(),
{
    if s.len() == 0 {
        Seq::empty()
    } else if !s.last().1 {
        non_loopback_addresses(s.drop_last()).push(s.last().0)
    } else {
        non_loopback_addresses(s.drop_last())
    }
}

/// Relies on `if_addrs::get_if_addrs` to list the machine's interfaces; each
/// is reported as its address's text together with its loopback flag. The
/// outcome depends on the machine's interfaces; an enumeration failure
/// reports no interfaces at all.
#[verifier::external_body]
fn interface_addresses() -> Vec<(String, bool)> {
    match if_addrs::get_if_addrs() {
        Ok(interfaces) => interfaces.into_iter().map(
            |i| (i.ip().to_string(), i.is_loopback()),
        ).collect(),
        Err(_) => Vec::new(),
    }
}

/// Keeps the addresses, in order, whose loopback flag is false.
pub fn filter_non_loopback(candidates: &Vec<(String, bool)>) -> (r: Vec<String>)
    ensures
        r.deep_view() == non_loopback_addresses(candidates.deep_view()),
{
    let mut out: Vec<String> = Vec::new();
    let mut i: usize = 0;
    while i < candidates.len()
        invariant
            i <= candidates@.len(),
            out.deep_view() == non_loopback_addresses(candidates.deep_view().take(i as int)),
        decreases candidates@.len() - i,
    {
        proof {
            let t1 = candidates.deep_view().take(i + 1);
            assert(t1.drop_last() =~= candidates.deep_view().take(i as int));
            assert(t1.last() == candidates.deep_view()[i as int]);
        }
        let loopback = candidates[i].1;
        if !loopback {
            let addr = candidates[i].0.clone();
            out.push(addr);
            proof {
                assert(out.deep_view() =~= non_loopback_addresses(
                    candidates.deep_view().take(i + 1),
                ));
            }
        }
        i = i + 1;
    }
    proof {
        assert(candidates.deep_view().take(candidates@.len() as int) =~= candidates.deep_view());
    }
    out
}

/// The non-loopback local addresses, as text, in the order the machine lists
/// its interfaces. What the machine lists cannot be pinned down here; the
/// functions that consume the list state their behaviour for every value of
/// it.
pub fn local_addresses() -> Vec<String> {
    let candidates = interface_addresses();
    filter_non_loopback(&candidates)
}

} // verus!

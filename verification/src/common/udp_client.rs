use vstd::prelude::*;

verus! {

/// Whether position `k` holds an IPv6 address.
pub open spec fn ipv6_at(is_ipv6: Seq<bool>) -> spec_fn(int) -> bool {
    |k: int| 0 <= k < is_ipv6.len() && is_ipv6[k]
}

/// Whether position `k` holds an address that is not IPv6.
pub open spec fn other_at(is_ipv6: Seq<bool>) -> spec_fn(int) -> bool {
    |k: int| 0 <= k < is_ipv6.len() && !is_ipv6[k]
}

/// The positions `0 .. n`.
pub open spec fn positions(n: nat) -> Seq<int> {
    Seq::new(n, |i: int| i)
}

/// The order in which resolved addresses are tried as a destination, given whether each is
/// IPv6: the IPv6 ones first, then the others, each group in the order resolved.
pub open spec fn destination_order(is_ipv6: Seq<bool>) -> Seq<int> {
    positions(is_ipv6.len()).filter(ipv6_at(is_ipv6)) + positions(is_ipv6.len()).filter(
        other_at(is_ipv6),
    )
}

/// The positions of resolved addresses in the order they are tried.
pub fn try_order(is_ipv6: &Vec<bool>) -> (out: Vec<usize>)
    ensures
        out@.map_values(|i: usize| i as int) == destination_order(is_ipv6@),
{
    let ghost all = positions(is_ipv6@.len());
    let ghost first_group = ipv6_at(is_ipv6@);
    let ghost second_group = other_at(is_ipv6@);
    let mut v6: Vec<usize> = Vec::new();
    let mut v4: Vec<usize> = Vec::new();
    let mut i: usize = 0;
    proof {
        assert(all.take(0) =~= Seq::<int>::empty());
        assert(v6@.map_values(|k: usize| k as int) =~= Seq::<int>::empty());
        assert(v4@.map_values(|k: usize| k as int) =~= Seq::<int>::empty());
    }
    while i < is_ipv6.len()
        invariant
            i <= is_ipv6.len(),
            all == positions(is_ipv6@.len()),
            first_group == ipv6_at(is_ipv6@),
            second_group == other_at(is_ipv6@),
            v6@.map_values(|k: usize| k as int) == all.take(i as int).filter(first_group),
            v4@.map_values(|k: usize| k as int) == all.take(i as int).filter(second_group),
        decreases is_ipv6.len() - i,
    {
        let ghost prefix = all.take(i as int);
        let ghost next = all.take(i + 1);
        let ghost old6 = v6@;
        let ghost old4 = v4@;
        proof {
            assert(next =~= prefix.push(i as int));
            prefix.lemma_filter_push(i as int, first_group);
            prefix.lemma_filter_push(i as int, second_group);
        }
        if is_ipv6[i] {
            v6.push(i);
            proof {
                assert(first_group(i as int));
                assert(!second_group(i as int));
                assert(v6@.map_values(|k: usize| k as int) =~= old6.map_values(
                    |k: usize| k as int,
                ).push(i as int));
                assert(v4@ == old4);
            }
        } else {
            v4.push(i);
            proof {
                assert(!first_group(i as int));
                assert(second_group(i as int));
                assert(v4@.map_values(|k: usize| k as int) =~= old4.map_values(
                    |k: usize| k as int,
                ).push(i as int));
                assert(v6@ == old6);
            }
        }
        i = i + 1;
    }
    proof {
        assert(all.take(i as int) =~= all);
    }
    let ghost first = v6@;
    let ghost second = v4@;
    let mut out = v6;
    let mut rest = v4;
    out.append(&mut rest);
    proof {
        assert(out@ == first + second);
        assert(out@.map_values(|k: usize| k as int) =~= first.map_values(|k: usize| k as int)
            + second.map_values(|k: usize| k as int));
    }
    out
}

/// Where a write of a UDP client stands. A client that has sent to an address before keeps it
/// as its destination (the caller holds the address itself); a client without one resolves
/// its host and port and tries the addresses in `try_order`.
#[derive(Clone, Debug, PartialEq, Eq)]
pub enum UdpWriteState {
    /// No write under way.
    Ready,
    /// Sending to the kept destination, and nowhere else.
    SendingToDestination,
    /// Waiting for the host and port to be resolved.
    Resolving,
    /// Sending to the resolved address at position `order[at]`; the ones before it failed.
    Trying { order: Vec<usize>, at: usize },
}

/// What happened since the last step.
#[derive(Clone, Debug, PartialEq, Eq)]
pub enum UdpWriteEvent {
    /// A write begins, with or without a kept destination.
    Begin { has_destination: bool },
    /// The host and port resolved to these addresses, each IPv6 or not, in the order given.
    Resolved { is_ipv6: Vec<bool> },
    /// The last send went out, with `size` bytes.
    Sent { size: usize },
    /// The last send failed; its error is the one to report if no other send follows.
    SendFailed,
}

/// How a write ends.
#[derive(Clone, Copy, Debug, PartialEq, Eq)]
pub enum UdpWriteResult {
    /// `size` bytes were sent; the resolved address at `destination` is kept from now on, or,
    /// when that is none, the destination stays as it was.
    Sent { size: usize, destination: Option<usize> },
    /// The host and port resolved to no address: a "not found" error, destination unset.
    NotResolved,
    /// Every send failed: the last send's error is returned and the destination is unchanged.
    LastError,
}

/// What to do next.
#[derive(Clone, Copy, Debug, PartialEq, Eq)]
pub enum UdpWriteAction {
    SendToDestination,
    Resolve,
    SendTo { position: usize },
    Finish(UdpWriteResult),
}

impl UdpWriteState {
    /// A position being tried lies inside the order.
    pub open spec fn wf(&self) -> bool {
        match self {
            UdpWriteState::Trying { order, at } => at < order.len(),
            _ => true,
        }
    }

    /// Whether `event` can come in this state: a write begins only when none is under way, a
    /// resolution comes only while resolving, and a send result only after a send.
    pub open spec fn expects(&self, event: UdpWriteEvent) -> bool {
        match self {
            UdpWriteState::Ready => event is Begin,
            UdpWriteState::Resolving => event is Resolved,
            _ => event is Sent || event is SendFailed,
        }
    }
}

/// One step of a UDP client's write: the next state and what to do.
/// - A write with a kept destination sends there only and is done with that send's result.
/// - A write without one resolves the host and port; no address is a "not found" error.
/// - Resolved addresses are tried in `try_order` (IPv6 ones first), one after the other while
///   sends fail; the first that works is kept as the destination.
/// - When every one fails, the last error is returned and the destination stays unset.
pub fn udp_write_step(state: UdpWriteState, event: UdpWriteEvent) -> (out: (UdpWriteState, UdpWriteAction))
    requires
        state.wf(),
        state.expects(event),
    ensures
        out.0.wf(),
        match state {
            UdpWriteState::Ready => match event {
                UdpWriteEvent::Begin { has_destination } => if has_destination {
                    out == (UdpWriteState::SendingToDestination, UdpWriteAction::SendToDestination)
                } else {
                    out == (UdpWriteState::Resolving, UdpWriteAction::Resolve)
                },
                _ => false,
            },
            UdpWriteState::SendingToDestination => match event {
                UdpWriteEvent::Sent { size } => out == (
                    UdpWriteState::Ready,
                    UdpWriteAction::Finish(UdpWriteResult::Sent { size, destination: None }),
                ),
                _ => out == (UdpWriteState::Ready, UdpWriteAction::Finish(UdpWriteResult::LastError)),
            },
            UdpWriteState::Resolving => match event {
                UdpWriteEvent::Resolved { is_ipv6 } => if is_ipv6.len() == 0 {
                    out == (UdpWriteState::Ready, UdpWriteAction::Finish(UdpWriteResult::NotResolved))
                } else {
                    out.0 matches UdpWriteState::Trying { order, at } && at == 0
                        && order@.map_values(|i: usize| i as int) == destination_order(is_ipv6@)
                        && out.1 == UdpWriteAction::SendTo { position: order@[0] }
                },
                _ => false,
            },
            UdpWriteState::Trying { order, at } => match event {
                UdpWriteEvent::Sent { size } => out == (
                    UdpWriteState::Ready,
                    UdpWriteAction::Finish(UdpWriteResult::Sent { size, destination: Some(order@[at as int]) }),
                ),
                _ => if at + 1 < order.len() {
                    out == (
                        UdpWriteState::Trying { order, at: (at + 1) as usize },
                        UdpWriteAction::SendTo { position: order@[at + 1] },
                    )
                } else {
                    out == (UdpWriteState::Ready, UdpWriteAction::Finish(UdpWriteResult::LastError))
                },
            },
        },
{
    match state {
        UdpWriteState::Ready => match event {
            UdpWriteEvent::Begin { has_destination } => if has_destination {
                (UdpWriteState::SendingToDestination, UdpWriteAction::SendToDestination)
            } else {
                (UdpWriteState::Resolving, UdpWriteAction::Resolve)
            },
            _ => (UdpWriteState::Ready, UdpWriteAction::Finish(UdpWriteResult::LastError)),
        },
        UdpWriteState::SendingToDestination => match event {
            UdpWriteEvent::Sent { size } => (
                UdpWriteState::Ready,
                UdpWriteAction::Finish(UdpWriteResult::Sent { size, destination: None }),
            ),
            _ => (UdpWriteState::Ready, UdpWriteAction::Finish(UdpWriteResult::LastError)),
        },
        UdpWriteState::Resolving => match event {
            UdpWriteEvent::Resolved { is_ipv6 } => {
                if is_ipv6.len() == 0 {
                    (UdpWriteState::Ready, UdpWriteAction::Finish(UdpWriteResult::NotResolved))
                } else {
                    let order = try_order(&is_ipv6);
                    proof {
                        assert(order@.map_values(|i: usize| i as int).len() == order@.len());
                        lemma_destination_order_len(is_ipv6@);
                    }
                    let first = order[0];
                    (UdpWriteState::Trying { order, at: 0 }, UdpWriteAction::SendTo { position: first })
                }
            },
            _ => (UdpWriteState::Ready, UdpWriteAction::Finish(UdpWriteResult::LastError)),
        },
        UdpWriteState::Trying { order, at } => match event {
            UdpWriteEvent::Sent { size } => {
                let kept = order[at];
                (
                    UdpWriteState::Ready,
                    UdpWriteAction::Finish(UdpWriteResult::Sent { size, destination: Some(kept) }),
                )
            },
            _ => {
                if at + 1 < order.len() {
                    let next = order[at + 1];
                    (UdpWriteState::Trying { order, at: at + 1 }, UdpWriteAction::SendTo { position: next })
                } else {
                    (UdpWriteState::Ready, UdpWriteAction::Finish(UdpWriteResult::LastError))
                }
            },
        },
    }
}

/// Every resolved address is tried once.
proof fn lemma_destination_order_len(is_ipv6: Seq<bool>)
    ensures
        destination_order(is_ipv6).len() == is_ipv6.len(),
{
    let all = positions(is_ipv6.len());
    lemma_filter_split_len(all, ipv6_at(is_ipv6), other_at(is_ipv6));
}

/// Splitting a sequence by a test and its opposite keeps every element once.
proof fn lemma_filter_split_len(s: Seq<int>, f: spec_fn(int) -> bool, g: spec_fn(int) -> bool)
    requires
        forall|i: int| 0 <= i < s.len() ==> #[trigger] f(s[i]) == !g(s[i]),
    ensures
        s.filter(f).len() + s.filter(g).len() == s.len(),
    decreases s.len(),
{
    reveal(Seq::filter);
    if s.len() > 0 {
        assert forall|i: int| 0 <= i < s.drop_last().len() implies #[trigger] f(s.drop_last()[i])
            == !g(s.drop_last()[i]) by {
            assert(s.drop_last()[i] == s[i]);
        }
        lemma_filter_split_len(s.drop_last(), f, g);
        assert(f(s[s.len() - 1]) == !g(s[s.len() - 1]));
    }
}

} // verus!

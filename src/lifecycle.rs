use vstd::prelude::*;
use crate::hw::{DMAPeripheral, peripheral_code, lemma_peripheral_code_round_trip};
use crate::registers::{INT_TRC, INT_TERR, INT_RCZ, COUNTER_RANGE, interrupt_unmasked, lemma_unmask_complete};
use crate::dma::{
    ChannelModel, CounterModel, enable_step, disable_step, prepare_step, start_step, interrupt_step,
    abort_step, clamped_count,
};

verus! {

/// Number of enabled channels among `chs`.
pub open spec fn count_enabled(chs: Seq<ChannelModel>) -> nat
    decreases chs.len(),
{
    if chs.len() == 0 {
        0
    } else {
        count_enabled(chs.drop_last()) + if chs.last().enabled { 1nat } else { 0nat }
    }
}

/// Enabling a channel twice counts it once, and it stays enabled.
pub proof fn lemma_enable_twice(ch: ChannelModel, n: CounterModel)
    ensures
        ({
            let (c1, n1) = enable_step(ch, n);
            let (c2, n2) = enable_step(c1, n1);
            &&& n2.count == n.count + if ch.enabled { 0nat } else { 1nat }
            &&& n2 == n1
            &&& c2 == c1
            &&& c1.enabled && c2.enabled
        }),
{
}

/// Disabling a channel twice uncounts it at most once; the second call
/// changes nothing and turns no clock off.
pub proof fn lemma_disable_twice(ch: ChannelModel, n: CounterModel)
    ensures
        ({
            let (c1, n1, g1) = disable_step(ch, n);
            let (c2, n2, g2) = disable_step(c1, n1);
            &&& n2.count == if ch.enabled && n.count > 0 { n.count - 1 } else { n.count as int }
            &&& n2 == n1
            &&& c2 == c1
            &&& !g2
            &&& !c2.enabled
        }),
{
}

/// Two disabled channels `a` and `b` on a counter at zero: enabling both counts
/// two; disabling `a` counts one and keeps the clocks on; disabling `b` counts
/// zero and turns both clocks off, the only step that does.
pub proof fn lemma_two_channels(a: ChannelModel, b: ChannelModel, n: CounterModel)
    requires
        !a.enabled,
        !b.enabled,
        n.count == 0,
    ensures
        ({
            let (a1, n1) = enable_step(a, n);
            let (b1, n2) = enable_step(b, n1);
            let (a2, n3, g3) = disable_step(a1, n2);
            let (b2, n4, g4) = disable_step(b1, n3);
            &&& n1.count == 1 && n2.count == 2
            &&& n3.count == 1 && n3.hsb_clock && n3.pbb_clock && !g3
            &&& n4.count == 0 && !n4.hsb_clock && !n4.pbb_clock && g4
        }),
{
}

/// Enabling or disabling one channel of a bank keeps the shared count equal to
/// the number of enabled channels, and keeps the clocks on exactly while some
/// channel is counted. A counter that tracks the bank never underflows.
pub proof fn lemma_counter_tracks_bank(chs: Seq<ChannelModel>, i: int, n: CounterModel)
    requires
        0 <= i < chs.len(),
        n.count == count_enabled(chs),
        n.hsb_clock == (n.count > 0),
        n.pbb_clock == (n.count > 0),
    ensures
        chs[i].enabled ==> n.count > 0,
        ({
            let (c1, n1) = enable_step(chs[i], n);
            &&& n1.count == count_enabled(chs.update(i, c1))
            &&& n1.hsb_clock == (n1.count > 0) && n1.pbb_clock == (n1.count > 0)
        }),
        ({
            let (c1, n1, g) = disable_step(chs[i], n);
            &&& n1.count == count_enabled(chs.update(i, c1))
            &&& n1.hsb_clock == (n1.count > 0) && n1.pbb_clock == (n1.count > 0)
        }),
{
    lemma_count_enabled_bounds(chs, i);
    let (c1, n1) = enable_step(chs[i], n);
    lemma_count_enabled_update(chs, i, c1);
    let (c2, n2, g) = disable_step(chs[i], n);
    lemma_count_enabled_update(chs, i, c2);
}

proof fn lemma_count_enabled_bounds(chs: Seq<ChannelModel>, i: int)
    requires
        0 <= i < chs.len(),
    ensures
        chs[i].enabled ==> count_enabled(chs) > 0,
    decreases chs.len(),
{
    if i < chs.len() - 1 {
        lemma_count_enabled_bounds(chs.drop_last(), i);
    }
}

proof fn lemma_count_enabled_update(chs: Seq<ChannelModel>, i: int, c: ChannelModel)
    requires
        0 <= i < chs.len(),
    ensures
        count_enabled(chs.update(i, c)) + (if chs[i].enabled { 1int } else { 0int })
            == count_enabled(chs) + (if c.enabled { 1int } else { 0int }),
    decreases chs.len(),
{
    let u = chs.update(i, c);
    if i == chs.len() - 1 {
        assert(u.drop_last() =~= chs.drop_last());
    } else {
        lemma_count_enabled_update(chs.drop_last(), i, c);
        assert(u.drop_last() =~= chs.drop_last().update(i, c));
    }
}

/// The reload count programmed for a request is the request cut down to the
/// buffer's whole elements, when that fits the 16-bit counter field.
pub proof fn lemma_reload_count(ch: ChannelModel, pid: DMAPeripheral, buf: Seq<u8>, requested: nat, address: u32)
    requires
        clamped_count(ch.width, buf.len(), requested) < COUNTER_RANGE as nat,
    ensures
        prepare_step(ch, pid, buf, requested, address).registers.tcrr as nat
            == clamped_count(ch.width, buf.len(), requested),
        clamped_count(ch.width, buf.len(), requested)
            == if requested < buf.len() / ch.width.spec_element_size() {
                requested
            } else {
                buf.len() / ch.width.spec_element_size()
            },
{
}

/// After a transfer is prepared, only the transfer-complete source is unmasked.
pub proof fn lemma_prepare_unmasks_complete_only(
    ch: ChannelModel,
    pid: DMAPeripheral,
    buf: Seq<u8>,
    requested: nat,
    address: u32,
)
    requires
        ch.wf(),
    ensures
        ({
            let imr = prepare_step(ch, pid, buf, requested, address).registers.imr;
            &&& interrupt_unmasked(imr, INT_TRC)
            &&& !interrupt_unmasked(imr, INT_TERR)
            &&& !interrupt_unmasked(imr, INT_RCZ)
        }),
{
    lemma_unmask_complete(ch.registers.imr);
}

/// Aborting a prepared transfer hands back the very buffer it was prepared
/// with and leaves the channel holding none.
pub proof fn lemma_abort_after_prepare(
    ch: ChannelModel,
    pid: DMAPeripheral,
    buf: Seq<u8>,
    requested: nat,
    address: u32,
)
    ensures
        ({
            let (c2, r) = abort_step(prepare_step(ch, pid, buf, requested, address));
            &&& r == Some(buf)
            &&& c2.buffer is None
        }),
{
}

/// The interrupt that follows a prepared (and possibly started) transfer
/// reports the peripheral it was prepared for, read back from the
/// peripheral-select register, to a registered client.
pub proof fn lemma_interrupt_reports_prepared(
    ch: ChannelModel,
    pid: DMAPeripheral,
    buf: Seq<u8>,
    requested: nat,
    address: u32,
)
    requires
        ch.has_client,
    ensures
        ({
            let c1 = prepare_step(ch, pid, buf, requested, address);
            &&& c1.registers.psr == peripheral_code(pid)
            &&& interrupt_step(c1).1 == Some(pid)
            &&& interrupt_step(start_step(c1)).1 == Some(pid)
        }),
{
    lemma_peripheral_code_round_trip(pid);
}

} // verus!

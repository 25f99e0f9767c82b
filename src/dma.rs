use vstd::prelude::*;
use crate::hw::{DMAChannelNum, DMAPeripheral, DMAWidth, peripheral_code, peripheral_of_code};
use crate::registers::{
    DMARegisters, DMA_BASE_ADDR, DMA_CHANNEL_SIZE, CR_TDIS, CR_TEN, INT_ALL, INT_TRC, INT_TERR,
    INT_RCZ, COUNTER_RANGE, SR_TEN, interrupt_unmasked, lemma_mask_all, lemma_unmask_complete,
    lemma_control_bits,
};

verus! {

/// Receives the completion of a channel's transfer.
pub trait DMAClient {
    fn transfer_done(&self, pid: DMAPeripheral);
}

/// Count of enabled channels, shared by every channel of the controller, and
/// the state of the two clock domains (HSB and PBB) that gate them all.
pub struct SharedEnableCounter {
    count: usize,
    hsb_clock: bool,
    pbb_clock: bool,
}

/// Abstract state of the shared counter.
pub struct CounterModel {
    pub count: nat,
    pub hsb_clock: bool,
    pub pbb_clock: bool,
}

impl View for SharedEnableCounter {
    type V = CounterModel;

    closed spec fn view(&self) -> CounterModel {
        CounterModel { count: self.count as nat, hsb_clock: self.hsb_clock, pbb_clock: self.pbb_clock }
    }
}

impl SharedEnableCounter {
    /// No channel enabled, both clocks off.
    pub fn new() -> (r: SharedEnableCounter)
        ensures
            r@ == (CounterModel { count: 0, hsb_clock: false, pbb_clock: false }),
    {
        SharedEnableCounter { count: 0, hsb_clock: false, pbb_clock: false }
    }

    pub fn count(&self) -> (r: usize)
        ensures
            r as nat == self@.count,
    {
        self.count
    }

    /// Whether the HSB clock domain of the controller is on.
    pub fn hsb_clock_enabled(&self) -> (r: bool)
        ensures
            r == self@.hsb_clock,
    {
        self.hsb_clock
    }

    /// Whether the PBB clock domain of the controller is on.
    pub fn pbb_clock_enabled(&self) -> (r: bool)
        ensures
            r == self@.pbb_clock,
    {
        self.pbb_clock
    }
}

/// Abstract state of one channel.
pub struct ChannelModel {
    pub number: DMAChannelNum,
    pub registers: DMARegisters,
    pub has_client: bool,
    pub width: DMAWidth,
    pub enabled: bool,
    pub buffer: Option<Seq<u8>>,
}

impl ChannelModel {
    /// The interrupt mask holds at most the transfer-complete source, and the
    /// peripheral-select register holds the code of a peripheral.
    pub open spec fn wf(self) -> bool {
        &&& (self.registers.imr == 0 || self.registers.imr == INT_TRC)
        &&& peripheral_of_code(self.registers.psr).is_some()
    }

    pub open spec fn with_registers(self, registers: DMARegisters) -> ChannelModel {
        ChannelModel { registers, ..self }
    }

    /// The registers after all three interrupt sources are masked.
    pub open spec fn masked(self) -> DMARegisters {
        DMARegisters { imr: self.registers.imr & !INT_ALL, ..self.registers }
    }
}

/// Address of the register block of a channel.
pub open spec fn channel_base(number: DMAChannelNum) -> nat {
    DMA_BASE_ADDR as nat + number.spec_index() * DMA_CHANNEL_SIZE as nat
}

/// Elements a transfer moves: the request, cut down to what fits in a buffer of
/// `byte_len` bytes.
pub open spec fn clamped_count(width: DMAWidth, byte_len: nat, requested: nat) -> nat {
    let max_elements = byte_len / width.spec_element_size();
    if requested < max_elements { requested } else { max_elements }
}

/// Largest count the 16-bit reload field holds.
pub open spec fn max_field_count() -> nat {
    (COUNTER_RANGE - 1) as nat
}

/// Count programmed into the reload field: the clamped count, cut down to the
/// largest value the field holds.
pub open spec fn programmed_count(width: DMAWidth, byte_len: nat, requested: nat) -> nat {
    let count = clamped_count(width, byte_len, requested);
    if count < max_field_count() { count } else { max_field_count() }
}

/// `enable`: clocks on; on a disabled channel, count it and mask its interrupts.
pub open spec fn enable_step(ch: ChannelModel, n: CounterModel) -> (ChannelModel, CounterModel) {
    let n2 = CounterModel {
        count: if ch.enabled { n.count } else { n.count + 1 },
        hsb_clock: true,
        pbb_clock: true,
    };
    if ch.enabled {
        (ch, n2)
    } else {
        (ChannelModel { enabled: true, registers: ch.masked(), ..ch }, n2)
    }
}

/// `disable`: on an enabled channel, uncount it (a count already at zero stays
/// there), stop its transfers, and turn the clocks off when it was the last one
/// counted. The third component tells
/// whether the clocks were turned off by this step.
pub open spec fn disable_step(ch: ChannelModel, n: CounterModel) -> (ChannelModel, CounterModel, bool) {
    if !ch.enabled {
        (ch, n, false)
    } else {
        let last = n.count == 1;
        let n2 = CounterModel {
            count: if n.count > 0 { (n.count - 1) as nat } else { 0 },
            hsb_clock: if last { false } else { n.hsb_clock },
            pbb_clock: if last { false } else { n.pbb_clock },
        };
        let regs = DMARegisters { sr: 0, ..ch.registers };
        (ChannelModel { enabled: false, registers: regs, ..ch }, n2, last)
    }
}

/// `prepare_transfer` with the buffer found at `address`: program size,
/// peripheral, reload address and clamped reload count, unmask the
/// transfer-complete source, and hold the buffer.
pub open spec fn prepare_step(
    ch: ChannelModel,
    pid: DMAPeripheral,
    buf: Seq<u8>,
    requested: nat,
    address: u32,
) -> ChannelModel {
    let count = programmed_count(ch.width, buf.len(), requested);
    let regs = DMARegisters {
        mr: ch.width.spec_code(),
        psr: peripheral_code(pid),
        marr: address,
        tcrr: count as u32,
        imr: ch.registers.imr | INT_TRC,
        ..ch.registers
    };
    ChannelModel { registers: regs, buffer: Some(buf), ..ch }
}

/// `start_transfer`: the transfer-enable command.
pub open spec fn start_step(ch: ChannelModel) -> ChannelModel {
    ch.with_registers(DMARegisters { sr: SR_TEN, ..ch.registers })
}

/// `handle_interrupt`: mask all sources; report the peripheral that the
/// peripheral-select register names, when a client is registered.
pub open spec fn interrupt_step(ch: ChannelModel) -> (ChannelModel, Option<DMAPeripheral>) {
    (
        ch.with_registers(ch.masked()),
        if ch.has_client { peripheral_of_code(ch.registers.psr) } else { None },
    )
}

/// `abort_transfer`: mask all sources, zero the live counter, hand the buffer back.
pub open spec fn abort_step(ch: ChannelModel) -> (ChannelModel, Option<Seq<u8>>) {
    let regs = DMARegisters { tcr: 0, ..ch.masked() };
    (ChannelModel { registers: regs, buffer: None, ..ch }, ch.buffer)
}

/// Driver of one PDCA channel.
pub struct DMAChannel<'a, C: DMAClient> {
    number: DMAChannelNum,
    registers: DMARegisters,
    client: Option<&'a C>,
    width: DMAWidth,
    enabled: bool,
    buffer: Option<Vec<u8>>,
}

pub open spec fn buffer_view(b: Option<Vec<u8>>) -> Option<Seq<u8>> {
    match b {
        Some(v) => Some(v@),
        None => None,
    }
}

impl<'a, C: DMAClient> View for DMAChannel<'a, C> {
    type V = ChannelModel;

    closed spec fn view(&self) -> ChannelModel {
        ChannelModel {
            number: self.number,
            registers: self.registers,
            has_client: self.client.is_some(),
            width: self.width,
            enabled: self.enabled,
            buffer: buffer_view(self.buffer),
        }
    }
}

/// Relies on `slice::as_ptr`: the address of the buffer's first byte, taken as
/// the 32-bit bus address the controller reads. Nothing is known of its value.
#[verifier::external_body]
fn buffer_address(buf: &[u8]) -> (r: u32) {
    buf.as_ptr() as usize as u32
}

impl<'a, C: DMAClient> DMAChannel<'a, C> {
    /// The client registered with the channel, if any.
    pub closed spec fn spec_client(&self) -> Option<C> {
        match self.client {
            Some(c) => Some(*c),
            None => None,
        }
    }

    /// A channel driver for `channel`, disabled, with no client, byte width,
    /// no buffer, and its register block as out of reset.
    pub fn new(channel: DMAChannelNum) -> (r: DMAChannel<'a, C>)
        ensures
            r@ == (ChannelModel {
                number: channel,
                registers: DMARegisters::spec_reset(),
                has_client: false,
                width: DMAWidth::Width8Bit,
                enabled: false,
                buffer: None,
            }),
            r@.wf(),
            r.spec_client() is None,
    {
        DMAChannel {
            number: channel,
            registers: DMARegisters::reset(),
            client: None,
            width: DMAWidth::Width8Bit,
            enabled: false,
            buffer: None,
        }
    }

    /// Address of this channel's register block.
    pub fn base_address(&self) -> (r: usize)
        ensures
            r as nat == channel_base(self@.number),
    {
        DMA_BASE_ADDR + self.number.index() * DMA_CHANNEL_SIZE
    }

    /// The channel's register block.
    pub fn registers(&self) -> (r: &DMARegisters)
        ensures
            *r == self@.registers,
    {
        &self.registers
    }

    /// Whether a buffer is held by the channel.
    pub fn has_buffer(&self) -> (r: bool)
        ensures
            r == self@.buffer.is_some(),
    {
        self.buffer.is_some()
    }

    /// Registers the client told of completions and the width of all later
    /// transfers, replacing any earlier ones. The client must outlive the channel.
    pub fn initialize(&mut self, client: &'a C, width: DMAWidth)
        ensures
            final(self)@ == (ChannelModel { has_client: true, width, ..old(self)@ }),
            final(self).spec_client() == Some(*client),
    {
        self.client = Some(client);
        self.width = width;
    }

    /// Turns the controller's clocks on; on a channel not yet enabled, counts it
    /// in `counter` and masks its interrupts.
    pub fn enable(&mut self, counter: &mut SharedEnableCounter)
        requires
            old(self)@.wf(),
            !old(self)@.enabled ==> old(counter)@.count < usize::MAX,
        ensures
            (final(self)@, final(counter)@) == enable_step(old(self)@, old(counter)@),
            final(self).spec_client() == old(self).spec_client(),
            final(self)@.wf(),
    {
        counter.hsb_clock = true;
        counter.pbb_clock = true;
        if !self.enabled {
            counter.count = counter.count + 1;
            proof { lemma_mask_all(self.registers.imr); }
            self.registers.write_idr(INT_ALL);
            self.enabled = true;
        }
    }

    /// On an enabled channel: uncounts it, turns both clocks off when it was the
    /// last one counted, and stops its transfers. Returns whether the clocks
    /// were turned off. Does nothing on a disabled channel.
    pub fn disable(&mut self, counter: &mut SharedEnableCounter) -> (r: bool)
        requires
            old(self)@.wf(),
        ensures
            (final(self)@, final(counter)@, r) == disable_step(old(self)@, old(counter)@),
            final(self).spec_client() == old(self).spec_client(),
            final(self)@.wf(),
    {
        if self.enabled {
            let prior = counter.count;
            counter.count = if prior > 0 { prior - 1 } else { 0 };
            let last = prior == 1;
            if last {
                counter.hsb_clock = false;
                counter.pbb_clock = false;
            }
            proof { lemma_control_bits(); }
            self.registers.write_cr(CR_TDIS);
            self.enabled = false;
            last
        } else {
            false
        }
    }

    pub fn is_enabled(&self) -> (r: bool)
        ensures
            r == self@.enabled,
    {
        self.enabled
    }

    /// Services the channel's interrupt: masks all its sources first, then
    /// reads the peripheral-select register and reports that peripheral to the
    /// client. Returns the peripheral reported, or `None` when no client is
    /// registered and the completion is dropped. The buffer stays with the
    /// channel: `abort_transfer` hands it back.
    pub fn handle_interrupt(&mut self) -> (r: Option<DMAPeripheral>)
        requires
            old(self)@.wf(),
        ensures
            (final(self)@, r) == interrupt_step(old(self)@),
            final(self).spec_client() == old(self).spec_client(),
            final(self)@.wf(),
            old(self)@.has_client ==> r is Some,
    {
        proof { lemma_mask_all(self.registers.imr); }
        self.registers.write_idr(INT_ALL);
        let pid = DMAPeripheral::from_code(self.registers.psr);
        match self.client {
            Some(client) => {
                match pid {
                    Some(p) => {
                        client.transfer_done(p);
                    },
                    None => {},
                }
                pid
            },
            None => None,
        }
    }

    /// Issues the transfer-enable command.
    pub fn start_transfer(&mut self)
        requires
            old(self)@.wf(),
        ensures
            final(self)@ == start_step(old(self)@),
            final(self).spec_client() == old(self).spec_client(),
            final(self)@.wf(),
    {
        proof { lemma_control_bits(); }
        self.registers.write_cr(CR_TEN);
    }

    /// Programs a transfer of `len` elements between `buf` and peripheral `pid`,
    /// without starting it. A request larger than the buffer holds is cut down
    /// to the buffer's whole elements, and a count above what the 16-bit reload
    /// field holds to that field's largest value. Only the transfer-complete
    /// interrupt is unmasked. The channel takes `buf`; a buffer it held before is
    /// handed back.
    pub fn prepare_transfer(&mut self, pid: DMAPeripheral, buf: Vec<u8>, len: usize) -> (r: Option<Vec<u8>>)
        requires
            old(self)@.wf(),
        ensures
            final(self)@ == prepare_step(old(self)@, pid, buf@, len as nat, final(self)@.registers.marr),
            buffer_view(r) == old(self)@.buffer,
            final(self).spec_client() == old(self).spec_client(),
            final(self)@.registers.tcrr as nat == programmed_count(old(self)@.width, buf@.len(), len as nat),
            final(self)@.registers.imr == INT_TRC,
            interrupt_unmasked(final(self)@.registers.imr, INT_TRC),
            !interrupt_unmasked(final(self)@.registers.imr, INT_TERR),
            !interrupt_unmasked(final(self)@.registers.imr, INT_RCZ),
            final(self)@.wf(),
    {
        let element_size = self.width.element_size();
        let max_elements = buf.len() / element_size;
        let clamped = if len < max_elements { len } else { max_elements };
        let field_max = (COUNTER_RANGE - 1) as usize;
        let count = if clamped < field_max { clamped } else { field_max };
        self.registers.write_mr(self.width.code());
        self.registers.write_psr(pid.code());
        let address = buffer_address(buf.as_slice());
        self.registers.write_marr(address);
        self.registers.write_tcrr(count as u32);
        proof { lemma_unmask_complete(self.registers.imr); }
        self.registers.write_ier(INT_TRC);
        let previous = self.buffer.take();
        self.buffer = Some(buf);
        previous
    }

    /// `prepare_transfer`, then `start_transfer`.
    pub fn do_transfer(&mut self, pid: DMAPeripheral, buf: Vec<u8>, len: usize) -> (r: Option<Vec<u8>>)
        requires
            old(self)@.wf(),
        ensures
            final(self)@ == start_step(
                prepare_step(old(self)@, pid, buf@, len as nat, final(self)@.registers.marr),
            ),
            final(self).spec_client() == old(self).spec_client(),
            buffer_view(r) == old(self)@.buffer,
            final(self)@.wf(),
    {
        let previous = self.prepare_transfer(pid, buf, len);
        self.start_transfer();
        previous
    }

    /// Masks all interrupts, zeroes the live transfer counter, and hands back
    /// the buffer the channel held, if any.
    pub fn abort_transfer(&mut self) -> (r: Option<Vec<u8>>)
        requires
            old(self)@.wf(),
        ensures
            (final(self)@, buffer_view(r)) == abort_step(old(self)@),
            final(self).spec_client() == old(self).spec_client(),
            final(self)@.wf(),
    {
        proof { lemma_mask_all(self.registers.imr); }
        self.registers.write_idr(INT_ALL);
        self.registers.write_tcr(0);
        self.buffer.take()
    }

    /// The live transfer counter.
    pub fn transfer_counter(&self) -> (r: usize)
        ensures
            r as nat == self@.registers.tcr as nat % (COUNTER_RANGE as nat),
    {
        (self.registers.tcr % COUNTER_RANGE) as usize
    }
}

} // verus!

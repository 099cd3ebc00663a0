//! The scheduler: one CPU step, then the PPU, the timer and the joypad
//! advance by the cycles it took.
use crate::breakpoint::BreakpointManager;
use crate::bus::{BusView, MemorySystem, REG_BGP, REG_IE, REG_IF, REG_LCDC, REG_LY, REG_OBP0, REG_OBP1};
use crate::cartridge::{header_error, Cartridge, CartridgeError};
use crate::cpu::{Cpu, CpuError};
use crate::execute::step_post;
use crate::instruction::decode_spec;
use crate::joypad::{Button, Joypad};
use crate::ppu::{shades_ok, Ppu, FRAME_SIZE};
use crate::timer::Timer;
use vstd::prelude::*;

verus! {

/// Machine cycles in one frame: 154 scanlines of 456 cycles.
pub const FRAME_CYCLES: usize = 70224;

/// Nanoseconds per machine cycle when driven by wall-clock time.
pub const NANOS_PER_CYCLE: u64 = 238;

/// Sum of the first `n` cycle counts.
pub open spec fn cycles_sum(cycles: Seq<u8>, n: int) -> int
    decreases n,
{
    if n <= 0 {
        0
    } else {
        cycles_sum(cycles, n - 1) + cycles[n - 1]
    }
}

/// `states` is a run of successful machine steps from `states[0]`, each
/// taking `cycles[i]`, in which no step but possibly the last ends on a
/// breakpoint and every step but the last starts before a frame's worth of
/// cycles has passed.
pub open spec fn is_frame_run(states: Seq<Machine>, cycles: Seq<u8>) -> bool {
    &&& states.len() == cycles.len() + 1
    &&& forall|i: int|
        0 <= i < cycles.len() ==> #[trigger] states[i].step_spec(
            Ok::<u8, CpuError>(cycles[i]),
            states[i + 1],
        )
    &&& forall|i: int|
        0 < i < cycles.len() ==> !(#[trigger] states[i]).spec_breakpoints().contains(
            states[i].spec_cpu().spec_pc(),
        )
    &&& forall|i: int| 0 <= i < cycles.len() ==> #[trigger] cycles_sum(cycles, i) < FRAME_CYCLES
}

/// The whole console.
pub struct Machine {
    cpu: Cpu,
    bus: MemorySystem,
    ppu: Ppu,
    timer: Timer,
    joypad: Joypad,
    start_addr: Option<u16>,
    breakpoint_manager: BreakpointManager,
    time_accumulator: u64,
}

proof fn lemma_extend_run(states: Seq<Machine>, run: Seq<u8>, next: Machine, c: u8)
    requires
        is_frame_run(states, run),
        states.last().step_spec(Ok::<u8, CpuError>(c), next),
        run.len() > 0 ==> !states.last().spec_breakpoints().contains(states.last().spec_cpu().spec_pc()),
        cycles_sum(run, run.len() as int) < FRAME_CYCLES,
    ensures
        is_frame_run(states.push(next), run.push(c)),
        cycles_sum(run.push(c), (run.len() + 1) as int) == cycles_sum(run, run.len() as int) + c,
{
    let states2 = states.push(next);
    let run2 = run.push(c);
    assert forall|i: int| 0 <= i < run2.len() implies #[trigger] states2[i].step_spec(
        Ok::<u8, CpuError>(run2[i]),
        states2[i + 1],
    ) by {
        if i < run.len() {
            assert(states2[i] == states[i] && states2[i + 1] == states[i + 1]);
            assert(run2[i] == run[i]);
        } else {
            assert(states2[i] == states.last());
        }
    }
    assert forall|i: int| 0 < i < run2.len() implies !(#[trigger] states2[i]).spec_breakpoints().contains(
        states2[i].spec_cpu().spec_pc(),
    ) by {
        if i < run.len() {
            assert(states2[i] == states[i]);
        } else {
            assert(states2[i] == states.last());
        }
    }
    assert forall|i: int| 0 <= i < run2.len() implies #[trigger] cycles_sum(run2, i) < FRAME_CYCLES by {
        lemma_sum_prefix(run, run2, i);
        if i < run.len() {
            assert(cycles_sum(run, i) < FRAME_CYCLES);
        }
    }
    lemma_sum_prefix(run, run2, run2.len() as int);
}

proof fn lemma_sum_prefix(run: Seq<u8>, run2: Seq<u8>, n: int)
    requires
        run2.len() == run.len() + 1,
        forall|i: int| 0 <= i < run.len() ==> run2[i] == run[i],
        0 <= n <= run2.len(),
    ensures
        n <= run.len() ==> cycles_sum(run2, n) == cycles_sum(run, n),
        n == run2.len() ==> cycles_sum(run2, n) == cycles_sum(run, run.len() as int) + run2[run.len() as int],
    decreases n,
{
    if n > 0 {
        lemma_sum_prefix(run, run2, n - 1);
    }
}

impl Default for Machine {
    fn default() -> (r: Self)
        ensures
            r.wf(),
    {
        Machine::new()
    }
}

impl Machine {
    /// The machine's invariant; among others, `LY` stays within `0..=153`.
    pub closed spec fn wf(&self) -> bool {
        &&& self.bus@.wf()
        &&& self.ppu.wf()
        &&& self.timer.wf()
        &&& self.bus@.peek(REG_LY) < 154
        &&& (self.start_addr matches Some(a) ==> a == 0)
    }

    pub closed spec fn spec_cpu(&self) -> Cpu {
        self.cpu
    }

    pub closed spec fn spec_ly(&self) -> u8 {
        self.bus@.peek(REG_LY)
    }

    pub closed spec fn spec_frame(&self) -> Seq<u8> {
        self.ppu.spec_frame()
    }

    pub closed spec fn spec_bus(&self) -> crate::bus::BusView {
        self.bus@
    }

    /// Where execution starts after reset when a boot ROM is mounted.
    pub closed spec fn spec_start_addr(&self) -> Option<u16> {
        self.start_addr
    }

    pub closed spec fn spec_ppu(&self) -> Ppu {
        self.ppu
    }

    pub closed spec fn spec_timer(&self) -> Timer {
        self.timer
    }

    pub closed spec fn spec_joypad(&self) -> Joypad {
        self.joypad
    }

    /// What one machine step does: the CPU step as `step_post` states it,
    /// then the PPU, the timer (unless the CPU is stopped) and the joypad
    /// advance by its cycles, each as its own contract states; on an error
    /// only the CPU step has happened.
    #[verifier::opaque]
    pub open spec fn step_spec(self, r: Result<u8, CpuError>, next: Machine) -> bool {
        match r {
            Err(_) => {
                &&& step_post(self.spec_cpu(), self.spec_bus(), r, next.spec_cpu(), next.spec_bus())
                &&& next.spec_ppu() == self.spec_ppu()
                &&& next.spec_timer() == self.spec_timer()
                &&& next.spec_joypad() == self.spec_joypad()
            },
            Ok(c) => exists|m1: BusView, m2: BusView, m3: BusView|
                #![trigger step_post(self.spec_cpu(), self.spec_bus(), r, next.spec_cpu(), m1), self.spec_ppu().update_post(m1, c as u32, next.spec_ppu(), m2), self.spec_joypad().update_post(m3, next.spec_joypad(), next.spec_bus())]
                {
                    &&& step_post(self.spec_cpu(), self.spec_bus(), r, next.spec_cpu(), m1)
                    &&& self.spec_ppu().update_post(m1, c as u32, next.spec_ppu(), m2)
                    &&& if next.spec_cpu().spec_stopped() {
                        next.spec_timer() == self.spec_timer() && m3 == m2
                    } else {
                        self.spec_timer().step_post(m2, c, next.spec_timer(), m3)
                    }
                    &&& self.spec_joypad().update_post(m3, next.spec_joypad(), next.spec_bus())
                },
        }
    }

    pub closed spec fn spec_breakpoints(&self) -> Set<u16> {
        self.breakpoint_manager@
    }

    pub fn new() -> (r: Self)
        ensures
            r.wf(),
            r.spec_cpu().is_power_on(),
            r.spec_breakpoints() == Set::<u16>::empty(),
    {
        Machine {
            cpu: Cpu::new(),
            bus: MemorySystem::new(),
            ppu: Ppu::new(),
            timer: Timer::new(),
            joypad: Joypad::new(),
            start_addr: None,
            breakpoint_manager: BreakpointManager::new(),
            time_accumulator: 0,
        }
    }

    /// Mounts a 256-byte boot image; after the next reset execution starts
    /// at `0x0000`. Returns false, changing nothing, for another length.
    pub fn use_boot_rom(&mut self, image: Vec<u8>) -> (ok: bool)
        requires
            old(self).wf(),
        ensures
            final(self).wf(),
            ok == (image@.len() == 0x100),
            ok ==> final(self).spec_bus() == (BusView {
                boot_rom: image@,
                boot_rom_enabled: true,
                boot_rom_loaded: true,
                ..old(self).spec_bus()
            }) && final(self).spec_start_addr() == Some(0u16),
            !ok ==> final(self).spec_bus() == old(self).spec_bus() && final(self).spec_start_addr()
                == old(self).spec_start_addr(),
            final(self).spec_cpu() == old(self).spec_cpu(),
    {
        let ok = self.bus.load_boot_rom(image);
        if ok {
            self.start_addr = Some(0x0000);
        }
        ok
    }

    /// Mounts a ROM image. Returns its size, or why its header is refused;
    /// on an error the machine is left as it was.
    pub fn load_cartridge(&mut self, rom: Vec<u8>) -> (r: Result<usize, CartridgeError>)
        requires
            old(self).wf(),
        ensures
            final(self).wf(),
            r matches Ok(n) ==> n == rom@.len(),
            final(self).spec_cpu() == old(self).spec_cpu(),
            r is Err ==> final(self).spec_bus() == old(self).spec_bus(),
            r is Ok ==> (final(self).spec_bus().cartridge matches Some(c) && c.rom == rom@ && c.wf()
                && final(self).spec_bus() == (BusView { cartridge: Some(c), ..old(self).spec_bus() })),
            r == match header_error(rom@) {
                Some(e) => Err::<usize, CartridgeError>(e),
                None => Ok::<usize, CartridgeError>(rom@.len() as usize),
            },
    {
        let size = rom.len();
        match Cartridge::from_bytes(rom) {
            Ok(cartridge) => {
                self.bus.load_cartridge(cartridge);
                Ok(size)
            },
            Err(e) => Err(e),
        }
    }

    pub fn frame(&self) -> (r: &Vec<u8>)
        requires
            self.wf(),
        ensures
            r@ == self.spec_frame(),
            r@.len() == FRAME_SIZE,
            shades_ok(r@),
    {
        self.ppu.frame()
    }

    pub fn cpu(&self) -> (r: &Cpu)
        ensures
            *r == self.spec_cpu(),
    {
        &self.cpu
    }

    pub fn bus(&self) -> (r: &MemorySystem)
        ensures
            r@ == self.spec_bus(),
    {
        &self.bus
    }

    pub fn breakpoint_manager(&self) -> (r: &BreakpointManager)
        ensures
            r@ == self.spec_breakpoints(),
    {
        &self.breakpoint_manager
    }

    /// The breakpoint set, to be changed in place.
    pub fn breakpoint_manager_mut(&mut self) -> (r: &mut BreakpointManager)
        ensures
            r@ == old(self).spec_breakpoints(),
            final(self).spec_breakpoints() == final(r)@,
            final(self).spec_cpu() == old(self).spec_cpu(),
            final(self).spec_bus() == old(self).spec_bus(),
    {
        &mut self.breakpoint_manager
    }

    pub fn add_breakpoint(&mut self, address: u16)
        requires
            old(self).wf(),
        ensures
            final(self).wf(),
            final(self).spec_breakpoints() == old(self).spec_breakpoints().insert(address),
            final(self).spec_cpu() == old(self).spec_cpu(),
    {
        self.breakpoint_manager.add_breakpoint(address);
    }

    pub fn remove_breakpoint(&mut self, address: u16)
        requires
            old(self).wf(),
        ensures
            final(self).wf(),
            final(self).spec_breakpoints() == old(self).spec_breakpoints().remove(address),
            final(self).spec_cpu() == old(self).spec_cpu(),
    {
        self.breakpoint_manager.remove_breakpoint(address);
    }

    pub fn clear_breakpoints(&mut self)
        requires
            old(self).wf(),
        ensures
            final(self).wf(),
            final(self).spec_breakpoints() == Set::<u16>::empty(),
            final(self).spec_cpu() == old(self).spec_cpu(),
    {
        self.breakpoint_manager.clear();
    }

    pub fn button_pressed(&mut self, button: Button)
        requires
            old(self).wf(),
        ensures
            final(self).wf(),
            final(self).spec_cpu() == old(self).spec_cpu(),
            old(self).spec_joypad().pressed(final(self).spec_joypad(), button),
            final(self).spec_bus() == old(self).spec_bus(),
    {
        self.joypad.button_pressed(button);
    }

    pub fn button_released(&mut self, button: Button)
        requires
            old(self).wf(),
        ensures
            final(self).wf(),
            final(self).spec_cpu() == old(self).spec_cpu(),
            old(self).spec_joypad().released(final(self).spec_joypad(), button),
            final(self).spec_bus() == old(self).spec_bus(),
    {
        self.joypad.button_released(button);
    }

    /// One instruction (or interrupt dispatch, or idle halted step), then
    /// the PPU, the timer (unless the CPU is stopped) and the joypad advance
    /// by its cycles. `LY` stays within `0..=153`.
    pub fn step(&mut self) -> (r: Result<u8, CpuError>)
        requires
            old(self).wf(),
        ensures
            final(self).wf(),
            final(self).spec_ly() < 154,
            r matches Ok(c) ==> c >= 4,
            final(self).spec_breakpoints() == old(self).spec_breakpoints(),
            final(self).spec_time() == old(self).spec_time(),
            final(self).spec_start_addr() == old(self).spec_start_addr(),
            old(self).step_spec(r, *final(self)),
            r matches Err(CpuError::UndefinedOpcode { pc, opcode }) ==> decode_spec(opcode) is None,
    {
        proof {
            reveal(Machine::step_spec);
        }
        let cycles = match self.cpu.step(&mut self.bus) {
            Ok(c) => c,
            Err(e) => {
                return Err(e);
            },
        };
        let ghost m1 = self.bus@;
        self.ppu.update(&mut self.bus, cycles as u32);
        let ghost m2 = self.bus@;
        if !self.cpu.stop() {
            self.timer.step(&mut self.bus, cycles);
        }
        let ghost m3 = self.bus@;
        self.joypad.update(&mut self.bus);
        let r = Ok(cycles);
        proof {
            assert(step_post(old(self).spec_cpu(), old(self).spec_bus(), r, self.spec_cpu(), m1));
            assert(old(self).spec_ppu().update_post(m1, cycles as u32, self.spec_ppu(), m2));
            assert(old(self).spec_joypad().update_post(m3, self.spec_joypad(), self.spec_bus()));
        }
        r
    }

    /// Steps until a frame's worth of cycles has passed or `PC` reaches a
    /// breakpoint. Returns the cycles taken and whether a breakpoint
    /// stopped it.
    pub fn step_frame(&mut self) -> (r: Result<(usize, bool), CpuError>)
        requires
            old(self).wf(),
        ensures
            final(self).wf(),
            final(self).spec_breakpoints() == old(self).spec_breakpoints(),
            r matches Ok((total, hit)) ==> {
                &&& hit == final(self).spec_breakpoints().contains(final(self).spec_cpu().spec_pc())
                &&& !hit ==> total >= FRAME_CYCLES
                &&& total < FRAME_CYCLES + 256
                &&& exists|states: Seq<Machine>, cycles: Seq<u8>|
                    #![trigger is_frame_run(states, cycles)]
                    {
                        &&& is_frame_run(states, cycles)
                        &&& cycles.len() > 0
                        &&& states[0] == *old(self)
                        &&& states.last() == *final(self)
                        &&& total == cycles_sum(cycles, cycles.len() as int)
                    }
            },
            r matches Err(CpuError::UndefinedOpcode { pc, opcode }) ==> decode_spec(opcode) is None,
    {
        let mut total: usize = 0;
        let ghost mut states: Seq<Machine> = seq![*self];
        let ghost mut run: Seq<u8> = Seq::empty();
        while total < FRAME_CYCLES
            invariant
                self.wf(),
                total < FRAME_CYCLES + 256,
                self.spec_breakpoints() == old(self).spec_breakpoints(),
                total > 0 ==> !self.spec_breakpoints().contains(self.spec_cpu().spec_pc()),
                total > 0 <==> run.len() > 0,
                is_frame_run(states, run),
                states[0] == *old(self),
                states.last() == *self,
                total == cycles_sum(run, run.len() as int),
                forall|i: int| 0 <= i < states.len() ==> (#[trigger] states[i]).spec_breakpoints()
                    == old(self).spec_breakpoints(),
            decreases FRAME_CYCLES + 256 - total,
        {
            let ghost before = *self;
            let cycles = match self.step() {
                Ok(c) => c,
                Err(e) => {
                    return Err(e);
                },
            };
            proof {
                lemma_extend_run(states, run, *self, cycles);
                states = states.push(*self);
                run = run.push(cycles);
            }
            total = total + cycles as usize;
            if self.breakpoint_manager.has_breakpoint(self.cpu.pc()) {
                return Ok((total, true));
            }
        }
        Ok((total, false))
    }

    /// Runs for `elapsed_nanos` of wall-clock time at the machine cycle
    /// period: time accumulates, and each step pays for its cycles.
    pub fn advance(&mut self, elapsed_nanos: u64) -> (r: Result<(), CpuError>)
        requires
            old(self).wf(),
        ensures
            final(self).wf(),
            r is Ok ==> final(self).spec_time() < NANOS_PER_CYCLE,
            r matches Err(CpuError::UndefinedOpcode { pc, opcode }) ==> decode_spec(opcode) is None,
            final(self).spec_breakpoints() == old(self).spec_breakpoints(),
    {
        self.time_accumulator = self.time_accumulator.saturating_add(elapsed_nanos);
        while self.time_accumulator >= NANOS_PER_CYCLE
            invariant
                self.wf(),
                self.spec_breakpoints() == old(self).spec_breakpoints(),
            decreases self.time_accumulator,
        {
            let cycles = match self.step() {
                Ok(c) => c,
                Err(e) => {
                    return Err(e);
                },
            };
            let cost = cycles as u64 * NANOS_PER_CYCLE;
            self.time_accumulator = if self.time_accumulator > cost {
                self.time_accumulator - cost
            } else {
                0
            };
        }
        Ok(())
    }

    pub closed spec fn spec_time(&self) -> u64 {
        self.time_accumulator
    }

    /// Resets the bus (VRAM cleared, boot ROM mapped back if mounted), the
    /// CPU, timer, PPU and joypad; `IE = 0x00`, `IF = 0xE1`; with a boot ROM,
    /// `PC = 0x0000`.
    pub fn reset(&mut self)
        requires
            old(self).wf(),
        ensures
            final(self).wf(),
            final(self).spec_ly() == 0,
            final(self).spec_breakpoints() == old(self).spec_breakpoints(),
            old(self).spec_start_addr() is None ==> final(self).spec_cpu().is_power_on(),
            final(self).spec_bus().peek(REG_IE) == 0x00,
            final(self).spec_bus().peek(REG_IF) == 0xE1,
            final(self).spec_bus().peek(REG_LCDC) == 0x91,
            final(self).spec_bus().peek(REG_BGP) == 0xFC,
            final(self).spec_bus().peek(REG_OBP0) == 0xFF,
            final(self).spec_bus().peek(REG_OBP1) == 0xFF,
            forall|a: u16| 0x8000 <= a < 0xA000 ==> #[trigger] final(self).spec_bus().peek(a) == 0,
            final(self).spec_bus().boot_rom_enabled == old(self).spec_bus().boot_rom_loaded,
            final(self).spec_bus().boot_rom_loaded == old(self).spec_bus().boot_rom_loaded,
            old(self).spec_start_addr() is Some ==> final(self).spec_cpu().is_power_on_at(0x0000),
    {
        self.bus.reset();
        self.cpu.reset();
        if let Some(addr) = self.start_addr {
            self.cpu.set_pc(addr);
        }
        self.timer.reset(&mut self.bus);
        self.ppu.reset(&mut self.bus);
        self.joypad.reset(&mut self.bus);
        self.bus.write_internal_byte(REG_IE, 0x00);
        self.bus.write_internal_byte(REG_IF, 0xE1);
    }
}

} // verus!

//! Register lists of the block data transfers (LDM/STM, PUSH/POP): which
//! registers a list names, how many, and at which ascending addresses they
//! are transferred.

use vstd::prelude::*;
use crate::cpu::ArmCpu;
use crate::cpu::ArmMemory;
use crate::cpu::MemoryModel;
use crate::cpu::mem_word;
use crate::cpu::plain_unchanged;
use crate::cpu::plain_word;
use crate::registers::CpuMode;
use crate::registers::lemma_bank_index_injective;

verus! {

/// Whether bit `i` of the register list is set. `i` must lie below 32.
pub open spec fn bit_set(list: u32, i: int) -> bool {
    (list >> (i as u32)) % 2 == 1
}

/// The number of set bits among the low `i` bits of `list`.
pub open spec fn popcount_low(list: u32, i: int) -> int
    decreases i,
{
    if i <= 0 {
        0
    } else {
        popcount_low(list, i - 1) + (if bit_set(list, i - 1) {
            1int
        } else {
            0int
        })
    }
}

/// The address at which register `i` of the list is transferred when the
/// lowest-addressed word of the block sits at `base`: registers are taken in
/// ascending numerical order, each one word above the previous.
pub open spec fn transfer_addr(base: u32, list: u32, i: int) -> u32 {
    base.wrapping_add((4 * popcount_low(list, i)) as u32)
}

/// Every word the transfer touches accepts plain stores (registers `0 <= i <
/// n` of the list).
pub open spec fn words_plain<M: MemoryModel>(m: &M, base: u32, list: u32, n: int) -> bool {
    forall|i: int|
        0 <= i < n && bit_set(list, i) ==> plain_word(m, #[trigger] transfer_addr(base, list, i))
}

/// Whether byte address `a` lies inside one of the words that registers
/// `0 <= i < n` of the list are transferred to.
pub open spec fn block_touched(base: u32, list: u32, n: int, a: u32) -> bool {
    exists|i: int|
        0 <= i < n && bit_set(list, i) && in_word(#[trigger] transfer_addr(base, list, i), a)
}

/// Whether byte address `a` is one of the four bytes of the word at `w`.
pub open spec fn in_word(w: u32, a: u32) -> bool {
    ||| a == w
    ||| a == w.wrapping_add(1)
    ||| a == w.wrapping_add(2)
    ||| a == w.wrapping_add(3)
}

pub proof fn lemma_popcount_low_bounds(list: u32, i: int)
    ensures
        0 <= popcount_low(list, i) <= if i <= 0 {
            0int
        } else {
            i
        },
    decreases i,
{
    if i > 0 {
        lemma_popcount_low_bounds(list, i - 1);
    }
}

pub proof fn lemma_popcount_low_mono(list: u32, i: int, j: int)
    requires
        i <= j,
    ensures
        popcount_low(list, i) <= popcount_low(list, j),
    decreases j - i,
{
    if i < j {
        lemma_popcount_low_mono(list, i, j - 1);
    }
}

/// Among the registers a list names, a lower register number is transferred
/// at a strictly lower rank (and so at a strictly lower address of the
/// block): ascending memory order corresponds to ascending register index.
pub proof fn lemma_ranks_ascend(list: u32, i: int, j: int)
    requires
        0 <= i < j,
        bit_set(list, i),
    ensures
        popcount_low(list, i) < popcount_low(list, j),
{
    assert(popcount_low(list, i + 1) == popcount_low(list, i) + 1);
    lemma_popcount_low_mono(list, i + 1, j);
}

/// Adding two different offsets below 256 to one base gives two different
/// wrapped addresses.
pub proof fn lemma_small_offsets_distinct()
    by (bit_vector)
    ensures
        forall|b: u32, x: u32, y: u32|
            x < 256 && y < 256 && x != y ==> #[trigger] b.wrapping_add(x)
                != #[trigger] b.wrapping_add(y),
{
}

/// Wrapped address arithmetic with small offsets: adding in two steps is
/// adding once, and adding a multiple of four to a word-aligned base stays
/// word-aligned.
pub proof fn lemma_wadd_facts()
    by (bit_vector)
    ensures
        forall|b: u32, x: u32, y: u32|
            x < 128 && y < 128 ==> #[trigger] b.wrapping_add(x).wrapping_add(y) == b.wrapping_add(
                (x + y) as u32,
            ),
        forall|b: u32, x: u32|
            b % 4 == 0 && x % 4 == 0 ==> #[trigger] b.wrapping_add(x) % 4 == 0,
{
}

/// One step of the transfer-address recurrence: the next register's address
/// is one word higher when this register is in the list.
pub proof fn lemma_transfer_addr_step(start: u32, list: u32, i: int)
    requires
        0 <= i < 16,
    ensures
        transfer_addr(start, list, i + 1) == if bit_set(list, i) {
            transfer_addr(start, list, i).wrapping_add(4)
        } else {
            transfer_addr(start, list, i)
        },
{
    lemma_popcount_low_bounds(list, i);
    if bit_set(list, i) {
        lemma_wadd_facts();
        assert(start.wrapping_add((4 * popcount_low(list, i)) as u32).wrapping_add(4)
            == start.wrapping_add((4 * popcount_low(list, i) + 4) as u32));
    }
}

/// Stores the registers `0 <= i < n` named by `list` (as `mode` sees them) at
/// ascending word addresses starting at `start`. When `start` is word-aligned
/// and every touched word accepts plain stores, each named register `i` lands
/// in the word `popcount_low(list, i)` words above `start`, and no byte
/// outside those words changes. The processor itself is untouched; the access
/// cycle count is returned.
#[verifier::rlimit(80)]
pub fn store_block<M: ArmMemory>(
    cpu: &ArmCpu,
    memory: &mut M,
    mode: CpuMode,
    start: u32,
    list: u32,
    n: u32,
) -> (c: u32)
    requires
        cpu.wf(),
        n <= 16,
    ensures
        c <= 64 * n,
        plain_unchanged(final(memory), old(memory)),
        (start % 4 == 0 && words_plain(old(memory), start, list, n as int)) ==> ({
            &&& forall|i: int|
                0 <= i < n && bit_set(list, i) ==> mem_word(
                    final(memory),
                    #[trigger] transfer_addr(start, list, i),
                ) == cpu.registers.reg_with_mode_spec(mode, i)
            &&& forall|a: u32|
                !block_touched(start, list, n as int, a) ==> final(memory).byte_at(a) == old(
                    memory,
                ).byte_at(a)
        }),
{
    let ghost pre_mem = *memory;
    let ghost h = start % 4 == 0 && words_plain(&pre_mem, start, list, n as int);
    let mut c: u32 = 0;
    let mut reg: u32 = 0;
    let mut addr: u32 = start;
    let mut seq = false;
    proof {
        lemma_wadd_facts();
        crate::bits::lemma_align_facts();
    }
    while reg < n
        invariant
            cpu.wf(),
            n <= 16,
            reg <= n,
            addr == transfer_addr(start, list, reg as int),
            c <= 64 * reg,
            plain_unchanged(memory, &pre_mem),
            h == (start % 4 == 0 && words_plain(&pre_mem, start, list, n as int)),
            h ==> forall|a: u32|
                !block_touched(start, list, reg as int, a) ==> memory.byte_at(a)
                    == pre_mem.byte_at(a),
            h ==> forall|i: int|
                0 <= i < reg && bit_set(list, i) ==> mem_word(
                    memory,
                    #[trigger] transfer_addr(start, list, i),
                ) == cpu.registers.reg_with_mode_spec(mode, i),
        decreases n - reg,
    {
        proof {
            lemma_transfer_addr_step(start, list, reg as int);
            lemma_popcount_low_bounds(list, reg as int);
        }
        if (list >> reg) % 2 == 1 {
            let value = cpu.registers.read_with_mode(mode, reg);
            let ghost m_before = *memory;
            let sc = memory.write_data_word(addr, value, seq);
            c += sc;
            seq = true;
            proof {
                lemma_wadd_facts();
                crate::bits::lemma_align_facts();
                lemma_small_offsets_distinct();
                if h {
                    // The address of this word, and alignment.
                    assert(addr == start.wrapping_add((4 * popcount_low(list, reg as int)) as u32));
                    assert(addr % 4 == 0);
                    assert(addr & 0xFFFF_FFFC == addr);
                    assert(addr <= 0xFFFF_FFFC);
                    // The word accepts plain stores, now as before.
                    assert(plain_word(&pre_mem, transfer_addr(start, list, reg as int)));
                    assert(m_before.plain(addr) && m_before.plain((addr + 1) as u32)
                        && m_before.plain((addr + 2) as u32) && m_before.plain((addr + 3) as u32));
                    // This word now reads back as the stored register.
                    crate::bits::lemma_word_bytes_roundtrip(value);
                    assert(mem_word(memory, addr) == value);
                    // Bytes outside the first reg + 1 words are untouched.
                    assert forall|a: u32| !block_touched(start, list, reg as int + 1, a) implies
                        memory.byte_at(a) == pre_mem.byte_at(a) by {
                        assert(!in_word(transfer_addr(start, list, reg as int), a));
                        assert(!block_touched(start, list, reg as int, a));
                        assert(a != addr && a != addr.wrapping_add(1) && a != addr.wrapping_add(2)
                            && a != addr.wrapping_add(3));
                    }
                    // Words already stored keep their contents: their bytes
                    // lie at smaller offsets from `start` than this store's.
                    assert forall|i: int| 0 <= i < reg + 1 && bit_set(list, i) implies mem_word(
                        memory,
                        #[trigger] transfer_addr(start, list, i),
                    ) == cpu.registers.reg_with_mode_spec(mode, i) by {
                        if i < reg {
                            let ta = transfer_addr(start, list, i);
                            lemma_ranks_ascend(list, i, reg as int);
                            lemma_popcount_low_bounds(list, i);
                            assert(ta == start.wrapping_add((4 * popcount_low(list, i)) as u32));
                            assert(ta % 4 == 0);
                            assert(ta <= 0xFFFF_FFFC);
                            // Each byte of word i differs from each byte of
                            // the word just stored.
                            // Every byte of word i sits at a smaller offset
                            // from `start` than every byte of the word just
                            // stored, so the two words share no byte.
                            assert((ta + 1) as u32 == start.wrapping_add(
                                (4 * popcount_low(list, i) + 1) as u32,
                            ));
                            assert((ta + 2) as u32 == start.wrapping_add(
                                (4 * popcount_low(list, i) + 2) as u32,
                            ));
                            assert((ta + 3) as u32 == start.wrapping_add(
                                (4 * popcount_low(list, i) + 3) as u32,
                            ));
                            assert((addr + 1) as u32 == start.wrapping_add(
                                (4 * popcount_low(list, reg as int) + 1) as u32,
                            ));
                            assert((addr + 2) as u32 == start.wrapping_add(
                                (4 * popcount_low(list, reg as int) + 2) as u32,
                            ));
                            assert((addr + 3) as u32 == start.wrapping_add(
                                (4 * popcount_low(list, reg as int) + 3) as u32,
                            ));
                            assert(memory.byte_at(ta) == m_before.byte_at(ta));
                            assert(memory.byte_at((ta + 1) as u32) == m_before.byte_at(
                                (ta + 1) as u32,
                            ));
                            assert(memory.byte_at((ta + 2) as u32) == m_before.byte_at(
                                (ta + 2) as u32,
                            ));
                            assert(memory.byte_at((ta + 3) as u32) == m_before.byte_at(
                                (ta + 3) as u32,
                            ));
                            assert(mem_word(memory, ta) == mem_word(&m_before, ta));
                        }
                    }
                }
            }
            addr = addr.wrapping_add(4);
        } else {
            proof {
                if h {
                    assert forall|a: u32| !block_touched(start, list, reg as int + 1, a) implies
                        memory.byte_at(a) == pre_mem.byte_at(a) by {
                        assert(!block_touched(start, list, reg as int, a));
                    }
                }
            }
        }
        reg += 1;
    }
    c
}

/// Loads the registers `0 <= i < n` named by `list` (as `mode` sees them)
/// from ascending word addresses starting at `start`: register `i` takes the
/// aligned word `popcount_low(list, i)` words above `start`. Registers the
/// list does not name, the status registers, the cycle counter and the memory
/// are untouched. R15 must not be in the list.
pub fn load_block<M: ArmMemory>(
    cpu: &mut ArmCpu,
    memory: &M,
    mode: CpuMode,
    start: u32,
    list: u32,
    n: u32,
) -> (c: u32)
    requires
        old(cpu).wf(),
        n <= 16,
        !bit_set(list, 15),
    ensures
        c <= 64 * n,
        final(cpu).wf(),
        final(cpu).registers.cpsr == old(cpu).registers.cpsr,
        final(cpu).registers.same_spsr(&old(cpu).registers),
        final(cpu).cycles == old(cpu).cycles,
        final(cpu).halted == old(cpu).halted,
        forall|k: int|
            #![trigger final(cpu).registers.reg_with_mode_spec(mode, k)]
            #![trigger transfer_addr(start, list, k)]
            0 <= k < 16 ==> final(cpu).registers.reg_with_mode_spec(mode, k) == if k < n
                && bit_set(list, k) {
                mem_word(memory, transfer_addr(start, list, k) & 0xFFFF_FFFC)
            } else {
                old(cpu).registers.reg_with_mode_spec(mode, k)
            },
{
    let ghost pre_cpu = *cpu;
    let mut c: u32 = 0;
    let mut reg: u32 = 0;
    let mut addr: u32 = start;
    let mut seq = false;
    #[verifier::loop_isolation(false)]
    while reg < n
        invariant
            cpu.wf(),
            n <= 16,
            reg <= n,
            addr == transfer_addr(start, list, reg as int),
            c <= 64 * reg,
            cpu.registers.cpsr == pre_cpu.registers.cpsr,
            cpu.registers.same_spsr(&pre_cpu.registers),
            cpu.cycles == pre_cpu.cycles,
            cpu.halted == pre_cpu.halted,
            forall|k: int|
                #![trigger cpu.registers.reg_with_mode_spec(mode, k)]
                #![trigger transfer_addr(start, list, k)]
                0 <= k < 16 ==> cpu.registers.reg_with_mode_spec(mode, k) == if k < reg
                    && bit_set(list, k) {
                    mem_word(memory, transfer_addr(start, list, k) & 0xFFFF_FFFC)
                } else {
                    pre_cpu.registers.reg_with_mode_spec(mode, k)
                },
        decreases n - reg,
    {
        proof {
            lemma_transfer_addr_step(start, list, reg as int);
        }
        if (list >> reg) % 2 == 1 {
            let (value, sc) = memory.read_data_word(addr, seq);
            cpu.registers.write_with_mode(mode, reg, value);
            c += sc;
            seq = true;
            proof {
                assert forall|k: int|
                    #![trigger cpu.registers.reg_with_mode_spec(mode, k)]
                    #![trigger transfer_addr(start, list, k)]
                    0 <= k < 16 implies cpu.registers.reg_with_mode_spec(mode, k) == if k
                    < reg + 1 && bit_set(list, k) {
                    mem_word(memory, transfer_addr(start, list, k) & 0xFFFF_FFFC)
                } else {
                    pre_cpu.registers.reg_with_mode_spec(mode, k)
                } by {
                    let ta = transfer_addr(start, list, k);
                    crate::registers::lemma_bank_index_bounds(mode, k);
                    crate::registers::lemma_bank_index_bounds(mode, reg as int);
                    if k != reg as int {
                        lemma_bank_index_injective(mode, k, reg as int);
                    } else {
                        assert(bit_set(list, k));
                        assert(addr == transfer_addr(start, list, k));
                        assert(value == mem_word(memory, addr & 0xFFFF_FFFC));
                        assert(cpu.registers.reg_with_mode_spec(mode, k) == value);
                    }
                }
            }
            addr = addr.wrapping_add(4);
        } else {
            proof {
                assert forall|k: int|
                    #![trigger cpu.registers.reg_with_mode_spec(mode, k)]
                    #![trigger transfer_addr(start, list, k)]
                    0 <= k < 16 implies cpu.registers.reg_with_mode_spec(mode, k) == if k
                    < reg + 1 && bit_set(list, k) {
                    mem_word(memory, transfer_addr(start, list, k) & 0xFFFF_FFFC)
                } else {
                    pre_cpu.registers.reg_with_mode_spec(mode, k)
                } by {
                    let ta = transfer_addr(start, list, k);
                }
            }
        }
        reg += 1;
    }
    proof {
        assert forall|k: int|
            #![trigger cpu.registers.reg_with_mode_spec(mode, k)]
            #![trigger transfer_addr(start, list, k)]
            0 <= k < 16 implies cpu.registers.reg_with_mode_spec(mode, k) == if k < n
            && bit_set(list, k) {
            mem_word(memory, transfer_addr(start, list, k) & 0xFFFF_FFFC)
        } else {
            pre_cpu.registers.reg_with_mode_spec(mode, k)
        } by {
            let ta = transfer_addr(start, list, k);
        }
    }
    c
}


/// Masking a register list to its low fifteen bits keeps every bit below 15
/// and clears bit 15.
pub proof fn lemma_list_mask_facts()
    by (bit_vector)
    ensures
        forall|l: u32| #[trigger] ((l % 0x8000) >> 15u32) % 2 == 0,
        forall|l: u32, i: u32|
            i < 15 ==> #[trigger] ((l % 0x8000) >> i) % 2 == (l >> i) % 2,
{
}

/// Counting set bits ignores bit 15 once the list is masked below it.
pub proof fn lemma_popcount_mask(list: u32, k: int)
    requires
        0 <= k <= 15,
    ensures
        popcount_low(list % 0x8000, k) == popcount_low(list, k),
    decreases k,
{
    lemma_list_mask_facts();
    if k > 0 {
        lemma_popcount_mask(list, k - 1);
    }
}

/// The full count of a 16-register list is the count of its low fifteen bits
/// plus its PC bit.
pub proof fn lemma_popcount_split_pc(list: u32)
    ensures
        popcount_low(list, 16) == popcount_low(list % 0x8000, 16) + (if bit_set(list, 15) {
            1int
        } else {
            0int
        }),
        !bit_set(list % 0x8000, 15),
        popcount_low(list % 0x8000, 16) == popcount_low(list % 0x8000, 15),
{
    lemma_list_mask_facts();
    lemma_popcount_mask(list, 15);
}

/// Counts the registers named among the low `n` bits of `list`.
pub fn count_set_bits(list: u32, n: u32) -> (c: u32)
    requires
        n <= 32,
    ensures
        c == popcount_low(list, n as int),
        c <= n,
{
    let mut c: u32 = 0;
    let mut i: u32 = 0;
    while i < n
        invariant
            i <= n,
            n <= 32,
            c == popcount_low(list, i as int),
            c <= i,
        decreases n - i,
    {
        if (list >> i) % 2 == 1 {
            c += 1;
        }
        i += 1;
    }
    c
}

} // verus!

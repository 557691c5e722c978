//! Byte offsets of the controller's registers inside its 0x4000-byte window,
//! as the SoC's register map documents them. Every register is 32 bits wide
//! and starts on a 4-byte boundary; reserved space separates the blocks.

use vstd::prelude::*;

verus! {

/// Size of the register window in bytes.
pub const WINDOW_BYTES: usize = 0x4000;

/// Number of 32-bit slots in the register window.
pub const WINDOW_WORDS: usize = 0x1000;

// Core registers.
pub const MDCTL: usize = 0x000;
pub const MDPDC: usize = 0x004;
pub const MDOTC: usize = 0x008;
pub const MDCFG0: usize = 0x00C;
pub const MDCFG1: usize = 0x010;
pub const MDCFG2: usize = 0x014;
pub const MDMISC: usize = 0x018;
pub const MDSCR: usize = 0x01C;
pub const MDREF: usize = 0x020;
pub const MDWCC: usize = 0x024;
pub const MDRCC: usize = 0x028;
pub const MDRWD: usize = 0x02C;
pub const MDOR: usize = 0x030;
pub const MDMRR: usize = 0x034;
pub const MDCFG3LP: usize = 0x038;
pub const MDMR4: usize = 0x03C;
pub const MDASP: usize = 0x040;

// Arbitration and profiling registers.
pub const MAARCR: usize = 0x400;
pub const MAPSR: usize = 0x404;
pub const MAEXIDR0: usize = 0x408;
pub const MAEXIDR1: usize = 0x40C;
pub const MADPCR0: usize = 0x410;
pub const MADPCR1: usize = 0x414;
pub const MADPSR0: usize = 0x418;
pub const MADPSR1: usize = 0x41C;
pub const MADPSR2: usize = 0x420;
pub const MADPSR3: usize = 0x424;
pub const MADPSR4: usize = 0x428;
pub const MADPSR5: usize = 0x42C;
pub const MASBS0: usize = 0x430;
pub const MASBS1: usize = 0x434;
pub const MAGENP: usize = 0x440;

// PHY registers.
pub const MPZQHWCTRL: usize = 0x800;
pub const MPZQSWCTRL: usize = 0x804;
pub const MPWLGCR: usize = 0x808;
pub const MPWLDECTRL0: usize = 0x80C;
pub const MPWLDECTRL1: usize = 0x810;
pub const MPWLDLST: usize = 0x814;
pub const MPODTCTRL: usize = 0x818;
pub const MPREDQBY0DL: usize = 0x81C;
pub const MPREDQBY1DL: usize = 0x820;
pub const MPREDQBY2DL: usize = 0x824;
pub const MPREDQBY3DL: usize = 0x828;
pub const MPWRDQBY0DL: usize = 0x82C;
pub const MPWRDQBY1DL: usize = 0x830;
pub const MPWRDQBY2DL: usize = 0x834;
pub const MPWRDQBY3DL: usize = 0x838;
pub const MPDGCTRL0: usize = 0x83C;
pub const MPDGCTRL1: usize = 0x840;
pub const MPDGDLST: usize = 0x844;
pub const MPRDDLCTL: usize = 0x848;
pub const MPRDDLST: usize = 0x84C;
pub const MPWRDLCTL: usize = 0x850;
pub const MPWRDLST: usize = 0x854;
pub const MPSDCTRL: usize = 0x858;
pub const MPZQLP2CTL: usize = 0x85C;
pub const MPRDDLHWCTL: usize = 0x860;
pub const MPWRDLHWCTL: usize = 0x864;
pub const MPRDDLHWST0: usize = 0x868;
pub const MPRDDLHWST1: usize = 0x86C;
pub const MPWRDLHWST0: usize = 0x870;
pub const MPWRDLHWST1: usize = 0x874;
pub const MPWLHWERR: usize = 0x878;
pub const MPDGHWST0: usize = 0x87C;
pub const MPDGHWST1: usize = 0x880;
pub const MPDGHWST2: usize = 0x884;
pub const MPDGHWST3: usize = 0x888;
pub const MPPDCMPR1: usize = 0x88C;
pub const MPPDCMPR2: usize = 0x890;
pub const MPSWDAR: usize = 0x894;
pub const MPSWDRDR0: usize = 0x898;
pub const MPSWDRDR1: usize = 0x89C;
pub const MPSWDRDR2: usize = 0x8A0;
pub const MPSWDRDR3: usize = 0x8A4;
pub const MPSWDRDR4: usize = 0x8A8;
pub const MPSWDRDR5: usize = 0x8AC;
pub const MPSWDRDR6: usize = 0x8B0;
pub const MPSWDRDR7: usize = 0x8B4;
pub const MPMUR: usize = 0x8B8;
pub const MPWRCADL: usize = 0x8BC;
pub const MPDCCR: usize = 0x8C0;
pub const MPBC: usize = 0x8C4;

/// Every named register, in increasing order of offset.
pub open spec fn named_offsets() -> Seq<usize> {
    seq![
        MDCTL,
        MDPDC,
        MDOTC,
        MDCFG0,
        MDCFG1,
        MDCFG2,
        MDMISC,
        MDSCR,
        MDREF,
        MDWCC,
        MDRCC,
        MDRWD,
        MDOR,
        MDMRR,
        MDCFG3LP,
        MDMR4,
        MDASP,
        MAARCR,
        MAPSR,
        MAEXIDR0,
        MAEXIDR1,
        MADPCR0,
        MADPCR1,
        MADPSR0,
        MADPSR1,
        MADPSR2,
        MADPSR3,
        MADPSR4,
        MADPSR5,
        MASBS0,
        MASBS1,
        MAGENP,
        MPZQHWCTRL,
        MPZQSWCTRL,
        MPWLGCR,
        MPWLDECTRL0,
        MPWLDECTRL1,
        MPWLDLST,
        MPODTCTRL,
        MPREDQBY0DL,
        MPREDQBY1DL,
        MPREDQBY2DL,
        MPREDQBY3DL,
        MPWRDQBY0DL,
        MPWRDQBY1DL,
        MPWRDQBY2DL,
        MPWRDQBY3DL,
        MPDGCTRL0,
        MPDGCTRL1,
        MPDGDLST,
        MPRDDLCTL,
        MPRDDLST,
        MPWRDLCTL,
        MPWRDLST,
        MPSDCTRL,
        MPZQLP2CTL,
        MPRDDLHWCTL,
        MPWRDLHWCTL,
        MPRDDLHWST0,
        MPRDDLHWST1,
        MPWRDLHWST0,
        MPWRDLHWST1,
        MPWLHWERR,
        MPDGHWST0,
        MPDGHWST1,
        MPDGHWST2,
        MPDGHWST3,
        MPPDCMPR1,
        MPPDCMPR2,
        MPSWDAR,
        MPSWDRDR0,
        MPSWDRDR1,
        MPSWDRDR2,
        MPSWDRDR3,
        MPSWDRDR4,
        MPSWDRDR5,
        MPSWDRDR6,
        MPSWDRDR7,
        MPMUR,
        MPWRCADL,
        MPDCCR,
        MPBC,
    ]
}

/// A register's byte offset: aligned, and inside the window.
pub open spec fn valid_offset(offset: usize) -> bool {
    offset % 4 == 0 && offset < WINDOW_BYTES
}

/// The named registers lie at strictly increasing aligned offsets inside the
/// window, so no two of them share a byte.
#[verifier::rlimit(100)]
pub proof fn lemma_offsets_disjoint()
    ensures
        forall|i: int| 0 <= i < named_offsets().len() ==> valid_offset(#[trigger] named_offsets()[i]),
        forall|i: int, j: int|
            0 <= i < j < named_offsets().len() ==> named_offsets()[i] + 4 <= named_offsets()[j],
{
    let s = named_offsets();
    assert forall|i: int| 0 <= i < s.len() - 1 implies #[trigger] s[i] + 4 <= s[i + 1] by {}
    assert forall|i: int, j: int| 0 <= i < j < s.len() implies s[i] + 4 <= s[j] by {
        lemma_ordered_step(s, i, j);
    }
}

proof fn lemma_ordered_step(s: Seq<usize>, i: int, j: int)
    requires
        0 <= i < j < s.len(),
        forall|k: int| 0 <= k < s.len() - 1 ==> #[trigger] s[k] + 4 <= s[k + 1],
    ensures
        s[i] + 4 <= s[j],
    decreases j - i,
{
    if j > i + 1 {
        lemma_ordered_step(s, i, j - 1);
        assert(s[j - 1] + 4 <= s[j]);
    }
}

} // verus!

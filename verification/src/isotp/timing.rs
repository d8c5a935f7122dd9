//! Timing parameters of a transfer.

use vstd::prelude::*;
use crate::isotp::constants::{
    P2_MAX, P2_STAR_MAX, TIMEOUT_AR_ISO15765_2, TIMEOUT_AS_ISO15765_2, TIMEOUT_BR_ISO15765_2,
    TIMEOUT_BS_ISO15765_2, TIMEOUT_CR_ISO15765_2, TIMEOUT_CS_ISO15765_2,
};
use crate::isotp::common::FlowControlContext;

verus! {

/// P2 (milliseconds) and P2* (units of 10 milliseconds) of a session.
#[derive(Debug, Copy, Clone)]
pub struct P2 {
    pub(crate) p2: u16,
    pub(crate) p2_star: u16,
}

impl P2 {
    pub closed spec fn spec_p2(self) -> u16 {
        self.p2
    }

    pub closed spec fn spec_p2_star(self) -> u16 {
        self.p2_star
    }

    /// The largest values: P2_MAX and P2_STAR_MAX.
    pub fn default_p2() -> (r: P2)
        ensures
            r.spec_p2() == P2_MAX,
            r.spec_p2_star() == P2_STAR_MAX,
    {
        P2 { p2: P2_MAX, p2_star: P2_STAR_MAX }
    }

    pub fn p2_ms(&self) -> (r: u64)
        ensures
            r == self.spec_p2(),
    {
        self.p2 as u64
    }

    pub fn p2_star_ms(&self) -> (r: u64)
        ensures
            r == self.spec_p2_star() * 10,
    {
        self.p2_star as u64 * 10
    }

    /// Sets P2 (capped at P2_MAX) and P2* from milliseconds (in units of 10
    /// milliseconds, the quotient cut to 16 bits, capped at P2_STAR_MAX).
    pub fn update(&mut self, p2_ms: u16, p2_star_ms: u32)
        ensures
            final(self).spec_p2() == if p2_ms > P2_MAX { P2_MAX } else { p2_ms },
            final(self).spec_p2_star() == if ((p2_star_ms / 10) as u16) > P2_STAR_MAX {
                P2_STAR_MAX
            } else {
                (p2_star_ms / 10) as u16
            },
    {
        let p2_star = (p2_star_ms / 10) as u16;
        self.p2 = if p2_ms > P2_MAX { P2_MAX } else { p2_ms };
        self.p2_star = if p2_star > P2_STAR_MAX { P2_STAR_MAX } else { p2_star };
    }
}

/// Flow control that a sender keeps: separation time (microseconds) and block size.
#[derive(Debug, Copy, Clone)]
pub struct FlowCtrl {
    pub st_min: u32,
    pub block_size: u8,
}

impl FlowCtrl {
    /// The flow control of a received context.
    pub fn from_context(ctx: &FlowControlContext) -> (r: FlowCtrl)
        ensures
            r.st_min == ctx.spec_st_min_us(),
            r.block_size == ctx.spec_block_size(),
    {
        FlowCtrl { st_min: ctx.st_min_us(), block_size: ctx.block_size() }
    }
}

/// Network layer timeouts, in milliseconds.
#[derive(Debug, Copy, Clone)]
pub struct Timeout {
    /// Network layer acknowledgement time by receiver.
    pub n_ar: u64,
    /// Network layer acknowledgement time by sender.
    pub n_as: u64,
    /// Network layer block time by receiver.
    pub n_br: u64,
    /// Network layer block time by sender.
    pub n_bs: u64,
    /// Network layer next consecutive frame time by sender.
    pub n_cs: u64,
    /// Network layer consecutive frame time by receiver.
    pub n_cr: u64,
}

impl Timeout {
    /// The ISO 15765-2 defaults (N_Cs and N_Cr take each other's constant).
    pub open spec fn spec_default() -> Timeout {
        Timeout {
            n_ar: TIMEOUT_AR_ISO15765_2 as u64,
            n_as: TIMEOUT_AS_ISO15765_2 as u64,
            n_br: TIMEOUT_BR_ISO15765_2 as u64,
            n_bs: TIMEOUT_BS_ISO15765_2 as u64,
            n_cs: TIMEOUT_CR_ISO15765_2 as u64,
            n_cr: TIMEOUT_CS_ISO15765_2 as u64,
        }
    }

    /// The ISO 15765-2 defaults.
    pub fn default_timeout() -> (r: Timeout)
        ensures
            r == Timeout::spec_default(),
    {
        Timeout {
            n_ar: TIMEOUT_AR_ISO15765_2 as u64,
            n_as: TIMEOUT_AS_ISO15765_2 as u64,
            n_br: TIMEOUT_BR_ISO15765_2 as u64,
            n_bs: TIMEOUT_BS_ISO15765_2 as u64,
            n_cs: TIMEOUT_CR_ISO15765_2 as u64,
            n_cr: TIMEOUT_CS_ISO15765_2 as u64,
        }
    }
}

} // verus!

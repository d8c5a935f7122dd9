use vstd::prelude::*;

verus! {

/// Bit of the deprecated "wait single" state.
pub const STATE_WAIT_SINGLE: u8 = 0b0000_0001;
/// Bit of the deprecated "wait first" state.
pub const STATE_WAIT_FIRST: u8 = 0b0000_0010;
/// Bit of the "waiting for a flow control frame" state.
pub const STATE_WAIT_FLOW_CTRL: u8 = 0b0000_0100;
/// Bit of the deprecated "wait data" state.
pub const STATE_WAIT_DATA: u8 = 0b0000_1000;
/// Bit of the "peer asked to wait" state.
pub const STATE_WAIT_BUSY: u8 = 0b0001_0000;
/// Bit of the deprecated "response pending" state.
pub const STATE_RESPONSE_PENDING: u8 = 0b0010_0000;
/// Bit of the "frame handed to the device, not yet acknowledged" state.
pub const STATE_SENDING: u8 = 0b0100_0000;
/// Bit of the error state.
pub const STATE_ERROR: u8 = 0b1000_0000;

/// ISO 15765-2 transfer state: a set of flags, empty when idle.
#[derive(Debug, Copy, Clone, PartialEq, Eq, Structural)]
pub struct State {
    bits: u8,
}

impl View for State {
    type V = u8;

    closed spec fn view(&self) -> u8 {
        self.bits
    }
}

/// Whether all bits of `flags` are set in `bits`.
pub open spec fn bits_contain(bits: u8, flags: u8) -> bool {
    bits & flags == flags
}

/// The flag names, in display order, with their bits.
pub open spec fn flag_name(i: int) -> (u8, &'static str) {
    if i == 0 {
        (STATE_WAIT_SINGLE, "WaitSingle")
    } else if i == 1 {
        (STATE_WAIT_FIRST, "WaitFirst")
    } else if i == 2 {
        (STATE_WAIT_FLOW_CTRL, "WaitFlowCtrl")
    } else if i == 3 {
        (STATE_WAIT_DATA, "WaitData")
    } else if i == 4 {
        (STATE_WAIT_BUSY, "WaitBusy")
    } else if i == 5 {
        (STATE_RESPONSE_PENDING, "ResponsePending")
    } else if i == 6 {
        (STATE_SENDING, "Sending")
    } else {
        (STATE_ERROR, "Error")
    }
}

/// Names of the flags among the first `n` (in display order) that are set in `bits`.
pub open spec fn set_flag_names(bits: u8, n: nat) -> Seq<Seq<char>>
    decreases n,
{
    if n == 0 {
        Seq::empty()
    } else {
        let prev = set_flag_names(bits, (n - 1) as nat);
        let (bit, name) = flag_name(n - 1);
        if bits & bit != 0 {
            prev.push(name@)
        } else {
            prev
        }
    }
}

/// Words joined by " | ".
pub open spec fn join_bar(parts: Seq<Seq<char>>) -> Seq<char>
    decreases parts.len(),
{
    if parts.len() == 0 {
        Seq::empty()
    } else if parts.len() == 1 {
        parts[0]
    } else {
        join_bar(parts.drop_last()) + " | "@ + parts.last()
    }
}

/// Text of a state: the names of its set flags joined by " | ", or "Idle".
pub open spec fn state_text(bits: u8) -> Seq<char> {
    let parts = set_flag_names(bits, 8);
    if parts.len() == 0 {
        "Idle"@
    } else {
        join_bar(parts)
    }
}

impl State {
    /// The idle state: no flag set.
    pub fn idle() -> (r: State)
        ensures
            r@ == 0,
    {
        State { bits: 0 }
    }

    /// The state with exactly the given bits.
    pub fn from_bits(bits: u8) -> (r: State)
        ensures
            r@ == bits,
    {
        State { bits }
    }

    pub fn bits(&self) -> (r: u8)
        ensures
            r == self@,
    {
        self.bits
    }

    pub fn is_idle(&self) -> (r: bool)
        ensures
            r == (self@ == 0),
    {
        self.bits == 0
    }

    /// Whether every flag of `other` is set.
    pub fn contains(&self, other: State) -> (r: bool)
        ensures
            r == bits_contain(self@, other@),
    {
        self.bits & other.bits == other.bits
    }

    /// The flags of both states.
    pub fn union(self, other: State) -> (r: State)
        ensures
            r@ == self@ | other@,
    {
        State { bits: self.bits | other.bits }
    }

    /// Clears every flag.
    pub fn clear(&mut self)
        ensures
            final(self)@ == 0,
    {
        self.bits = 0;
    }

    /// Sets the flags of `flags`; when `flags` holds the error flag only that flag is set.
    pub fn append(&mut self, flags: State)
        ensures
            bits_contain(flags@, STATE_ERROR) ==> final(self)@ == old(self)@ | STATE_ERROR,
            !bits_contain(flags@, STATE_ERROR) ==> final(self)@ == old(self)@ | flags@,
            bits_contain(flags@, STATE_ERROR) ==> bits_contain(final(self)@, STATE_ERROR),
            !bits_contain(flags@, STATE_ERROR) ==> bits_contain(final(self)@, flags@),
    {
        let b = self.bits;
        let f = flags.bits;
        if f & STATE_ERROR == STATE_ERROR {
            assert((b | 0x80u8) & 0x80u8 == 0x80u8) by (bit_vector);
            self.bits = b | STATE_ERROR;
        } else {
            assert((b | f) & f == f) by (bit_vector);
            self.bits = b | f;
        }
    }

    /// Clears the flags of `flags`, keeping the others.
    pub fn remove(&mut self, flags: State)
        ensures
            final(self)@ == old(self)@ & !flags@,
            final(self)@ & flags@ == 0,
            forall|bit: u8| #![trigger bits_contain(old(self)@, bit)]
                bit & flags@ == 0 && bits_contain(old(self)@, bit) ==> bits_contain(final(self)@, bit),
    {
        let b = self.bits;
        let f = flags.bits;
        assert((b & !f) & f == 0) by (bit_vector);
        assert forall|bit: u8| bit & f == 0 && b & bit == bit implies (b & !f) & bit == bit by {
            assert(bit & f == 0 && b & bit == bit ==> (b & !f) & bit == bit) by (bit_vector);
        }
        self.bits = b & !f;
    }

    /// The names of the set flags joined by " | ", or "Idle" when none is set.
    pub fn to_text(&self) -> (r: String)
        ensures
            r@ == state_text(self@),
    {
        let bits = self.bits;
        let mut parts: Vec<&'static str> = Vec::new();
        let mut i: usize = 0;
        while i < 8
            invariant
                i <= 8,
                parts@.len() == set_flag_names(bits, i as nat).len(),
                forall|k: int| 0 <= k < parts@.len() ==> #[trigger] parts@[k]@ == set_flag_names(bits, i as nat)[k],
            decreases 8 - i,
        {
            let (bit, name) = flag_entry(i);
            if bits & bit != 0 {
                parts.push(name);
            }
            i = i + 1;
        }
        let mut out = String::new();
        if parts.len() == 0 {
            out.append("Idle");
            return out;
        }
        let ghost names = set_flag_names(bits, 8);
        let mut j: usize = 0;
        while j < parts.len()
            invariant
                0 <= j <= parts@.len(),
                parts@.len() == names.len(),
                parts@.len() > 0,
                forall|k: int| 0 <= k < parts@.len() ==> #[trigger] parts@[k]@ == names[k],
                out@ == join_bar(names.take(j as int)),
            decreases parts@.len() - j,
        {
            if j > 0 {
                out.append(" | ");
            }
            out.append(parts[j]);
            proof {
                assert(names.take(j + 1).drop_last() =~= names.take(j as int));
                assert(names.take(j + 1).last() == names[j as int]);
                if j == 0 {
                    assert(names.take(1) =~= seq![names[0]]);
                    assert(out@ =~= names[0]);
                } else {
                    assert(out@ =~= join_bar(names.take(j as int)) + " | "@ + names[j as int]);
                }
            }
            j = j + 1;
        }
        assert(names.take(parts@.len() as int) =~= names);
        out
    }
}

/// The bit and name of the `i`-th flag in display order.
fn flag_entry(i: usize) -> (r: (u8, &'static str))
    requires
        i < 8,
    ensures
        r.0 == flag_name(i as int).0,
        r.1@ == flag_name(i as int).1@,
{
    if i == 0 {
        (STATE_WAIT_SINGLE, "WaitSingle")
    } else if i == 1 {
        (STATE_WAIT_FIRST, "WaitFirst")
    } else if i == 2 {
        (STATE_WAIT_FLOW_CTRL, "WaitFlowCtrl")
    } else if i == 3 {
        (STATE_WAIT_DATA, "WaitData")
    } else if i == 4 {
        (STATE_WAIT_BUSY, "WaitBusy")
    } else if i == 5 {
        (STATE_RESPONSE_PENDING, "ResponsePending")
    } else if i == 6 {
        (STATE_SENDING, "Sending")
    } else {
        (STATE_ERROR, "Error")
    }
}

} // verus!

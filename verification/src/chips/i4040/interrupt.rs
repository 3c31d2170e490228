//! The 4040's interrupt controller: EIN and DIN, the vector 0x003, and
//! the SRC value saved across the handler.

use vstd::prelude::*;

verus! {

/// Interrupt controller.
#[derive(Clone, Copy, Debug)]
pub struct InterruptCtrl {
    /// Whether interrupts are enabled.
    pub enabled: bool,
    /// Whether a request waits to be serviced.
    pub pending: bool,
    /// The SRC value saved when the last interrupt was serviced.
    pub src_save: u8,
}

impl InterruptCtrl {
    /// Whether a request will be serviced at the next instruction
    /// boundary.
    pub open spec fn due(self) -> bool {
        self.pending && self.enabled
    }

    /// The controller after a request: it is noted only while
    /// interrupts are enabled.
    pub open spec fn requested(self) -> InterruptCtrl {
        if self.enabled {
            InterruptCtrl { pending: true, ..self }
        } else {
            self
        }
    }

    /// The controller after an instruction boundary: a due request is
    /// serviced, which saves `current_src` and disables interrupts.
    pub open spec fn serviced(self, current_src: u8) -> InterruptCtrl {
        if self.due() {
            InterruptCtrl { enabled: false, pending: false, src_save: current_src }
        } else {
            self
        }
    }

    /// EIN: enables interrupts.
    #[inline]
    pub fn ein(&mut self)
        ensures
            *final(self) == (InterruptCtrl { enabled: true, ..*old(self) }),
    {
        self.enabled = true;
    }

    /// DIN: disables interrupts.
    #[inline]
    pub fn din(&mut self)
        ensures
            *final(self) == (InterruptCtrl { enabled: false, ..*old(self) }),
    {
        self.enabled = false;
    }

    /// Requests an interrupt. The request is noted only while interrupts
    /// are enabled.
    pub fn request(&mut self)
        ensures
            *final(self) == old(self).requested(),
    {
        if self.enabled {
            self.pending = true;
        }
    }

    /// Services a due request: saves `current_src`, disables interrupts
    /// and returns the vector 0x003. Returns `None`, and changes
    /// nothing, where no request is due.
    pub fn service(&mut self, current_src: u8) -> (vector: Option<u16>)
        ensures
            *final(self) == old(self).serviced(current_src),
            vector == (if old(self).due() {
                Some(0x003u16)
            } else {
                None
            }),
    {
        if self.pending && self.enabled {
            self.src_save = current_src;
            self.enabled = false;
            self.pending = false;
            Some(0x003)
        } else {
            None
        }
    }

    /// BBS: the SRC value that was saved.
    pub fn bbs_restore(&mut self) -> (src: u8)
        ensures
            src == old(self).src_save,
            *final(self) == *old(self),
    {
        self.src_save
    }
}

impl Default for InterruptCtrl {
    fn default() -> (ctrl: InterruptCtrl)
        ensures
            ctrl == (InterruptCtrl { enabled: false, pending: false, src_save: 0 }),
    {
        InterruptCtrl { enabled: false, pending: false, src_save: 0 }
    }
}

/// A request becomes pending only while interrupts are enabled, and
/// servicing it takes both: afterwards nothing is pending and interrupts
/// are disabled.
pub proof fn lemma_interrupt_discipline(c: InterruptCtrl, src: u8)
    ensures
        !c.enabled ==> c.requested().pending == c.pending,
        c.enabled ==> c.requested().pending,
        c.due() ==> !c.serviced(src).enabled && !c.serviced(src).pending && c.serviced(src).src_save
            == src,
        !c.due() ==> c.serviced(src) == c,
{
}

} // verus!

use vstd::prelude::*;

verus! {

/// A condition that is worth a line in the log and no more: the machine goes
/// on.
#[derive(Clone, Copy, Debug, PartialEq, Eq, Structural)]
pub enum Notice {
    /// A write to the ROM of a cartridge without a controller; the write was
    /// ignored.
    RomWriteIgnored,
    /// A write to the bank register named a bank that the ROM does not have;
    /// the last bank was taken.
    BankClamped,
    /// A write to a register that can only be read; the write was ignored.
    ReadOnlyRegister,
}

/// What has become of a kind of notice in this session.
#[derive(Clone, Copy, Debug, PartialEq, Eq, Structural)]
pub enum Mark {
    /// The condition has not occurred.
    Quiet,
    /// The condition has occurred and the host has not been told.
    Pending,
    /// The host has been told. It is not told again.
    Reported,
}

/// The notices of a session, one mark for each kind.
#[derive(Clone, Copy, Debug, PartialEq, Eq, Structural)]
pub struct Notices {
    pub rom_write: Mark,
    pub bank_clamp: Mark,
    pub read_only: Mark,
}

impl Mark {
    /// The mark after the condition has occurred.
    pub open spec fn raised(self) -> Mark {
        if self == Mark::Quiet {
            Mark::Pending
        } else {
            self
        }
    }

    /// The mark after the host has asked.
    pub open spec fn told(self) -> Mark {
        if self == Mark::Pending {
            Mark::Reported
        } else {
            self
        }
    }
}

impl Notices {
    /// No condition has occurred.
    pub open spec fn quiet() -> Notices {
        Notices { rom_write: Mark::Quiet, bank_clamp: Mark::Quiet, read_only: Mark::Quiet }
    }

    /// The mark of a kind.
    pub open spec fn mark(self, kind: Notice) -> Mark {
        match kind {
            Notice::RomWriteIgnored => self.rom_write,
            Notice::BankClamped => self.bank_clamp,
            Notice::ReadOnlyRegister => self.read_only,
        }
    }

    /// The notices after a condition has occurred, or none has.
    pub open spec fn with(self, kind: Option<Notice>) -> Notices {
        match kind {
            None => self,
            Some(Notice::RomWriteIgnored) => Notices {
                rom_write: self.rom_write.raised(),
                ..self
            },
            Some(Notice::BankClamped) => Notices { bank_clamp: self.bank_clamp.raised(), ..self },
            Some(Notice::ReadOnlyRegister) => Notices {
                read_only: self.read_only.raised(),
                ..self
            },
        }
    }

    /// The notices after the host has asked for them.
    pub open spec fn told(self) -> Notices {
        Notices {
            rom_write: self.rom_write.told(),
            bank_clamp: self.bank_clamp.told(),
            read_only: self.read_only.told(),
        }
    }

    /// The kinds that the host is told of when it asks: those that are
    /// pending, in the order of their declaration.
    pub open spec fn pending(self) -> Seq<Notice> {
        let first = if self.rom_write == Mark::Pending {
            seq![Notice::RomWriteIgnored]
        } else {
            Seq::empty()
        };
        let second = if self.bank_clamp == Mark::Pending {
            first.push(Notice::BankClamped)
        } else {
            first
        };
        if self.read_only == Mark::Pending {
            second.push(Notice::ReadOnlyRegister)
        } else {
            second
        }
    }

    pub fn new() -> (notices: Notices)
        ensures
            notices == Notices::quiet(),
    {
        Notices { rom_write: Mark::Quiet, bank_clamp: Mark::Quiet, read_only: Mark::Quiet }
    }

    /// Records that a condition has occurred.
    pub fn raise(&mut self, kind: Notice)
        ensures
            *final(self) == old(self).with(Some(kind)),
    {
        match kind {
            Notice::RomWriteIgnored => {
                if self.rom_write == Mark::Quiet {
                    self.rom_write = Mark::Pending;
                }
            },
            Notice::BankClamped => {
                if self.bank_clamp == Mark::Quiet {
                    self.bank_clamp = Mark::Pending;
                }
            },
            Notice::ReadOnlyRegister => {
                if self.read_only == Mark::Quiet {
                    self.read_only = Mark::Pending;
                }
            },
        }
    }

    /// Hands out the kinds of notice that have occurred since the host last
    /// asked, each kind once in a session.
    pub fn take(&mut self) -> (kinds: Vec<Notice>)
        ensures
            kinds@ == old(self).pending(),
            *final(self) == old(self).told(),
    {
        let mut kinds: Vec<Notice> = Vec::new();
        if self.rom_write == Mark::Pending {
            kinds.push(Notice::RomWriteIgnored);
            self.rom_write = Mark::Reported;
        }
        if self.bank_clamp == Mark::Pending {
            kinds.push(Notice::BankClamped);
            self.bank_clamp = Mark::Reported;
        }
        if self.read_only == Mark::Pending {
            kinds.push(Notice::ReadOnlyRegister);
            self.read_only = Mark::Reported;
        }
        kinds
    }
}

/// A kind of notice that the host has been told of is not handed out again,
/// whatever occurs afterwards.
pub proof fn law_told_once(notices: Notices, kind: Notice, later: Option<Notice>)
    requires
        notices.pending().contains(kind),
    ensures
        !notices.told().pending().contains(kind),
        !notices.told().with(later).pending().contains(kind),
        notices.told().with(later).mark(kind) == Mark::Reported,
{
    let after = notices.told().with(later);
    assert(notices.mark(kind) == Mark::Pending) by {
        let listed = notices.pending();
        let i = choose|i: int| 0 <= i < listed.len() && listed[i] == kind;
    }
    assert(after.mark(kind) == Mark::Reported);
    lemma_pending_marks(notices.told(), kind);
    lemma_pending_marks(after, kind);
}

/// The kinds that are handed out are those whose mark is pending.
pub proof fn lemma_pending_marks(notices: Notices, kind: Notice)
    ensures
        notices.pending().contains(kind) <==> notices.mark(kind) == Mark::Pending,
{
    let listed = notices.pending();
    if notices.mark(kind) == Mark::Pending {
        match kind {
            Notice::RomWriteIgnored => {
                assert(listed[0] == kind);
            },
            Notice::BankClamped => {
                let at = if notices.rom_write == Mark::Pending {
                    1int
                } else {
                    0int
                };
                assert(listed[at] == kind);
            },
            Notice::ReadOnlyRegister => {
                assert(listed[listed.len() - 1] == kind);
            },
        }
    }
    if listed.contains(kind) {
        let i = choose|i: int| 0 <= i < listed.len() && listed[i] == kind;
    }
}

} // verus!

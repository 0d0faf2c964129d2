use vstd::prelude::*;

verus! {

/// The named bits of a status register, over all variants.
#[derive(Clone, Copy, PartialEq, Eq, Debug, Structural)]
pub enum StatusFlag {
    /// An erase or program operation is executing.
    Bsy,
    /// An operation has completed.
    Eop,
    /// A write is waiting in the queue.
    Qw,
    Wrprterr,
    Pgerr,
    Pgserr,
    Pgperr,
    Pgaerr,
    Wrperr,
    Operr,
    Optverr,
    Rderr,
    Fasterr,
    Miserr,
    Sizerr,
    Progerr,
    Dbeccerr,
    Sneccerr,
    Rdserr,
    Rdperr,
    Incerr,
    Strberr,
}

/// A snapshot of a status register: for each named bit, whether it is set.
#[derive(Clone, Copy, PartialEq, Eq, Debug, Structural)]
pub struct Status {
    pub bsy: bool,
    pub eop: bool,
    pub qw: bool,
    pub wrprterr: bool,
    pub pgerr: bool,
    pub pgserr: bool,
    pub pgperr: bool,
    pub pgaerr: bool,
    pub wrperr: bool,
    pub operr: bool,
    pub optverr: bool,
    pub rderr: bool,
    pub fasterr: bool,
    pub miserr: bool,
    pub sizerr: bool,
    pub progerr: bool,
    pub dbeccerr: bool,
    pub sneccerr: bool,
    pub rdserr: bool,
    pub rdperr: bool,
    pub incerr: bool,
    pub strberr: bool,
}

impl Status {
    /// The snapshot in which no bit is set.
    pub open spec fn clear() -> Status {
        Status {
            bsy: false,
            eop: false,
            qw: false,
            wrprterr: false,
            pgerr: false,
            pgserr: false,
            pgperr: false,
            pgaerr: false,
            wrperr: false,
            operr: false,
            optverr: false,
            rderr: false,
            fasterr: false,
            miserr: false,
            sizerr: false,
            progerr: false,
            dbeccerr: false,
            sneccerr: false,
            rdserr: false,
            rdperr: false,
            incerr: false,
            strberr: false,
        }
    }

    /// Whether `flag` is set in this snapshot.
    pub open spec fn has(self, flag: StatusFlag) -> bool {
        match flag {
            StatusFlag::Bsy => self.bsy,
            StatusFlag::Eop => self.eop,
            StatusFlag::Qw => self.qw,
            StatusFlag::Wrprterr => self.wrprterr,
            StatusFlag::Pgerr => self.pgerr,
            StatusFlag::Pgserr => self.pgserr,
            StatusFlag::Pgperr => self.pgperr,
            StatusFlag::Pgaerr => self.pgaerr,
            StatusFlag::Wrperr => self.wrperr,
            StatusFlag::Operr => self.operr,
            StatusFlag::Optverr => self.optverr,
            StatusFlag::Rderr => self.rderr,
            StatusFlag::Fasterr => self.fasterr,
            StatusFlag::Miserr => self.miserr,
            StatusFlag::Sizerr => self.sizerr,
            StatusFlag::Progerr => self.progerr,
            StatusFlag::Dbeccerr => self.dbeccerr,
            StatusFlag::Sneccerr => self.sneccerr,
            StatusFlag::Rdserr => self.rdserr,
            StatusFlag::Rdperr => self.rdperr,
            StatusFlag::Incerr => self.incerr,
            StatusFlag::Strberr => self.strberr,
        }
    }

    /// A snapshot with no bit set.
    pub fn empty() -> (status: Status)
        ensures
            status == Status::clear(),
    {
        Status {
            bsy: false,
            eop: false,
            qw: false,
            wrprterr: false,
            pgerr: false,
            pgserr: false,
            pgperr: false,
            pgaerr: false,
            wrperr: false,
            operr: false,
            optverr: false,
            rderr: false,
            fasterr: false,
            miserr: false,
            sizerr: false,
            progerr: false,
            dbeccerr: false,
            sneccerr: false,
            rdserr: false,
            rdperr: false,
            incerr: false,
            strberr: false,
        }
    }

    /// Whether `flag` is set.
    pub fn is_set(&self, flag: StatusFlag) -> (set: bool)
        ensures
            set == self.has(flag),
    {
        match flag {
            StatusFlag::Bsy => self.bsy,
            StatusFlag::Eop => self.eop,
            StatusFlag::Qw => self.qw,
            StatusFlag::Wrprterr => self.wrprterr,
            StatusFlag::Pgerr => self.pgerr,
            StatusFlag::Pgserr => self.pgserr,
            StatusFlag::Pgperr => self.pgperr,
            StatusFlag::Pgaerr => self.pgaerr,
            StatusFlag::Wrperr => self.wrperr,
            StatusFlag::Operr => self.operr,
            StatusFlag::Optverr => self.optverr,
            StatusFlag::Rderr => self.rderr,
            StatusFlag::Fasterr => self.fasterr,
            StatusFlag::Miserr => self.miserr,
            StatusFlag::Sizerr => self.sizerr,
            StatusFlag::Progerr => self.progerr,
            StatusFlag::Dbeccerr => self.dbeccerr,
            StatusFlag::Sneccerr => self.sneccerr,
            StatusFlag::Rdserr => self.rdserr,
            StatusFlag::Rdperr => self.rdperr,
            StatusFlag::Incerr => self.incerr,
            StatusFlag::Strberr => self.strberr,
        }
    }
}

} // verus!

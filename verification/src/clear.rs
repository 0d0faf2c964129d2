use crate::access::{ClearIdiom, FlagClear};
use crate::profile::Family;
use crate::status::{Status, StatusFlag};
use vstd::prelude::*;

verus! {

impl Family {
    /// The status bits that report an error, in the order in which they are
    /// cleared.
    pub open spec fn error_flags(self) -> Seq<StatusFlag> {
        match self {
            Family::F3 => seq![StatusFlag::Wrprterr, StatusFlag::Pgerr],
            Family::F4 => seq![
                StatusFlag::Pgserr,
                StatusFlag::Pgperr,
                StatusFlag::Pgaerr,
                StatusFlag::Wrperr,
                StatusFlag::Operr,
            ],
            Family::H7 | Family::H747 => seq![
                StatusFlag::Dbeccerr,
                StatusFlag::Sneccerr,
                StatusFlag::Rdserr,
                StatusFlag::Rdperr,
                StatusFlag::Operr,
                StatusFlag::Incerr,
                StatusFlag::Strberr,
                StatusFlag::Pgserr,
                StatusFlag::Wrperr,
            ],
            Family::Wl => seq![
                StatusFlag::Optverr,
                StatusFlag::Rderr,
                StatusFlag::Fasterr,
                StatusFlag::Pgserr,
                StatusFlag::Sizerr,
                StatusFlag::Pgaerr,
                StatusFlag::Wrperr,
                StatusFlag::Progerr,
                StatusFlag::Operr,
            ],
            _ => seq![
                StatusFlag::Optverr,
                StatusFlag::Rderr,
                StatusFlag::Fasterr,
                StatusFlag::Miserr,
                StatusFlag::Pgserr,
                StatusFlag::Sizerr,
                StatusFlag::Pgaerr,
                StatusFlag::Wrperr,
                StatusFlag::Progerr,
                StatusFlag::Operr,
            ],
        }
    }

    /// How the variant clears a bit of its status register.
    pub open spec fn clear_idiom(self) -> ClearIdiom {
        match self {
            Family::F3 | Family::F4 => ClearIdiom::ModifyStatus,
            Family::H7 | Family::H747 => ClearIdiom::WriteClearRegister,
            _ => ClearIdiom::WriteStatus,
        }
    }

    /// The variant's error bits, in the order in which they are cleared.
    pub fn error_bits(self) -> (flags: Vec<StatusFlag>)
        ensures
            flags@ == self.error_flags(),
    {
        match self {
            Family::F3 => vec![StatusFlag::Wrprterr, StatusFlag::Pgerr],
            Family::F4 => vec![
                StatusFlag::Pgserr,
                StatusFlag::Pgperr,
                StatusFlag::Pgaerr,
                StatusFlag::Wrperr,
                StatusFlag::Operr,
            ],
            Family::H7 | Family::H747 => vec![
                StatusFlag::Dbeccerr,
                StatusFlag::Sneccerr,
                StatusFlag::Rdserr,
                StatusFlag::Rdperr,
                StatusFlag::Operr,
                StatusFlag::Incerr,
                StatusFlag::Strberr,
                StatusFlag::Pgserr,
                StatusFlag::Wrperr,
            ],
            Family::Wl => vec![
                StatusFlag::Optverr,
                StatusFlag::Rderr,
                StatusFlag::Fasterr,
                StatusFlag::Pgserr,
                StatusFlag::Sizerr,
                StatusFlag::Pgaerr,
                StatusFlag::Wrperr,
                StatusFlag::Progerr,
                StatusFlag::Operr,
            ],
            _ => vec![
                StatusFlag::Optverr,
                StatusFlag::Rderr,
                StatusFlag::Fasterr,
                StatusFlag::Miserr,
                StatusFlag::Pgserr,
                StatusFlag::Sizerr,
                StatusFlag::Pgaerr,
                StatusFlag::Wrperr,
                StatusFlag::Progerr,
                StatusFlag::Operr,
            ],
        }
    }

    /// The variant's way of clearing a status bit: by writing the bit to
    /// the status register, or to a clear-control register of its own.
    pub fn clearing(self) -> (idiom: ClearIdiom)
        ensures
            idiom == self.clear_idiom(),
    {
        match self {
            Family::F3 | Family::F4 => ClearIdiom::ModifyStatus,
            Family::H7 | Family::H747 => ClearIdiom::WriteClearRegister,
            _ => ClearIdiom::WriteStatus,
        }
    }
}

/// The clears, by `idiom`, of those of `flags` that are set in `status`, in
/// the order of `flags`.
pub open spec fn clears_for(flags: Seq<StatusFlag>, status: Status, idiom: ClearIdiom) -> Seq<
    FlagClear,
> {
    flags.filter(|flag: StatusFlag| status.has(flag)).map_values(
        |flag: StatusFlag| FlagClear { flag, idiom },
    )
}

/// The clears that remove every error that `status` reports on a variant.
pub open spec fn error_clears(family: Family, status: Status) -> Seq<FlagClear> {
    clears_for(family.error_flags(), status, family.clear_idiom())
}

/// One more flag adds its clear where the flag is set, and nothing where it
/// is not.
proof fn lemma_clears_for_push(
    flags: Seq<StatusFlag>,
    flag: StatusFlag,
    status: Status,
    idiom: ClearIdiom,
)
    ensures
        clears_for(flags.push(flag), status, idiom) == if status.has(flag) {
            clears_for(flags, status, idiom).push(FlagClear { flag, idiom })
        } else {
            clears_for(flags, status, idiom)
        },
{
    reveal(Seq::filter);
    assert(flags.push(flag).drop_last() == flags);
}

/// Every clear is by the idiom asked for, and every flag of `flags` that is
/// set in `status` has its clear.
pub proof fn lemma_clears_cover(
    flags: Seq<StatusFlag>,
    status: Status,
    idiom: ClearIdiom,
    flag: StatusFlag,
)
    ensures
        forall|j: int|
            0 <= j < clears_for(flags, status, idiom).len() ==> (#[trigger] clears_for(
                flags,
                status,
                idiom,
            )[j]).idiom == idiom,
        flags.contains(flag) && status.has(flag) ==> exists|j: int|
            0 <= j < clears_for(flags, status, idiom).len() && (#[trigger] clears_for(
                flags,
                status,
                idiom,
            )[j]).flag == flag,
    decreases flags.len(),
{
    if flags.len() == 0 {
        reveal(Seq::filter);
    } else {
        let front = flags.drop_last();
        let last = flags.last();
        lemma_clears_cover(front, status, idiom, flag);
        lemma_clears_for_push(front, last, status, idiom);
        assert(front.push(last) == flags);
        let before = clears_for(front, status, idiom);
        let all = clears_for(flags, status, idiom);
        if flags.contains(flag) && status.has(flag) {
            if last == flag {
                assert(all[all.len() - 1].flag == flag);
            } else {
                let i = choose|i: int| 0 <= i < flags.len() && flags[i] == flag;
                assert(front[i] == flag);
                let j = choose|j: int| 0 <= j < before.len() && (#[trigger] before[j]).flag == flag;
                assert(all[j].flag == flag);
            }
        }
    }
}

/// Lists the clears that remove every error bit of the variant that is set
/// in `status`, a snapshot of the status register: one clear for each such
/// bit, by the variant's idiom, in the variant's order. Nothing is listed
/// for a bit that is not set or that is no error bit of the variant.
pub fn clear_error_flags(family: Family, status: &Status) -> (clears: Vec<FlagClear>)
    ensures
        clears@ == error_clears(family, *status),
{
    let flags: Vec<StatusFlag> = family.error_bits();
    let idiom: ClearIdiom = family.clearing();
    let mut clears: Vec<FlagClear> = Vec::new();
    let mut i: usize = 0;
    proof {
        reveal(Seq::filter);
        assert(flags@.take(0) == Seq::<StatusFlag>::empty());
        assert(clears@ == clears_for(flags@.take(0), *status, idiom));
    }
    while i < flags.len()
        invariant
            i <= flags.len(),
            clears@ == clears_for(flags@.take(i as int), *status, idiom),
        decreases flags.len() - i,
    {
        let flag: StatusFlag = flags[i];
        proof {
            lemma_clears_for_push(flags@.take(i as int), flag, *status, idiom);
            assert(flags@.take(i as int).push(flag) == flags@.take(i + 1));
        }
        if status.is_set(flag) {
            clears.push(FlagClear { flag, idiom });
        }
        i = i + 1;
    }
    proof {
        assert(flags@.take(i as int) == flags@);
    }
    clears
}

} // verus!

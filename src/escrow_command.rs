//! The escrow ledger's binary commands: an opcode byte followed by a
//! fixed-layout payload.
use vstd::prelude::*;
use crate::identity::{Identity, zero_bytes};
use crate::escrow::{EscrowLedger, EscrowError, ProgressOutcome};
use crate::wire::{le_value, read_le};

verus! {

/// Reply byte of a call that took effect.
pub const REPLY_DONE: u8 = 1;

/// Reply byte of a call that completed without effect.
pub const REPLY_NOT_APPLIED: u8 = 0;

/// A decoded escrow command.
#[derive(Clone, Copy, Debug)]
pub enum EscrowCommand {
    CreateProject { budget: u128 },
    FundProject,
    SelectDeveloper { developer: Identity },
    ApplyProgress { index: u8, percent: u16 },
    MarkFinalApproved,
    SetVerifier { verifier: Identity },
}

/// Whether `b` has a known opcode and the length that opcode's payload takes.
pub open spec fn escrow_frame_ok(b: Seq<u8>) -> bool {
    &&& b.len() >= 1
    &&& {
        ||| b[0] == 1 && b.len() == 17
        ||| b[0] == 2 && b.len() == 1
        ||| b[0] == 3 && b.len() == 33
        ||| b[0] == 4 && b.len() == 4
        ||| b[0] == 5 && b.len() == 1
        ||| b[0] == 6 && b.len() == 33
    }
}

/// Whether the bytes `b` encode the command `c`.
pub open spec fn escrow_encodes(b: Seq<u8>, c: EscrowCommand) -> bool {
    match c {
        EscrowCommand::CreateProject { budget } => b.len() == 17 && b[0] == 1 && budget
            == le_value(b.subrange(1, 17)),
        EscrowCommand::FundProject => b.len() == 1 && b[0] == 2,
        EscrowCommand::SelectDeveloper { developer } => b.len() == 33 && b[0] == 3 && developer@
            == b.subrange(1, 33),
        EscrowCommand::ApplyProgress { index, percent } => b.len() == 4 && b[0] == 4 && index
            == b[1] && percent == le_value(b.subrange(2, 4)),
        EscrowCommand::MarkFinalApproved => b.len() == 1 && b[0] == 5,
        EscrowCommand::SetVerifier { verifier } => b.len() == 33 && b[0] == 6 && verifier@
            == b.subrange(1, 33),
    }
}

/// Decodes an escrow command; `None` for an unknown opcode or a payload of
/// the wrong length.
pub fn decode_escrow_command(b: &[u8]) -> (r: Option<EscrowCommand>)
    ensures
        r is Some <==> escrow_frame_ok(b@),
        r matches Some(c) ==> escrow_encodes(b@, c),
{
    let n = b.len();
    if n == 0 {
        return None;
    }
    let op = b[0];
    if op == 1 && n == 17 {
        let budget = read_le(b, 1, 16);
        Some(EscrowCommand::CreateProject { budget })
    } else if op == 2 && n == 1 {
        Some(EscrowCommand::FundProject)
    } else if op == 3 && n == 33 {
        Some(EscrowCommand::SelectDeveloper { developer: Identity::read_from(b, 1) })
    } else if op == 4 && n == 4 {
        let percent = read_le(b, 2, 2);
        proof {
            reveal_with_fuel(crate::wire::pow256, 3);
        }
        Some(EscrowCommand::ApplyProgress { index: b[1], percent: percent as u16 })
    } else if op == 5 && n == 1 {
        Some(EscrowCommand::MarkFinalApproved)
    } else if op == 6 && n == 33 {
        Some(EscrowCommand::SetVerifier { verifier: Identity::read_from(b, 1) })
    } else {
        None
    }
}

/// The reply byte of an escrow operation's outcome, or its error.
pub open spec fn reply_of<T>(r: Result<T, EscrowError>, done: bool) -> Result<u8, EscrowError> {
    match r {
        Ok(_) => Ok(if done { REPLY_DONE } else { REPLY_NOT_APPLIED }),
        Err(e) => Err(e),
    }
}

impl EscrowLedger {
    /// The reply to command `c` from `caller`.
    pub open spec fn command_result(self, caller: Seq<u8>, c: EscrowCommand) -> Result<u8, EscrowError> {
        match c {
            EscrowCommand::CreateProject { budget } => reply_of(self.create_result(caller, budget), true),
            EscrowCommand::FundProject => reply_of(self.fund_result(caller), true),
            EscrowCommand::SelectDeveloper { .. } => reply_of(self.select_result(caller), true),
            EscrowCommand::ApplyProgress { index, percent } => {
                let r = self.apply_result(caller, index, percent);
                reply_of(r, r matches Ok(ProgressOutcome::Applied { .. }))
            },
            EscrowCommand::MarkFinalApproved => reply_of(self.final_result(caller), true),
            EscrowCommand::SetVerifier { .. } => reply_of(self.verifier_result(caller), true),
        }
    }

    /// The ledger after command `c` from `caller`.
    pub open spec fn after_command(self, caller: Seq<u8>, c: EscrowCommand) -> EscrowLedger {
        match c {
            EscrowCommand::CreateProject { budget } => if self.create_result(caller, budget) is Ok {
                self.created(budget)
            } else {
                self
            },
            EscrowCommand::FundProject => if self.fund_result(caller) is Ok {
                self.funded()
            } else {
                self
            },
            EscrowCommand::SelectDeveloper { developer } => if self.select_result(caller) is Ok {
                self.with_developer(developer)
            } else {
                self
            },
            EscrowCommand::ApplyProgress { index, percent } => if self.apply_result(
                caller,
                index,
                percent,
            ) matches Ok(ProgressOutcome::Applied { .. }) {
                self.progressed(index, percent)
            } else {
                self
            },
            EscrowCommand::MarkFinalApproved => if self.final_result(caller) is Ok {
                self.finalized()
            } else {
                self
            },
            EscrowCommand::SetVerifier { verifier } => if self.verifier_result(caller) is Ok {
                self.with_verifier(verifier)
            } else {
                self
            },
        }
    }

    /// Runs one decoded command from `caller`; returns the reply byte.
    pub fn execute(&mut self, caller: &Identity, c: EscrowCommand) -> (r: Result<u8, EscrowError>)
        requires
            old(self).wf(),
        ensures
            r == old(self).command_result(caller@, c),
            *final(self) == old(self).after_command(caller@, c),
            final(self).wf(),
            old(self).evolves_to(*final(self)),
    {
        match c {
            EscrowCommand::CreateProject { budget } => {
                let r = self.create_project(caller, budget);
                match r {
                    Ok(_) => Ok(REPLY_DONE),
                    Err(e) => Err(e),
                }
            },
            EscrowCommand::FundProject => {
                let r = self.fund_project(caller);
                match r {
                    Ok(_) => Ok(REPLY_DONE),
                    Err(e) => Err(e),
                }
            },
            EscrowCommand::SelectDeveloper { developer } => {
                let r = self.select_developer(caller, developer);
                match r {
                    Ok(_) => Ok(REPLY_DONE),
                    Err(e) => Err(e),
                }
            },
            EscrowCommand::ApplyProgress { index, percent } => {
                let r = self.apply_progress(caller, index, percent);
                match r {
                    Ok(ProgressOutcome::Applied { .. }) => Ok(REPLY_DONE),
                    Ok(ProgressOutcome::NotApplied) => Ok(REPLY_NOT_APPLIED),
                    Err(e) => Err(e),
                }
            },
            EscrowCommand::MarkFinalApproved => {
                let r = self.mark_final_approved(caller);
                match r {
                    Ok(_) => Ok(REPLY_DONE),
                    Err(e) => Err(e),
                }
            },
            EscrowCommand::SetVerifier { verifier } => {
                let r = self.set_verifier(caller, verifier);
                match r {
                    Ok(_) => Ok(REPLY_DONE),
                    Err(e) => Err(e),
                }
            },
        }
    }

    /// Decodes and runs one binary command from `caller`. A malformed command
    /// is a hard failure that changes nothing.
    pub fn handle(&mut self, caller: &Identity, command: &[u8]) -> (r: Result<u8, EscrowError>)
        requires
            old(self).wf(),
        ensures
            !escrow_frame_ok(command@) ==> r == Err::<u8, EscrowError>(EscrowError::MalformedCommand)
                && *final(self) == *old(self),
            forall|c: EscrowCommand| #[trigger]
                escrow_encodes(command@, c) ==> r == old(self).command_result(caller@, c)
                    && *final(self) == old(self).after_command(caller@, c),
            final(self).wf(),
            old(self).evolves_to(*final(self)),
    {
        match decode_escrow_command(command) {
            None => Err(EscrowError::MalformedCommand),
            Some(c) => {
                proof {
                    assert forall|d: EscrowCommand| #[trigger]
                        escrow_encodes(command@, d) implies d == c by {
                        lemma_escrow_encoding_unique(command@, c, d);
                    }
                }
                self.execute(caller, c)
            },
        }
    }

    /// A ledger owned by `owner` from the 64-byte set-up payload: the
    /// treasury's identity, then the value ledger's.
    pub fn from_init_payload(owner: Identity, payload: &[u8]) -> (r: Result<EscrowLedger, EscrowError>)
        ensures
            payload@.len() != 64 ==> r == Err::<EscrowLedger, EscrowError>(
                EscrowError::MalformedCommand,
            ),
            payload@.len() == 64 ==> (r matches Ok(l) && l.wf() && l.owner == owner
                && l.treasury@ == payload@.subrange(0, 32) && l.value_ledger@ == payload@.subrange(32, 64)
                && l.authorized_verifier@ == zero_bytes() && l.developer@ == zero_bytes()
                && !l.is_active && !l.is_funded && !l.developer_selected && !l.is_finalized
                && l.budget == 0 && l.progress_pool == 0 && l.final_pool == 0
                && l.released_progress == 0 && l.released_final == 0
                && l.milestones.total() == 0),
    {
        if payload.len() != 64 {
            return Err(EscrowError::MalformedCommand);
        }
        let treasury = Identity::read_from(payload, 0);
        let value_ledger = Identity::read_from(payload, 32);
        Ok(EscrowLedger::new(owner, treasury, value_ledger))
    }
}

/// At most one command is encoded by given bytes.
pub proof fn lemma_escrow_encoding_unique(b: Seq<u8>, c: EscrowCommand, d: EscrowCommand)
    requires
        escrow_encodes(b, c),
        escrow_encodes(b, d),
    ensures
        c == d,
{
    match c {
        EscrowCommand::SelectDeveloper { developer } => {
            if let EscrowCommand::SelectDeveloper { developer: e } = d {
                assert(developer.bytes =~= e.bytes);
            }
        },
        EscrowCommand::SetVerifier { verifier } => {
            if let EscrowCommand::SetVerifier { verifier: e } = d {
                assert(verifier.bytes =~= e.bytes);
            }
        },
        _ => {},
    }
}

} // verus!

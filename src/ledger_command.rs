//! The value ledger's binary commands and replies.
use vstd::prelude::*;
use crate::identity::Identity;
use crate::value_ledger::{ValueLedger, LedgerError};
use crate::wire::{le_value, read_le, u128_le_bytes};

verus! {

/// A decoded value-ledger command.
#[derive(Clone, Copy, Debug)]
pub enum LedgerCommand {
    Mint { to: Identity, amount: u128 },
    Transfer { to: Identity, amount: u128 },
    BalanceOf { account: Identity },
}

/// What a value-ledger command completed with.
#[derive(Clone, Copy, Debug, PartialEq, Eq, Structural)]
pub enum LedgerReply {
    Done,
    Balance { amount: u128 },
}

/// Whether `b` has a known opcode and the length its payload takes.
pub open spec fn ledger_frame_ok(b: Seq<u8>) -> bool {
    &&& b.len() >= 1
    &&& {
        ||| (b[0] == 1 || b[0] == 2) && b.len() == 49
        ||| b[0] == 5 && b.len() == 33
    }
}

/// Whether the bytes `b` encode the command `c`.
pub open spec fn ledger_encodes(b: Seq<u8>, c: LedgerCommand) -> bool {
    match c {
        LedgerCommand::Mint { to, amount } => b.len() == 49 && b[0] == 1 && to@ == b.subrange(1, 33)
            && amount == le_value(b.subrange(33, 49)),
        LedgerCommand::Transfer { to, amount } => b.len() == 49 && b[0] == 2 && to@ == b.subrange(
            1,
            33,
        ) && amount == le_value(b.subrange(33, 49)),
        LedgerCommand::BalanceOf { account } => b.len() == 33 && b[0] == 5 && account@
            == b.subrange(1, 33),
    }
}

/// Decodes a value-ledger command; `None` for an unknown opcode or a
/// payload of the wrong length.
pub fn decode_ledger_command(b: &[u8]) -> (r: Option<LedgerCommand>)
    ensures
        r is Some <==> ledger_frame_ok(b@),
        r matches Some(c) ==> ledger_encodes(b@, c),
{
    let n = b.len();
    if n == 0 {
        return None;
    }
    let op = b[0];
    if (op == 1 || op == 2) && n == 49 {
        let to = Identity::read_from(b, 1);
        let amount = read_le(b, 33, 16);
        if op == 1 {
            Some(LedgerCommand::Mint { to, amount })
        } else {
            Some(LedgerCommand::Transfer { to, amount })
        }
    } else if op == 5 && n == 33 {
        Some(LedgerCommand::BalanceOf { account: Identity::read_from(b, 1) })
    } else {
        None
    }
}

/// At most one command is encoded by given bytes.
pub proof fn lemma_ledger_encoding_unique(b: Seq<u8>, c: LedgerCommand, d: LedgerCommand)
    requires
        ledger_encodes(b, c),
        ledger_encodes(b, d),
    ensures
        c == d,
{
    match (c, d) {
        (LedgerCommand::Mint { to: x, .. }, LedgerCommand::Mint { to: y, .. }) => {
            assert(x.bytes =~= y.bytes);
        },
        (LedgerCommand::Transfer { to: x, .. }, LedgerCommand::Transfer { to: y, .. }) => {
            assert(x.bytes =~= y.bytes);
        },
        (LedgerCommand::BalanceOf { account: x }, LedgerCommand::BalanceOf { account: y }) => {
            assert(x.bytes =~= y.bytes);
        },
        _ => {},
    }
}

/// The reply to a command that failed: sixteen zero bytes where a balance
/// was asked for (opcode 5), a single 0 otherwise.
pub fn failure_reply(command: &[u8]) -> (r: Vec<u8>)
    ensures
        command@.len() >= 1 && command@[0] == 5 ==> r@ == Seq::new(16, |i: int| 0u8),
        !(command@.len() >= 1 && command@[0] == 5) ==> r@ == seq![0u8],
{
    if command.len() >= 1 && command[0] == 5 {
        let mut r: Vec<u8> = Vec::new();
        let mut i: usize = 0;
        while i < 16
            invariant
                i <= 16,
                r@ == Seq::new(i as nat, |k: int| 0u8),
            decreases 16 - i,
        {
            r.push(0u8);
            i = i + 1;
            proof {
                assert(r@ =~= Seq::new(i as nat, |k: int| 0u8));
            }
        }
        r
    } else {
        let r = vec![0u8];
        assert(r@ =~= seq![0u8]);
        r
    }
}

impl LedgerReply {
    /// The reply bytes: 1 for done, the balance as sixteen little-endian
    /// bytes for a query.
    pub fn to_bytes(&self) -> (r: Vec<u8>)
        ensures
            self is Done ==> r@ == seq![1u8],
            self matches LedgerReply::Balance { amount } ==> r@.len() == 16 && le_value(r@)
                == amount,
    {
        match self {
            LedgerReply::Done => {
                let r = vec![1u8];
                assert(r@ =~= seq![1u8]);
                r
            },
            LedgerReply::Balance { amount } => u128_le_bytes(*amount),
        }
    }
}

impl ValueLedger {
    /// The reply to command `c` from `caller`.
    pub open spec fn command_result(self, caller: Seq<u8>, c: LedgerCommand) -> Result<LedgerReply, LedgerError> {
        match c {
            LedgerCommand::Mint { to, amount } => match self.mint_result(caller, to@, amount) {
                Ok(_) => Ok(LedgerReply::Done),
                Err(e) => Err(e),
            },
            LedgerCommand::Transfer { to, amount } => match self.transfer_result(caller, to@, amount) {
                Ok(_) => Ok(LedgerReply::Done),
                Err(e) => Err(e),
            },
            LedgerCommand::BalanceOf { account } => Ok(
                LedgerReply::Balance { amount: self.balance(account@) as u128 },
            ),
        }
    }

    /// `next` is this ledger after command `c` from `caller` succeeded.
    pub open spec fn command_effect(self, next: ValueLedger, caller: Seq<u8>, c: LedgerCommand) -> bool {
        match c {
            LedgerCommand::Mint { to, amount } => self.minted(next, to@, amount),
            LedgerCommand::Transfer { to, amount } => self.transferred(next, caller, to@, amount),
            LedgerCommand::BalanceOf { .. } => next == self,
        }
    }

    /// Runs one decoded command from `caller`.
    pub fn execute(&mut self, caller: &Identity, c: LedgerCommand) -> (r: Result<LedgerReply, LedgerError>)
        requires
            old(self).wf(),
        ensures
            r == old(self).command_result(caller@, c),
            r is Ok ==> old(self).command_effect(*final(self), caller@, c),
            r is Err ==> *final(self) == *old(self),
            final(self).wf(),
    {
        match c {
            LedgerCommand::Mint { to, amount } => match self.mint(caller, &to, amount) {
                Ok(_) => Ok(LedgerReply::Done),
                Err(e) => Err(e),
            },
            LedgerCommand::Transfer { to, amount } => match self.transfer(caller, &to, amount) {
                Ok(_) => Ok(LedgerReply::Done),
                Err(e) => Err(e),
            },
            LedgerCommand::BalanceOf { account } => {
                let amount = self.balance_of(&account);
                Ok(LedgerReply::Balance { amount })
            },
        }
    }

    /// Decodes and runs one binary command from `caller`. A malformed command
    /// changes nothing.
    pub fn handle(&mut self, caller: &Identity, command: &[u8]) -> (r: Result<LedgerReply, LedgerError>)
        requires
            old(self).wf(),
        ensures
            !ledger_frame_ok(command@) ==> r == Err::<LedgerReply, LedgerError>(
                LedgerError::MalformedCommand,
            ) && *final(self) == *old(self),
            forall|c: LedgerCommand| #[trigger]
                ledger_encodes(command@, c) ==> r == old(self).command_result(caller@, c) && (
                r is Ok ==> old(self).command_effect(*final(self), caller@, c)),
            r is Err ==> *final(self) == *old(self),
            final(self).wf(),
    {
        match decode_ledger_command(command) {
            None => Err(LedgerError::MalformedCommand),
            Some(c) => {
                proof {
                    assert forall|d: LedgerCommand| #[trigger]
                        ledger_encodes(command@, d) implies d == c by {
                        lemma_ledger_encoding_unique(command@, c, d);
                    }
                }
                self.execute(caller, c)
            },
        }
    }
}

} // verus!

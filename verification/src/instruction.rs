use crate::identity::Identity;
use crate::transfer::{BidTransfers, Payment};
use anchor_lang::prelude::Pubkey;
use anchor_lang::solana_program::system_instruction;
use vstd::prelude::*;

verus! {

/// An account that an instruction touches, and how.
#[derive(Clone, Copy, Debug, PartialEq, Eq)]
pub struct AccountMeta {
    pub pubkey: Identity,
    pub is_signer: bool,
    pub is_writable: bool,
}

/// An account of an instruction, its address as a sequence of bytes.
pub struct AccountMetaView {
    pub pubkey: Seq<u8>,
    pub is_signer: bool,
    pub is_writable: bool,
}

impl View for AccountMeta {
    type V = AccountMetaView;

    open spec fn view(&self) -> AccountMetaView {
        AccountMetaView {
            pubkey: self.pubkey@,
            is_signer: self.is_signer,
            is_writable: self.is_writable,
        }
    }
}

/// An instruction for the host to invoke: the program that is to run it, the
/// accounts it touches, and the data it carries.
#[derive(Clone, Debug, PartialEq, Eq)]
pub struct Instruction {
    pub program_id: Identity,
    pub accounts: Vec<AccountMeta>,
    pub data: Vec<u8>,
}

/// An instruction as sequences.
pub struct InstructionView {
    pub program_id: Seq<u8>,
    pub accounts: Seq<AccountMetaView>,
    pub data: Seq<u8>,
}

impl View for Instruction {
    type V = InstructionView;

    open spec fn view(&self) -> InstructionView {
        InstructionView {
            program_id: self.program_id@,
            accounts: self.accounts@.map_values(|meta: AccountMeta| meta@),
            data: self.data@,
        }
    }
}

/// The instruction by which the system program moves `lamports` from the
/// account at `from` to the account at `to`.
pub uninterp spec fn system_transfer(from: Seq<u8>, to: Seq<u8>, lamports: u64) -> InstructionView;

/// The accounts of a transfer: the payer, who signs, and then the payee.
/// Both balances change, so both are writable.
pub open spec fn transfer_accounts(from: Seq<u8>, to: Seq<u8>) -> Seq<AccountMetaView> {
    seq![
        AccountMetaView { pubkey: from, is_signer: true, is_writable: true },
        AccountMetaView { pubkey: to, is_signer: false, is_writable: true },
    ]
}

/// `system_instruction::transfer`, with its arguments made from and its
/// result turned into this library's types field by field. The result is a
/// function of the three arguments; its accounts are the two that the
/// function lists with `AccountMeta::new`, which marks an account writable:
/// the payer as a signer, the payee not.
#[verifier::external_body]
fn system_transfer_instruction(from: &Identity, to: &Identity, lamports: u64) -> (ix: Instruction)
    ensures
        ix@ == system_transfer(from@, to@, lamports),
        ix@.accounts == transfer_accounts(from@, to@),
{
    let payer = Pubkey::new_from_array(from.bytes);
    let payee = Pubkey::new_from_array(to.bytes);
    let ix = system_instruction::transfer(&payer, &payee, lamports);
    Instruction {
        program_id: Identity { bytes: ix.program_id.to_bytes() },
        accounts: ix.accounts.iter().map(
            |meta| AccountMeta {
                pubkey: Identity { bytes: meta.pubkey.to_bytes() },
                is_signer: meta.is_signer,
                is_writable: meta.is_writable,
            },
        ).collect(),
        data: ix.data,
    }
}

/// The instruction that carries out `payment`.
pub open spec fn payment_instruction(payment: Payment) -> InstructionView {
    system_transfer(payment.from@, payment.to@, payment.amount)
}

impl BidTransfers {
    /// The instructions that carry out the payments of a bid, in the order in
    /// which the host is to invoke them.
    pub fn instructions(&self) -> (list: Vec<Instruction>)
        ensures
            list@.map_values(|ix: Instruction| ix@) == self.in_order().map_values(
                |payment: Payment| payment_instruction(payment),
            ),
            forall|i: int|
                0 <= i < self.in_order().len() ==> (#[trigger] list@[i])@.accounts
                    == transfer_accounts(self.in_order()[i].from@, self.in_order()[i].to@),
    {
        let mut list: Vec<Instruction> = Vec::new();
        list.push(
            system_transfer_instruction(&self.payment.from, &self.payment.to, self.payment.amount),
        );
        if let Some(refund) = self.refund {
            list.push(system_transfer_instruction(&refund.from, &refund.to, refund.amount));
        }
        assert(list@.map_values(|ix: Instruction| ix@) =~= self.in_order().map_values(
            |payment: Payment| payment_instruction(payment),
        ));
        list
    }
}

} // verus!

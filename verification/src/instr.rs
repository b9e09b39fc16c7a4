use vstd::prelude::*;

verus! {

/// One account that an instruction reads or writes, by its 32-byte address.
#[derive(Clone, Copy, Debug, PartialEq, Eq)]
pub struct AccountRef {
    pub pubkey: [u8; 32],
    pub is_signer: bool,
    pub is_writable: bool,
}

/// A Solana instruction held as plain values: the program it calls, the
/// accounts it names, in order, and its data bytes.
#[derive(Clone, Debug)]
pub struct Instr {
    pub program_id: [u8; 32],
    pub accounts: Vec<AccountRef>,
    pub data: Vec<u8>,
}

/// The mathematical value of an [`Instr`].
pub struct InstrView {
    pub program_id: Seq<u8>,
    pub accounts: Seq<AccountRef>,
    pub data: Seq<u8>,
}

impl View for Instr {
    type V = InstrView;

    open spec fn view(&self) -> InstrView {
        InstrView { program_id: self.program_id@, accounts: self.accounts@, data: self.data@ }
    }
}

/// The views of a sequence of instructions, in order.
pub open spec fn instrs_view(ixs: Seq<Instr>) -> Seq<InstrView> {
    ixs.map_values(|ix: Instr| ix@)
}

} // verus!

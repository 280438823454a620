//! The chain data that chainhooks are evaluated on: blocks, their
//! transactions, and the events that announce them.
//!
//! Each type has a view over `Seq`, in which text is `Seq<char>`; the
//! contracts of the crate are stated over these views.

use vstd::prelude::*;

verus! {

/// Names a block by its height and its hash.
#[derive(Debug, PartialEq, Eq)]
pub struct BlockIdentifier {
    pub index: u64,
    pub hash: String,
}

/// The view of `BlockIdentifier`.
pub struct BlockIdentifierView {
    pub index: u64,
    pub hash: Seq<char>,
}

impl View for BlockIdentifier {
    type V = BlockIdentifierView;

    open spec fn view(&self) -> BlockIdentifierView {
        BlockIdentifierView { index: self.index, hash: self.hash@ }
    }
}

impl Clone for BlockIdentifier {
    fn clone(&self) -> (copy: Self)
        ensures
            copy@ == self@,
    {
        BlockIdentifier { index: self.index, hash: self.hash.clone() }
    }
}

/// Names a transaction by its hash. Its view is the hash.
#[derive(Debug, PartialEq, Eq)]
pub struct TransactionIdentifier {
    pub hash: String,
}

impl View for TransactionIdentifier {
    type V = Seq<char>;

    open spec fn view(&self) -> Seq<char> {
        self.hash@
    }
}

impl Clone for TransactionIdentifier {
    fn clone(&self) -> (copy: Self)
        ensures
            copy@ == self@,
    {
        TransactionIdentifier { hash: self.hash.clone() }
    }
}

/// An output of a transaction: an amount, locked by a script that is held as
/// hexadecimal text.
#[derive(Debug, PartialEq, Eq)]
pub struct TxOut {
    pub value: u64,
    pub script_pubkey: String,
}

/// The view of `TxOut`.
pub struct TxOutView {
    pub value: u64,
    pub script_pubkey: Seq<char>,
}

impl View for TxOut {
    type V = TxOutView;

    open spec fn view(&self) -> TxOutView {
        TxOutView { value: self.value, script_pubkey: self.script_pubkey@ }
    }
}

impl Clone for TxOut {
    fn clone(&self) -> (copy: Self)
        ensures
            copy@ == self@,
    {
        TxOut { value: self.value, script_pubkey: self.script_pubkey.clone() }
    }
}

/// A block commitment that burns its amount.
#[derive(Debug, PartialEq, Eq)]
pub struct PobBlockCommitmentData {
    pub stacks_block_hash: String,
    pub amount: u64,
}

/// The view of `PobBlockCommitmentData`.
pub struct PobBlockCommitmentView {
    pub stacks_block_hash: Seq<char>,
    pub amount: u64,
}

impl View for PobBlockCommitmentData {
    type V = PobBlockCommitmentView;

    open spec fn view(&self) -> PobBlockCommitmentView {
        PobBlockCommitmentView { stacks_block_hash: self.stacks_block_hash@, amount: self.amount }
    }
}

impl Clone for PobBlockCommitmentData {
    fn clone(&self) -> (copy: Self)
        ensures
            copy@ == self@,
    {
        PobBlockCommitmentData {
            stacks_block_hash: self.stacks_block_hash.clone(),
            amount: self.amount,
        }
    }
}

/// What a block commitment pays to one recipient.
#[derive(Debug, PartialEq, Eq)]
pub struct PoxReward {
    pub recipient: String,
    pub amount: u64,
}

/// The view of `PoxReward`.
pub struct PoxRewardView {
    pub recipient: Seq<char>,
    pub amount: u64,
}

impl View for PoxReward {
    type V = PoxRewardView;

    open spec fn view(&self) -> PoxRewardView {
        PoxRewardView { recipient: self.recipient@, amount: self.amount }
    }
}

impl Clone for PoxReward {
    fn clone(&self) -> (copy: Self)
        ensures
            copy@ == self@,
    {
        PoxReward { recipient: self.recipient.clone(), amount: self.amount }
    }
}

/// The views of `rewards`, in order.
pub open spec fn rewards_view(rewards: Seq<PoxReward>) -> Seq<PoxRewardView> {
    rewards.map_values(|reward: PoxReward| reward@)
}

/// A block commitment that pays its amount to reward recipients.
#[derive(Debug, PartialEq, Eq)]
pub struct PoxBlockCommitmentData {
    pub stacks_block_hash: String,
    pub rewards: Vec<PoxReward>,
}

/// The view of `PoxBlockCommitmentData`.
pub struct PoxBlockCommitmentView {
    pub stacks_block_hash: Seq<char>,
    pub rewards: Seq<PoxRewardView>,
}

impl View for PoxBlockCommitmentData {
    type V = PoxBlockCommitmentView;

    open spec fn view(&self) -> PoxBlockCommitmentView {
        PoxBlockCommitmentView {
            stacks_block_hash: self.stacks_block_hash@,
            rewards: rewards_view(self.rewards@),
        }
    }
}

impl Clone for PoxBlockCommitmentData {
    fn clone(&self) -> (copy: Self)
        ensures
            copy@ == self@,
    {
        let mut rewards: Vec<PoxReward> = Vec::new();
        let mut i: usize = 0;
        while i < self.rewards.len()
            invariant
                i <= self.rewards.len(),
                rewards.len() == i,
                forall|k: int| 0 <= k < i ==> rewards@[k]@ == self.rewards@[k]@,
            decreases self.rewards.len() - i,
        {
            rewards.push(self.rewards[i].clone());
            i += 1;
        }
        assert(rewards_view(rewards@) =~= rewards_view(self.rewards@));
        PoxBlockCommitmentData { stacks_block_hash: self.stacks_block_hash.clone(), rewards }
    }
}

/// The registration of a mining key. It carries no data.
#[derive(Debug, PartialEq, Eq)]
pub struct KeyRegistrationData;

/// A transfer of tokens, ordered on the Bitcoin chain.
#[derive(Debug, PartialEq, Eq)]
pub struct TransferSTXData {
    pub sender: String,
    pub recipient: String,
    pub amount: String,
}

/// The view of `TransferSTXData`.
pub struct TransferSTXView {
    pub sender: Seq<char>,
    pub recipient: Seq<char>,
    pub amount: Seq<char>,
}

impl View for TransferSTXData {
    type V = TransferSTXView;

    open spec fn view(&self) -> TransferSTXView {
        TransferSTXView {
            sender: self.sender@,
            recipient: self.recipient@,
            amount: self.amount@,
        }
    }
}

impl Clone for TransferSTXData {
    fn clone(&self) -> (copy: Self)
        ensures
            copy@ == self@,
    {
        TransferSTXData {
            sender: self.sender.clone(),
            recipient: self.recipient.clone(),
            amount: self.amount.clone(),
        }
    }
}

/// A lock of tokens, ordered on the Bitcoin chain.
#[derive(Debug, PartialEq, Eq)]
pub struct LockSTXData {
    pub sender: String,
    pub amount: String,
    pub duration: u64,
}

/// The view of `LockSTXData`.
pub struct LockSTXView {
    pub sender: Seq<char>,
    pub amount: Seq<char>,
    pub duration: u64,
}

impl View for LockSTXData {
    type V = LockSTXView;

    open spec fn view(&self) -> LockSTXView {
        LockSTXView { sender: self.sender@, amount: self.amount@, duration: self.duration }
    }
}

impl Clone for LockSTXData {
    fn clone(&self) -> (copy: Self)
        ensures
            copy@ == self@,
    {
        LockSTXData {
            sender: self.sender.clone(),
            amount: self.amount.clone(),
            duration: self.duration,
        }
    }
}

/// An operation of the Stacks chain that a Bitcoin transaction carries.
#[derive(Debug, PartialEq, Eq)]
pub enum StacksBaseChainOperation {
    PobBlockCommitment(PobBlockCommitmentData),
    PoxBlockCommitment(PoxBlockCommitmentData),
    KeyRegistration(KeyRegistrationData),
    TransferSTX(TransferSTXData),
    LockSTX(LockSTXData),
}

/// The view of `StacksBaseChainOperation`.
pub enum StacksBaseChainOperationView {
    PobBlockCommitment(PobBlockCommitmentView),
    PoxBlockCommitment(PoxBlockCommitmentView),
    KeyRegistration,
    TransferSTX(TransferSTXView),
    LockSTX(LockSTXView),
}

impl View for StacksBaseChainOperation {
    type V = StacksBaseChainOperationView;

    open spec fn view(&self) -> StacksBaseChainOperationView {
        match self {
            StacksBaseChainOperation::PobBlockCommitment(data) => {
                StacksBaseChainOperationView::PobBlockCommitment(data@)
            },
            StacksBaseChainOperation::PoxBlockCommitment(data) => {
                StacksBaseChainOperationView::PoxBlockCommitment(data@)
            },
            StacksBaseChainOperation::KeyRegistration(_) => {
                StacksBaseChainOperationView::KeyRegistration
            },
            StacksBaseChainOperation::TransferSTX(data) => {
                StacksBaseChainOperationView::TransferSTX(data@)
            },
            StacksBaseChainOperation::LockSTX(data) => StacksBaseChainOperationView::LockSTX(data@),
        }
    }
}

impl Clone for StacksBaseChainOperation {
    fn clone(&self) -> (copy: Self)
        ensures
            copy@ == self@,
    {
        match self {
            StacksBaseChainOperation::PobBlockCommitment(data) => {
                StacksBaseChainOperation::PobBlockCommitment(data.clone())
            },
            StacksBaseChainOperation::PoxBlockCommitment(data) => {
                StacksBaseChainOperation::PoxBlockCommitment(data.clone())
            },
            StacksBaseChainOperation::KeyRegistration(_) => {
                StacksBaseChainOperation::KeyRegistration(KeyRegistrationData)
            },
            StacksBaseChainOperation::TransferSTX(data) => {
                StacksBaseChainOperation::TransferSTX(data.clone())
            },
            StacksBaseChainOperation::LockSTX(data) => {
                StacksBaseChainOperation::LockSTX(data.clone())
            },
        }
    }
}

/// The kinds of operation, without their data.
#[derive(Clone, Copy, Debug, PartialEq, Eq, Structural)]
pub enum OperationKind {
    PobBlockCommitment,
    PoxBlockCommitment,
    KeyRegistration,
    TransferSTX,
    LockSTX,
}

/// The kind of `operation`.
pub open spec fn kind_of(operation: StacksBaseChainOperationView) -> OperationKind {
    match operation {
        StacksBaseChainOperationView::PobBlockCommitment(_) => OperationKind::PobBlockCommitment,
        StacksBaseChainOperationView::PoxBlockCommitment(_) => OperationKind::PoxBlockCommitment,
        StacksBaseChainOperationView::KeyRegistration => OperationKind::KeyRegistration,
        StacksBaseChainOperationView::TransferSTX(_) => OperationKind::TransferSTX,
        StacksBaseChainOperationView::LockSTX(_) => OperationKind::LockSTX,
    }
}

impl StacksBaseChainOperation {
    /// The kind of this operation.
    pub fn kind(&self) -> (kind: OperationKind)
        ensures
            kind == kind_of(self@),
    {
        match self {
            StacksBaseChainOperation::PobBlockCommitment(_) => OperationKind::PobBlockCommitment,
            StacksBaseChainOperation::PoxBlockCommitment(_) => OperationKind::PoxBlockCommitment,
            StacksBaseChainOperation::KeyRegistration(_) => OperationKind::KeyRegistration,
            StacksBaseChainOperation::TransferSTX(_) => OperationKind::TransferSTX,
            StacksBaseChainOperation::LockSTX(_) => OperationKind::LockSTX,
        }
    }
}

/// The views of `outputs`, in order.
pub open spec fn outputs_view(outputs: Seq<TxOut>) -> Seq<TxOutView> {
    outputs.map_values(|output: TxOut| output@)
}

/// The views of `operations`, in order.
pub open spec fn operations_view(operations: Seq<StacksBaseChainOperation>) -> Seq<
    StacksBaseChainOperationView,
> {
    operations.map_values(|operation: StacksBaseChainOperation| operation@)
}

/// What a transaction holds besides its name.
#[derive(Debug, PartialEq, Eq)]
pub struct BitcoinTransactionMetadata {
    pub outputs: Vec<TxOut>,
    pub stacks_operations: Vec<StacksBaseChainOperation>,
}

/// A transaction of a block.
#[derive(Debug, PartialEq, Eq)]
pub struct BitcoinTransactionData {
    pub transaction_identifier: TransactionIdentifier,
    pub metadata: BitcoinTransactionMetadata,
}

/// A transaction as the contracts see it: its hash, its outputs and its
/// operations.
pub struct BitcoinTransactionView {
    pub hash: Seq<char>,
    pub outputs: Seq<TxOutView>,
    pub stacks_operations: Seq<StacksBaseChainOperationView>,
}

impl View for BitcoinTransactionData {
    type V = BitcoinTransactionView;

    open spec fn view(&self) -> BitcoinTransactionView {
        BitcoinTransactionView {
            hash: self.transaction_identifier@,
            outputs: outputs_view(self.metadata.outputs@),
            stacks_operations: operations_view(self.metadata.stacks_operations@),
        }
    }
}

impl Clone for BitcoinTransactionData {
    fn clone(&self) -> (copy: Self)
        ensures
            copy@ == self@,
    {
        let mut outputs: Vec<TxOut> = Vec::new();
        let mut i: usize = 0;
        while i < self.metadata.outputs.len()
            invariant
                i <= self.metadata.outputs.len(),
                outputs.len() == i,
                forall|k: int| 0 <= k < i ==> outputs@[k]@ == self.metadata.outputs@[k]@,
            decreases self.metadata.outputs.len() - i,
        {
            outputs.push(self.metadata.outputs[i].clone());
            i += 1;
        }
        assert(outputs_view(outputs@) =~= outputs_view(self.metadata.outputs@));
        let mut operations: Vec<StacksBaseChainOperation> = Vec::new();
        let mut j: usize = 0;
        while j < self.metadata.stacks_operations.len()
            invariant
                j <= self.metadata.stacks_operations.len(),
                operations.len() == j,
                forall|k: int|
                    0 <= k < j ==> operations@[k]@ == self.metadata.stacks_operations@[k]@,
            decreases self.metadata.stacks_operations.len() - j,
        {
            operations.push(self.metadata.stacks_operations[j].clone());
            j += 1;
        }
        assert(operations_view(operations@) =~= operations_view(
            self.metadata.stacks_operations@,
        ));
        BitcoinTransactionData {
            transaction_identifier: self.transaction_identifier.clone(),
            metadata: BitcoinTransactionMetadata { outputs, stacks_operations: operations },
        }
    }
}

/// The views of `transactions`, in order.
pub open spec fn transactions_view(transactions: Seq<BitcoinTransactionData>) -> Seq<
    BitcoinTransactionView,
> {
    transactions.map_values(|transaction: BitcoinTransactionData| transaction@)
}

/// A block: its name and its transactions, in the order of the block.
#[derive(Debug, PartialEq, Eq)]
pub struct BitcoinBlockData {
    pub block_identifier: BlockIdentifier,
    pub transactions: Vec<BitcoinTransactionData>,
}

/// The view of `BitcoinBlockData`.
pub struct BitcoinBlockView {
    pub block_identifier: BlockIdentifierView,
    pub transactions: Seq<BitcoinTransactionView>,
}

impl View for BitcoinBlockData {
    type V = BitcoinBlockView;

    open spec fn view(&self) -> BitcoinBlockView {
        BitcoinBlockView {
            block_identifier: self.block_identifier@,
            transactions: transactions_view(self.transactions@),
        }
    }
}

/// The views of `blocks`, in order.
pub open spec fn blocks_view(blocks: Seq<BitcoinBlockData>) -> Seq<BitcoinBlockView> {
    blocks.map_values(|block: BitcoinBlockData| block@)
}

/// The chain grew by `new_blocks`.
#[derive(Debug, PartialEq, Eq)]
pub struct BitcoinChainUpdatedWithBlocksData {
    pub new_blocks: Vec<BitcoinBlockData>,
}

/// The chain dropped `blocks_to_rollback` and took `blocks_to_apply` in
/// their place.
#[derive(Debug, PartialEq, Eq)]
pub struct BitcoinChainUpdatedWithReorgData {
    pub blocks_to_rollback: Vec<BitcoinBlockData>,
    pub blocks_to_apply: Vec<BitcoinBlockData>,
}

/// A change of the chain.
#[derive(Debug, PartialEq, Eq)]
pub enum BitcoinChainEvent {
    ChainUpdatedWithBlocks(BitcoinChainUpdatedWithBlocksData),
    ChainUpdatedWithReorg(BitcoinChainUpdatedWithReorgData),
}

/// The view of `BitcoinChainEvent`.
pub enum BitcoinChainEventView {
    ChainUpdatedWithBlocks { new_blocks: Seq<BitcoinBlockView> },
    ChainUpdatedWithReorg {
        blocks_to_rollback: Seq<BitcoinBlockView>,
        blocks_to_apply: Seq<BitcoinBlockView>,
    },
}

impl View for BitcoinChainEvent {
    type V = BitcoinChainEventView;

    open spec fn view(&self) -> BitcoinChainEventView {
        match self {
            BitcoinChainEvent::ChainUpdatedWithBlocks(update) => {
                BitcoinChainEventView::ChainUpdatedWithBlocks {
                    new_blocks: blocks_view(update.new_blocks@),
                }
            },
            BitcoinChainEvent::ChainUpdatedWithReorg(update) => {
                BitcoinChainEventView::ChainUpdatedWithReorg {
                    blocks_to_rollback: blocks_view(update.blocks_to_rollback@),
                    blocks_to_apply: blocks_view(update.blocks_to_apply@),
                }
            },
        }
    }
}

} // verus!

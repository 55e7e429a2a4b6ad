//! Request and response shapes of the four operations, and the plain-value
//! form of an inbound call's context (sender and attached coins). The
//! boundary that speaks the host ledger's wire format converts to and from
//! these types.

use vstd::prelude::*;

use crate::state::{BoxV, FundsBox};

verus! {

/// One attached coin: an amount of one denomination.
#[derive(Debug, PartialEq, Eq)]
pub struct Coin {
    pub denom: String,
    pub amount: u128,
}

/// Mathematical image of a [`Coin`].
#[verifier::ext_equal]
pub ghost struct CoinV {
    pub denom: Seq<char>,
    pub amount: u128,
}

impl View for Coin {
    type V = CoinV;

    open spec fn view(&self) -> CoinV {
        CoinV { denom: self.denom@, amount: self.amount }
    }
}

impl Clone for Coin {
    fn clone(&self) -> (r: Self)
        ensures
            r@ == self@,
    {
        Coin { denom: self.denom.clone(), amount: self.amount }
    }
}

/// The context of one inbound request: who sent it and which coins were
/// attached as payment.
#[derive(Debug, PartialEq, Eq)]
pub struct MessageInfo {
    pub sender: String,
    pub funds: Vec<Coin>,
}

/// Mathematical image of a [`MessageInfo`].
#[verifier::ext_equal]
pub ghost struct MessageInfoV {
    pub sender: Seq<char>,
    pub funds: Seq<CoinV>,
}

impl View for MessageInfo {
    type V = MessageInfoV;

    open spec fn view(&self) -> MessageInfoV {
        MessageInfoV { sender: self.sender@, funds: self.funds@.map_values(|c: Coin| c@) }
    }
}

/// Initialization request: the single denomination this instance will accept
/// and pay out.
#[derive(Debug, PartialEq, Eq)]
pub struct InstantiateMsg {
    pub denom: String,
}

impl View for InstantiateMsg {
    type V = Seq<char>;

    open spec fn view(&self) -> Seq<char> {
        self.denom@
    }
}

/// One requested box: the amount to lock and the lowercase hexadecimal
/// SHA-256 digest of its secret, supplied already hashed by the caller and
/// stored verbatim.
#[derive(Debug, PartialEq, Eq)]
pub struct BoxMsg {
    pub funds: u128,
    pub hashed_password: String,
}

/// Mathematical image of a [`BoxMsg`].
#[verifier::ext_equal]
pub ghost struct BoxMsgV {
    pub funds: u128,
    pub hashed_password: Seq<char>,
}

impl View for BoxMsg {
    type V = BoxMsgV;

    open spec fn view(&self) -> BoxMsgV {
        BoxMsgV { funds: self.funds, hashed_password: self.hashed_password@ }
    }
}

/// The two state-changing operations.
#[derive(Debug, PartialEq, Eq)]
pub enum ExecuteMsg {
    CreateBoxes { boxes: Vec<BoxMsg> },
    OpenBox { box_id: u64, password: String },
}

/// Mathematical image of an [`ExecuteMsg`].
#[verifier::ext_equal]
pub ghost enum ExecuteMsgV {
    CreateBoxes { boxes: Seq<BoxMsgV> },
    OpenBox { box_id: u64, password: Seq<char> },
}

impl View for ExecuteMsg {
    type V = ExecuteMsgV;

    open spec fn view(&self) -> ExecuteMsgV {
        match self {
            ExecuteMsg::CreateBoxes { boxes } => ExecuteMsgV::CreateBoxes {
                boxes: boxes@.map_values(|b: BoxMsg| b@),
            },
            ExecuteMsg::OpenBox { box_id, password } => ExecuteMsgV::OpenBox {
                box_id: *box_id,
                password: password@,
            },
        }
    }
}

/// The two read-only operations.
#[derive(Debug, PartialEq, Eq)]
pub enum QueryMsg {
    BoxCount {},
    Box { box_id: u64 },
}

/// Acknowledgement of initialization, carrying the initializing identity.
#[derive(Debug, PartialEq, Eq)]
pub struct InstantiateResponse {
    pub owner: String,
}

impl View for InstantiateResponse {
    type V = Seq<char>;

    open spec fn view(&self) -> Seq<char> {
        self.owner@
    }
}

/// The identifiers minted by one creation request, in input order.
#[derive(Debug, PartialEq, Eq)]
pub struct CreateBoxesResponse {
    pub box_ids: Vec<u64>,
}

impl View for CreateBoxesResponse {
    type V = Seq<u64>;

    open spec fn view(&self) -> Seq<u64> {
        self.box_ids@
    }
}

/// The outbound instruction a successful open emits: pay `amount` units of
/// `denom` to `to_address`.
#[derive(Debug, PartialEq, Eq)]
pub struct Transfer {
    pub to_address: String,
    pub amount: u128,
    pub denom: String,
}

/// Mathematical image of a [`Transfer`].
#[verifier::ext_equal]
pub ghost struct TransferV {
    pub to_address: Seq<char>,
    pub amount: u128,
    pub denom: Seq<char>,
}

impl View for Transfer {
    type V = TransferV;

    open spec fn view(&self) -> TransferV {
        TransferV { to_address: self.to_address@, amount: self.amount, denom: self.denom@ }
    }
}

/// Acknowledgement of a successful open. Exactly one transfer instruction is
/// emitted per successful open, so it is a single field, not a list.
#[derive(Debug, PartialEq, Eq)]
pub struct OpenBoxResponse {
    pub transfer: Transfer,
}

impl View for OpenBoxResponse {
    type V = TransferV;

    open spec fn view(&self) -> TransferV {
        self.transfer@
    }
}

/// The outcome of one state-changing operation, mirroring [`ExecuteMsg`].
#[derive(Debug, PartialEq, Eq)]
pub enum ExecuteResponse {
    CreateBoxes(CreateBoxesResponse),
    OpenBox(OpenBoxResponse),
}

/// The current counter value: how many boxes have ever been created.
#[derive(Debug, PartialEq, Eq, Clone, Copy)]
pub struct BoxCountResponse {
    pub count: u64,
}

impl View for BoxCountResponse {
    type V = u64;

    open spec fn view(&self) -> u64 {
        self.count
    }
}

/// The stored record of one box, returned verbatim (the digest, not the
/// plaintext secret, is what it holds).
#[derive(Debug, PartialEq, Eq)]
pub struct BoxResponse {
    pub funds_box: FundsBox,
}

impl View for BoxResponse {
    type V = BoxV;

    open spec fn view(&self) -> BoxV {
        self.funds_box@
    }
}

/// The outcome of one read-only operation, mirroring [`QueryMsg`].
#[derive(Debug, PartialEq, Eq)]
pub enum QueryResponse {
    BoxCount(BoxCountResponse),
    Box(BoxResponse),
}

} // verus!

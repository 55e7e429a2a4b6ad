//! The escrow engine: initialize, create boxes, open box, and the read-only
//! queries, together with the transition predicates that state exactly what
//! each operation does to the store and the laws proved about them.
//!
//! Every validation failure occurs before any mutation: each transition
//! predicate pins the store unchanged on every error.

use vstd::prelude::*;

use crate::crypto::{hash_password, hashed_hex};
use crate::error::{ContractError, ContractErrorV};
use crate::msg::{
    BoxCountResponse, BoxMsg, BoxMsgV, BoxResponse, CreateBoxesResponse, ExecuteMsg, ExecuteMsgV,
    ExecuteResponse, InstantiateMsg, InstantiateResponse, MessageInfo, MessageInfoV, OpenBoxResponse,
    QueryMsg, QueryResponse, Transfer, TransferV,
};
use crate::payment::{must_pay, spec_must_pay};
use crate::state::{BoxV, FundsBox, Opener, OpenerV, State, StateV, Store, StoreV};

verus! {

/// The sum of the requested amounts of one creation request, as an
/// unbounded integer.
pub open spec fn sum_funds(boxes: Seq<BoxMsgV>) -> int
    decreases boxes.len(),
{
    if boxes.len() == 0 {
        0
    } else {
        boxes[0].funds + sum_funds(boxes.drop_first())
    }
}

/// The mathematical image of a list of box specifications.
pub open spec fn msgs_view(boxes: Seq<BoxMsg>) -> Seq<BoxMsgV> {
    boxes.map_values(|b: BoxMsg| b@)
}

/// The identifiers one creation request mints when the counter stands at
/// `counter`: `counter + 1`, `counter + 2`, ..., one per specification.
pub open spec fn minted_ids(counter: u64, n: nat) -> Seq<u64> {
    Seq::new(n, |i: int| (counter + 1 + i) as u64)
}

/// The records one creation request appends: each specification verbatim,
/// with the caller as creator and no opener.
pub open spec fn minted_boxes(sender: Seq<char>, boxes: Seq<BoxMsgV>) -> Seq<BoxV> {
    Seq::new(
        boxes.len(),
        |i: int| BoxV {
            creator: sender,
            funds: boxes[i].funds,
            hashed_password: boxes[i].hashed_password,
            opener: OpenerV::Unopened,
        },
    )
}

/// What initialization does: persist the configuration and a zero counter,
/// touch no box, and acknowledge with the initializing identity.
pub open spec fn instantiate_transition(
    pre: StoreV,
    sender: Seq<char>,
    denom: Seq<char>,
    post: StoreV,
    out: Result<Seq<char>, ContractErrorV>,
) -> bool {
    &&& post.config == Some(StateV { owner: sender, denom: denom })
    &&& post.counter == Some(0u64)
    &&& post.boxes == pre.boxes
    &&& out == Ok::<Seq<char>, ContractErrorV>(sender)
}

/// What one creation request does, for every input: each rejection with the
/// exact error it returns and the store unchanged, and on success the minted
/// identifiers, the appended records and the advanced counter.
pub open spec fn create_boxes_transition(
    pre: StoreV,
    info: MessageInfoV,
    boxes: Seq<BoxMsgV>,
    post: StoreV,
    out: Result<Seq<u64>, ContractErrorV>,
) -> bool {
    match pre.config {
        None => post == pre && out == Err::<Seq<u64>, ContractErrorV>(
            ContractErrorV::NotInitialized,
        ),
        Some(cfg) => match spec_must_pay(info, cfg.denom) {
            Err(pe) => post == pre && out == Err::<Seq<u64>, ContractErrorV>(
                ContractErrorV::Payment(pe),
            ),
            Ok(payment) => if payment < sum_funds(boxes) {
                post == pre && out == Err::<Seq<u64>, ContractErrorV>(
                    ContractErrorV::InsufficientFunds {
                        got: payment,
                        needed: sum_funds(boxes) as u128,
                    },
                )
            } else {
                match pre.counter {
                    None => false,
                    Some(c) => {
                        &&& post.config == pre.config
                        &&& post.counter == Some((c + boxes.len()) as u64)
                        &&& post.boxes == pre.boxes + minted_boxes(info.sender, boxes)
                        &&& out == Ok::<Seq<u64>, ContractErrorV>(minted_ids(c, boxes.len()))
                    },
                }
            },
        },
    }
}

/// What one open request does, given the digest `hashed` computed from the
/// supplied secret: each rejection with the exact error and the store
/// unchanged, and on a matching digest the rewritten opener and the single
/// transfer of exactly the box's funds in the configured denomination. The
/// recorded opener is never consulted: an already-opened box opens again.
pub open spec fn open_box_transition(
    pre: StoreV,
    sender: Seq<char>,
    box_id: u64,
    hashed: Seq<char>,
    post: StoreV,
    out: Result<TransferV, ContractErrorV>,
) -> bool {
    if !(1 <= box_id && box_id <= pre.boxes.len()) {
        post == pre && out == Err::<TransferV, ContractErrorV>(ContractErrorV::BoxNotFound)
    } else {
        let b = pre.boxes[box_id - 1];
        match pre.config {
            None => post == pre && out == Err::<TransferV, ContractErrorV>(
                ContractErrorV::NotInitialized,
            ),
            Some(cfg) => if b.hashed_password != hashed {
                post == pre && out == Err::<TransferV, ContractErrorV>(
                    ContractErrorV::IncorrectPassword,
                )
            } else {
                &&& post.config == pre.config
                &&& post.counter == pre.counter
                &&& post.boxes == pre.boxes.update(
                    box_id - 1,
                    BoxV {
                        creator: b.creator,
                        funds: b.funds,
                        hashed_password: b.hashed_password,
                        opener: OpenerV::Opened { by: sender },
                    },
                )
                &&& out == Ok::<TransferV, ContractErrorV>(
                    TransferV { to_address: sender, amount: b.funds, denom: cfg.denom },
                )
            },
        }
    }
}

/// What the counter query returns: the counter verbatim, or the failure
/// before initialization.
pub open spec fn box_count_transition(pre: StoreV, out: Result<u64, ContractErrorV>) -> bool {
    match pre.counter {
        Some(c) => out == Ok::<u64, ContractErrorV>(c),
        None => out == Err::<u64, ContractErrorV>(ContractErrorV::NotInitialized),
    }
}

/// What the box query returns: the stored record verbatim, or the failure
/// for an unknown identifier.
pub open spec fn get_box_transition(
    pre: StoreV,
    box_id: u64,
    out: Result<BoxV, ContractErrorV>,
) -> bool {
    if 1 <= box_id && box_id <= pre.boxes.len() {
        out == Ok::<BoxV, ContractErrorV>(pre.boxes[box_id - 1])
    } else {
        out == Err::<BoxV, ContractErrorV>(ContractErrorV::BoxNotFound)
    }
}

/// The mathematical image of an initialization result.
pub open spec fn instantiate_outcome(
    r: Result<InstantiateResponse, ContractError>,
) -> Result<Seq<char>, ContractErrorV> {
    match r {
        Ok(resp) => Ok(resp@),
        Err(e) => Err(e@),
    }
}

/// The mathematical image of a creation result.
pub open spec fn create_boxes_outcome(
    r: Result<CreateBoxesResponse, ContractError>,
) -> Result<Seq<u64>, ContractErrorV> {
    match r {
        Ok(resp) => Ok(resp@),
        Err(e) => Err(e@),
    }
}

/// The mathematical image of an open result.
pub open spec fn open_box_outcome(
    r: Result<OpenBoxResponse, ContractError>,
) -> Result<TransferV, ContractErrorV> {
    match r {
        Ok(resp) => Ok(resp@),
        Err(e) => Err(e@),
    }
}

/// The mathematical image of a counter-query result.
pub open spec fn box_count_outcome(
    r: Result<BoxCountResponse, ContractError>,
) -> Result<u64, ContractErrorV> {
    match r {
        Ok(resp) => Ok(resp@),
        Err(e) => Err(e@),
    }
}

/// The mathematical image of a box-query result.
pub open spec fn get_box_outcome(
    r: Result<BoxResponse, ContractError>,
) -> Result<BoxV, ContractErrorV> {
    match r {
        Ok(resp) => Ok(resp@),
        Err(e) => Err(e@),
    }
}

/// Initialize the instance: persist the configuration (denomination and
/// deploying identity) and a counter of zero. It is the surrounding
/// transport's responsibility to call this exactly once, before anything
/// else; the freshness requirement encodes that responsibility.
pub fn instantiate(store: &mut Store, info: MessageInfo, msg: InstantiateMsg) -> (r: Result<
    InstantiateResponse,
    ContractError,
>)
    requires
        old(store).is_fresh(),
    ensures
        instantiate_transition(old(store)@, info@.sender, msg@, final(store)@, instantiate_outcome(r)),
        final(store).well_formed(),
{
    let MessageInfo { sender, funds: _ } = info;
    let state = State { owner: sender.clone(), denom: msg.denom };
    store.save_config(state);
    store.save_counter(0);
    Ok(InstantiateResponse { owner: sender })
}

/// Create one box per specification, in input order. The attached payment
/// must be a single coin of the configured denomination worth at least the
/// sum of the requested amounts; any excess is accepted and retained without
/// an accounting record. Returns the minted identifiers, one per
/// specification, in order.
///
/// The two arithmetic requirements are machine limits: the requested sum
/// must fit the fixed-width amount, and the counter must not wrap.
#[verifier::loop_isolation(false)]
pub fn create_boxes(store: &mut Store, info: MessageInfo, boxes: Vec<BoxMsg>) -> (r: Result<
    CreateBoxesResponse,
    ContractError,
>)
    requires
        old(store).well_formed(),
        sum_funds(msgs_view(boxes@)) <= u128::MAX,
        old(store)@.counter matches Some(c) ==> c + boxes@.len() <= u64::MAX,
    ensures
        create_boxes_transition(
            old(store)@,
            info@,
            msgs_view(boxes@),
            final(store)@,
            create_boxes_outcome(r),
        ),
        final(store).well_formed(),
{
    let state = match store.load_config() {
        Ok(s) => s,
        Err(e) => {
            return Err(e);
        },
    };
    let ghost bv = msgs_view(boxes@);

    let mut funds_sum: u128 = 0;
    let mut i: usize = 0;
    proof {
        assert(bv.skip(0) =~= bv);
    }
    while i < boxes.len()
        invariant
            i <= boxes@.len(),
            funds_sum + sum_funds(bv.skip(i as int)) == sum_funds(bv),
        decreases boxes@.len() - i,
    {
        proof {
            assert(bv.skip(i as int).drop_first() =~= bv.skip(i as int + 1));
            lemma_sum_funds_nonneg(bv.skip(i as int + 1));
        }
        funds_sum = funds_sum + boxes[i].funds;
        i = i + 1;
    }
    proof {
        assert(bv.skip(boxes@.len() as int) =~= Seq::<BoxMsgV>::empty());
    }

    let payment = match must_pay(&info, &state.denom) {
        Ok(p) => p,
        Err(pe) => {
            return Err(ContractError::Payment(pe));
        },
    };
    if payment < funds_sum {
        return Err(ContractError::InsufficientFunds { got: payment, needed: funds_sum });
    }

    let ghost c0: u64 = old(store)@.counter->Some_0;
    let mut ids: Vec<u64> = Vec::new();
    let mut k: usize = 0;
    while k < boxes.len()
        invariant
            k <= boxes@.len(),
            store@.config == old(store)@.config,
            store@.counter == Some((c0 + k) as u64),
            store@.boxes == old(store)@.boxes + minted_boxes(info@.sender, bv.take(k as int)),
            ids@ == minted_ids(c0, k as nat),
        decreases boxes@.len() - k,
    {
        let id = match store.increment_counter() {
            Ok(v) => v,
            Err(e) => {
                return Err(e);
            },
        };
        ids.push(id);
        let item = &boxes[k];
        store.save_box(
            id,
            FundsBox {
                creator: info.sender.clone(),
                funds: item.funds,
                hashed_password: item.hashed_password.clone(),
                opener: Opener::Unopened,
            },
        );
        proof {
            assert(ids@ =~= minted_ids(c0, (k + 1) as nat));
            assert(store@.boxes =~= old(store)@.boxes + minted_boxes(
                info@.sender,
                bv.take(k as int + 1),
            ));
        }
        k = k + 1;
    }
    proof {
        assert(bv.take(boxes@.len() as int) =~= bv);
    }
    Ok(CreateBoxesResponse { box_ids: ids })
}

/// Open a box given the already-computed digest of the supplied secret: the
/// step of an open that follows the hashing. On a byte-for-byte match with
/// the stored digest, record the caller as opener and emit the single
/// transfer of exactly the box's funds; on any failure, change nothing.
/// The recorded opener is never consulted, so an already-opened box opens
/// again and the payout repeats — the policy kept here deliberately, stated
/// by [`lemma_reopen_allowed`].
pub fn open_box_hashed(store: &mut Store, info: MessageInfo, box_id: u64, hashed_password: String) -> (r: Result<
    OpenBoxResponse,
    ContractError,
>)
    ensures
        open_box_transition(
            old(store)@,
            info@.sender,
            box_id,
            hashed_password@,
            final(store)@,
            open_box_outcome(r),
        ),
        old(store).well_formed() ==> final(store).well_formed(),
{
    let found_box = match store.load_box(box_id) {
        Ok(b) => b,
        Err(e) => {
            return Err(e);
        },
    };
    let state = match store.load_config() {
        Ok(s) => s,
        Err(e) => {
            return Err(e);
        },
    };
    if !(found_box.hashed_password == hashed_password) {
        return Err(ContractError::IncorrectPassword);
    }
    store.save_box(
        box_id,
        FundsBox {
            creator: found_box.creator,
            funds: found_box.funds,
            hashed_password: found_box.hashed_password,
            opener: Opener::Opened { by: info.sender.clone() },
        },
    );
    Ok(OpenBoxResponse {
        transfer: Transfer { to_address: info.sender, amount: found_box.funds, denom: state.denom },
    })
}

/// Open a box with a plaintext secret: hash it (lowercase hexadecimal
/// SHA-256 of its bytes) and proceed as [`open_box_hashed`].
pub fn open_box(store: &mut Store, info: MessageInfo, box_id: u64, password: String) -> (r: Result<
    OpenBoxResponse,
    ContractError,
>)
    ensures
        open_box_transition(
            old(store)@,
            info@.sender,
            box_id,
            hashed_hex(password@),
            final(store)@,
            open_box_outcome(r),
        ),
        old(store).well_formed() ==> final(store).well_formed(),
{
    let hashed = hash_password(password.as_str());
    open_box_hashed(store, info, box_id, hashed)
}

/// Dispatch one state-changing request to [`create_boxes`] or [`open_box`].
pub fn execute(store: &mut Store, info: MessageInfo, msg: ExecuteMsg) -> (r: Result<
    ExecuteResponse,
    ContractError,
>)
    requires
        old(store).well_formed(),
        msg@ matches ExecuteMsgV::CreateBoxes { boxes } ==> sum_funds(boxes) <= u128::MAX && (
        old(store)@.counter matches Some(c) ==> c + boxes.len() <= u64::MAX),
    ensures
        msg@ matches ExecuteMsgV::CreateBoxes { boxes } ==> match r {
            Ok(resp) => resp matches ExecuteResponse::CreateBoxes(cr)
                && create_boxes_transition(old(store)@, info@, boxes, final(store)@, Ok(cr@)),
            Err(e) => create_boxes_transition(old(store)@, info@, boxes, final(store)@, Err(e@)),
        },
        msg@ matches ExecuteMsgV::OpenBox { box_id, password } ==> match r {
            Ok(resp) => resp matches ExecuteResponse::OpenBox(ob) && open_box_transition(
                old(store)@,
                info@.sender,
                box_id,
                hashed_hex(password),
                final(store)@,
                Ok(ob@),
            ),
            Err(e) => open_box_transition(
                old(store)@,
                info@.sender,
                box_id,
                hashed_hex(password),
                final(store)@,
                Err(e@),
            ),
        },
        final(store).well_formed(),
{
    match msg {
        ExecuteMsg::CreateBoxes { boxes } => match create_boxes(store, info, boxes) {
            Ok(resp) => Ok(ExecuteResponse::CreateBoxes(resp)),
            Err(e) => Err(e),
        },
        ExecuteMsg::OpenBox { box_id, password } => match open_box(store, info, box_id, password) {
            Ok(resp) => Ok(ExecuteResponse::OpenBox(resp)),
            Err(e) => Err(e),
        },
    }
}

/// How many boxes have ever been created: the counter verbatim.
pub fn box_count(store: &Store) -> (r: Result<BoxCountResponse, ContractError>)
    ensures
        box_count_transition(store@, box_count_outcome(r)),
{
    let count = match store.load_counter() {
        Ok(c) => c,
        Err(e) => {
            return Err(e);
        },
    };
    Ok(BoxCountResponse { count })
}

/// The stored record of one box, verbatim — including the digest, which is
/// safe to expose because it is one-way.
pub fn get_box(store: &Store, box_id: u64) -> (r: Result<BoxResponse, ContractError>)
    ensures
        get_box_transition(store@, box_id, get_box_outcome(r)),
{
    let funds_box = match store.load_box(box_id) {
        Ok(b) => b,
        Err(e) => {
            return Err(e);
        },
    };
    Ok(BoxResponse { funds_box })
}

/// Dispatch one read-only request to [`box_count`] or [`get_box`].
pub fn query(store: &Store, msg: QueryMsg) -> (r: Result<QueryResponse, ContractError>)
    ensures
        msg matches QueryMsg::BoxCount {} ==> match r {
            Ok(resp) => resp matches QueryResponse::BoxCount(bc) && box_count_transition(
                store@,
                Ok(bc@),
            ),
            Err(e) => box_count_transition(store@, Err(e@)),
        },
        msg matches QueryMsg::Box { box_id } ==> match r {
            Ok(resp) => resp matches QueryResponse::Box(br) && get_box_transition(
                store@,
                box_id,
                Ok(br@),
            ),
            Err(e) => get_box_transition(store@, box_id, Err(e@)),
        },
{
    match msg {
        QueryMsg::BoxCount {} => match box_count(store) {
            Ok(resp) => Ok(QueryResponse::BoxCount(resp)),
            Err(e) => Err(e),
        },
        QueryMsg::Box { box_id } => match get_box(store, box_id) {
            Ok(resp) => Ok(QueryResponse::Box(resp)),
            Err(e) => Err(e),
        },
    }
}

/// The requested sum is never negative: every specification's amount is a
/// machine integer.
pub proof fn lemma_sum_funds_nonneg(boxes: Seq<BoxMsgV>)
    ensures
        sum_funds(boxes) >= 0,
    decreases boxes.len(),
{
    if boxes.len() > 0 {
        lemma_sum_funds_nonneg(boxes.drop_first());
    }
}

/// Law: the identifiers minted by one creation request are consecutive and
/// strictly increasing, one per specification in input order; from a fresh
/// instance (counter zero) they are 1, 2, ..., n, with no gap and no reuse.
pub proof fn lemma_minted_ids_increasing(counter: u64, n: nat)
    requires
        counter + n <= u64::MAX,
    ensures
        minted_ids(counter, n).len() == n,
        forall|i: int| 0 <= i < n ==> minted_ids(counter, n)[i] == counter + 1 + i,
        forall|i: int, j: int| 0 <= i < j < n ==> minted_ids(counter, n)[i] < minted_ids(
            counter,
            n,
        )[j],
        counter == 0 ==> forall|i: int| 0 <= i < n ==> minted_ids(counter, n)[i] == i + 1,
{
}

/// Law: a rejected creation request creates nothing — on every error the
/// store, counter included, is exactly what it was.
pub proof fn lemma_create_boxes_error_preserves_store(
    pre: StoreV,
    info: MessageInfoV,
    boxes: Seq<BoxMsgV>,
    post: StoreV,
    out: Result<Seq<u64>, ContractErrorV>,
)
    requires
        create_boxes_transition(pre, info, boxes, post, out),
        (out is Err),
    ensures
        post == pre,
{
}

/// Law: a payment smaller than the requested sum is rejected with exactly
/// the attached and the required amount, and nothing is created.
pub proof fn lemma_insufficient_payment(
    pre: StoreV,
    info: MessageInfoV,
    boxes: Seq<BoxMsgV>,
    post: StoreV,
    out: Result<Seq<u64>, ContractErrorV>,
)
    requires
        create_boxes_transition(pre, info, boxes, post, out),
        (pre.config is Some),
        spec_must_pay(info, pre.config->Some_0.denom) matches Ok(payment) && payment < sum_funds(
            boxes,
        ),
    ensures
        out == Err::<Seq<u64>, ContractErrorV>(
            ContractErrorV::InsufficientFunds {
                got: spec_must_pay(info, pre.config->Some_0.denom)->Ok_0,
                needed: sum_funds(boxes) as u128,
            },
        ),
        post == pre,
{
}

/// Law: a failing open mutates nothing and emits no transfer — in
/// particular an incorrect secret leaves the store exactly as it was.
pub proof fn lemma_open_box_error_preserves_store(
    pre: StoreV,
    sender: Seq<char>,
    box_id: u64,
    hashed: Seq<char>,
    post: StoreV,
    out: Result<TransferV, ContractErrorV>,
)
    requires
        open_box_transition(pre, sender, box_id, hashed, post, out),
        (out is Err),
    ensures
        post == pre,
{
}

/// Law: an incorrect secret for an existing box of an initialized instance
/// is rejected as exactly that, and the store is unchanged.
pub proof fn lemma_wrong_secret_rejected(
    pre: StoreV,
    sender: Seq<char>,
    box_id: u64,
    hashed: Seq<char>,
    post: StoreV,
    out: Result<TransferV, ContractErrorV>,
)
    requires
        open_box_transition(pre, sender, box_id, hashed, post, out),
        1 <= box_id <= pre.boxes.len(),
        (pre.config is Some),
        pre.boxes[box_id - 1].hashed_password != hashed,
    ensures
        out == Err::<TransferV, ContractErrorV>(ContractErrorV::IncorrectPassword),
        post == pre,
{
}

/// Law: a successful open sets the opener to the caller, changes nothing
/// else anywhere in the store, and emits a transfer of exactly the box's
/// funds in the configured denomination to the caller.
pub proof fn lemma_open_box_success(
    pre: StoreV,
    sender: Seq<char>,
    box_id: u64,
    hashed: Seq<char>,
    post: StoreV,
    out: Result<TransferV, ContractErrorV>,
)
    requires
        open_box_transition(pre, sender, box_id, hashed, post, out),
        (out is Ok),
    ensures
        1 <= box_id <= pre.boxes.len(),
        (pre.config is Some),
        pre.boxes[box_id - 1].hashed_password == hashed,
        post.boxes.len() == pre.boxes.len(),
        post.boxes[box_id - 1].opener == (OpenerV::Opened { by: sender }),
        post.boxes[box_id - 1].creator == pre.boxes[box_id - 1].creator,
        post.boxes[box_id - 1].funds == pre.boxes[box_id - 1].funds,
        post.boxes[box_id - 1].hashed_password == pre.boxes[box_id - 1].hashed_password,
        forall|j: int| 0 <= j < post.boxes.len() && j != box_id - 1 ==> post.boxes[j] == pre.boxes[j],
        post.counter == pre.counter,
        post.config == pre.config,
        out->Ok_0 == (TransferV {
            to_address: sender,
            amount: pre.boxes[box_id - 1].funds,
            denom: pre.config->Some_0.denom,
        }),
{
}

/// Law: the recorded opener is never consulted — a box whose secret matches
/// opens whatever its opener already is, so an already-opened box pays out
/// again. This repeat-payout policy is deliberate and pinned here.
pub proof fn lemma_reopen_allowed(
    pre: StoreV,
    sender: Seq<char>,
    box_id: u64,
    hashed: Seq<char>,
    post: StoreV,
    out: Result<TransferV, ContractErrorV>,
)
    requires
        open_box_transition(pre, sender, box_id, hashed, post, out),
        1 <= box_id <= pre.boxes.len(),
        (pre.config is Some),
        pre.boxes[box_id - 1].hashed_password == hashed,
    ensures
        (out is Ok),
        out->Ok_0.amount == pre.boxes[box_id - 1].funds,
        post.boxes[box_id - 1].opener == (OpenerV::Opened { by: sender }),
{
}

} // verus!

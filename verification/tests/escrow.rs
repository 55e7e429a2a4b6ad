use junobox::contract::{box_count, create_boxes, execute, get_box, instantiate, open_box, query};
use junobox::crypto::to_lower_hex;
use junobox::error::{ContractError, PaymentError};
use junobox::msg::{
    BoxMsg, Coin, ExecuteMsg, ExecuteResponse, InstantiateMsg, MessageInfo, QueryMsg, QueryResponse,
};
use junobox::payment::must_pay;
use junobox::state::{Opener, Store};

use sha2::{Digest, Sha256};

fn sha256_hex(secret: &str) -> String {
    let mut hasher = Sha256::new();
    hasher.update(secret.as_bytes());
    let digest = hasher.finalize();
    let mut out = String::new();
    for b in digest.as_slice() {
        out.push_str(&format!("{:02x}", b));
    }
    out
}

fn info(sender: &str, funds: Vec<Coin>) -> MessageInfo {
    MessageInfo { sender: sender.to_string(), funds }
}

fn pay(denom: &str, amount: u128) -> Vec<Coin> {
    vec![Coin { denom: denom.to_string(), amount }]
}

fn initialized(denom: &str) -> Store {
    let mut store = Store::new();
    instantiate(&mut store, info("owner", vec![]), InstantiateMsg { denom: denom.to_string() })
        .unwrap();
    store
}

#[test]
fn instantiate_acknowledges_owner_and_zero_count() {
    let mut store = Store::new();
    let resp = instantiate(
        &mut store,
        info("deployer", vec![]),
        InstantiateMsg { denom: "ujuno".to_string() },
    )
    .unwrap();
    assert_eq!(resp.owner, "deployer");
    assert_eq!(box_count(&store).unwrap().count, 0);
}

#[test]
fn operations_before_initialization_fail() {
    let mut store = Store::new();
    let err = create_boxes(
        &mut store,
        info("alice", pay("ujuno", 10)),
        vec![BoxMsg { funds: 10, hashed_password: sha256_hex("s") }],
    )
    .unwrap_err();
    assert_eq!(err, ContractError::NotInitialized);
    assert_eq!(box_count(&store).unwrap_err(), ContractError::NotInitialized);
}

#[test]
fn full_flow_create_open_wrong_secret() {
    let mut store = initialized("ujuno");
    let resp = create_boxes(
        &mut store,
        info("alice", pay("ujuno", 1000)),
        vec![BoxMsg { funds: 1000, hashed_password: sha256_hex("secret") }],
    )
    .unwrap();
    assert_eq!(resp.box_ids, vec![1]);

    let opened = open_box(&mut store, info("bob", vec![]), 1, "secret".to_string()).unwrap();
    assert_eq!(opened.transfer.to_address, "bob");
    assert_eq!(opened.transfer.amount, 1000);
    assert_eq!(opened.transfer.denom, "ujuno");
    let record = get_box(&store, 1).unwrap().funds_box;
    assert_eq!(record.opener, Opener::Opened { by: "bob".to_string() });
    assert_eq!(record.funds, 1000);

    let err = open_box(&mut store, info("eve", vec![]), 1, "wrong".to_string()).unwrap_err();
    assert_eq!(err, ContractError::IncorrectPassword);
    let record = get_box(&store, 1).unwrap().funds_box;
    assert_eq!(record.opener, Opener::Opened { by: "bob".to_string() });
}

#[test]
fn known_digest_opens_box() {
    // SHA-256 of the ASCII bytes of "secret", lowercase hexadecimal.
    let digest = "2bb80d537b1da3e38bd30361aa855686bde0eacd7162fef6a25fe97bf527a25b";
    assert_eq!(sha256_hex("secret"), digest);
    let mut store = initialized("ujuno");
    create_boxes(
        &mut store,
        info("alice", pay("ujuno", 5)),
        vec![BoxMsg { funds: 5, hashed_password: digest.to_string() }],
    )
    .unwrap();
    let opened = open_box(&mut store, info("bob", vec![]), 1, "secret".to_string()).unwrap();
    assert_eq!(opened.transfer.amount, 5);
}

#[test]
fn insufficient_payment_reports_exact_amounts_and_creates_nothing() {
    let mut store = initialized("ujuno");
    let err = create_boxes(
        &mut store,
        info("alice", pay("ujuno", 250)),
        vec![
            BoxMsg { funds: 100, hashed_password: sha256_hex("a") },
            BoxMsg { funds: 200, hashed_password: sha256_hex("b") },
        ],
    )
    .unwrap_err();
    assert_eq!(err, ContractError::InsufficientFunds { got: 250, needed: 300 });
    assert_eq!(box_count(&store).unwrap().count, 0);
    assert_eq!(get_box(&store, 1).unwrap_err(), ContractError::BoxNotFound);
}

#[test]
fn exact_payment_is_enough_and_excess_is_accepted() {
    let mut store = initialized("ujuno");
    let resp = create_boxes(
        &mut store,
        info("alice", pay("ujuno", 300)),
        vec![
            BoxMsg { funds: 100, hashed_password: sha256_hex("a") },
            BoxMsg { funds: 200, hashed_password: sha256_hex("b") },
        ],
    )
    .unwrap();
    assert_eq!(resp.box_ids, vec![1, 2]);

    let resp = create_boxes(
        &mut store,
        info("alice", pay("ujuno", 500)),
        vec![BoxMsg { funds: 30, hashed_password: sha256_hex("c") }],
    )
    .unwrap();
    assert_eq!(resp.box_ids, vec![3]);
}

#[test]
fn box_ids_increase_without_gaps_across_requests() {
    let mut store = initialized("ujuno");
    let first = create_boxes(
        &mut store,
        info("alice", pay("ujuno", 6)),
        vec![
            BoxMsg { funds: 1, hashed_password: sha256_hex("a") },
            BoxMsg { funds: 2, hashed_password: sha256_hex("b") },
            BoxMsg { funds: 3, hashed_password: sha256_hex("c") },
        ],
    )
    .unwrap();
    assert_eq!(first.box_ids, vec![1, 2, 3]);
    let second = create_boxes(
        &mut store,
        info("bob", pay("ujuno", 9)),
        vec![
            BoxMsg { funds: 4, hashed_password: sha256_hex("d") },
            BoxMsg { funds: 5, hashed_password: sha256_hex("e") },
        ],
    )
    .unwrap();
    assert_eq!(second.box_ids, vec![4, 5]);
    assert_eq!(box_count(&store).unwrap().count, 5);
}

#[test]
fn reopening_with_correct_secret_repeats_the_payout() {
    let mut store = initialized("ujuno");
    create_boxes(
        &mut store,
        info("alice", pay("ujuno", 700)),
        vec![BoxMsg { funds: 700, hashed_password: sha256_hex("shared") }],
    )
    .unwrap();
    let first = open_box(&mut store, info("bob", vec![]), 1, "shared".to_string()).unwrap();
    assert_eq!(first.transfer.amount, 700);
    assert_eq!(first.transfer.to_address, "bob");
    // The recorded opener is never consulted: the same secret pays out again,
    // and the opener is overwritten by the later caller.
    let second = open_box(&mut store, info("carol", vec![]), 1, "shared".to_string()).unwrap();
    assert_eq!(second.transfer.amount, 700);
    assert_eq!(second.transfer.to_address, "carol");
    let record = get_box(&store, 1).unwrap().funds_box;
    assert_eq!(record.opener, Opener::Opened { by: "carol".to_string() });
    assert_eq!(record.funds, 700);
}

#[test]
fn open_unknown_box_fails() {
    let mut store = initialized("ujuno");
    let err = open_box(&mut store, info("bob", vec![]), 7, "secret".to_string()).unwrap_err();
    assert_eq!(err, ContractError::BoxNotFound);
}

#[test]
fn query_returns_stored_record_verbatim() {
    let mut store = initialized("ujuno");
    let digest = sha256_hex("pw");
    create_boxes(
        &mut store,
        info("alice", pay("ujuno", 42)),
        vec![BoxMsg { funds: 42, hashed_password: digest.clone() }],
    )
    .unwrap();
    let record = get_box(&store, 1).unwrap().funds_box;
    assert_eq!(record.creator, "alice");
    assert_eq!(record.funds, 42);
    assert_eq!(record.hashed_password, digest);
    assert_eq!(record.opener, Opener::Unopened);
    assert_eq!(get_box(&store, 2).unwrap_err(), ContractError::BoxNotFound);
    assert_eq!(get_box(&store, 0).unwrap_err(), ContractError::BoxNotFound);
}

#[test]
fn payment_shape_errors() {
    let mut store = initialized("ujuno");
    let boxes = || vec![BoxMsg { funds: 10, hashed_password: sha256_hex("x") }];

    let err = create_boxes(&mut store, info("alice", vec![]), boxes()).unwrap_err();
    assert_eq!(err, ContractError::Payment(PaymentError::NoFunds));

    let err = create_boxes(&mut store, info("alice", pay("ujuno", 0)), boxes()).unwrap_err();
    assert_eq!(err, ContractError::Payment(PaymentError::NoFunds));

    let err = create_boxes(&mut store, info("alice", pay("uatom", 10)), boxes()).unwrap_err();
    assert_eq!(err, ContractError::Payment(PaymentError::MissingDenom("ujuno".to_string())));

    let two = vec![
        Coin { denom: "ujuno".to_string(), amount: 5 },
        Coin { denom: "uatom".to_string(), amount: 5 },
    ];
    let err = create_boxes(&mut store, info("alice", two), boxes()).unwrap_err();
    assert_eq!(err, ContractError::Payment(PaymentError::MultipleDenoms));

    assert_eq!(box_count(&store).unwrap().count, 0);
}

#[test]
fn must_pay_accepts_a_single_matching_coin() {
    let denom = "ujuno".to_string();
    let amount = must_pay(&info("alice", pay("ujuno", 17)), &denom).unwrap();
    assert_eq!(amount, 17);
    let err = must_pay(&info("alice", vec![]), &denom).unwrap_err();
    assert_eq!(err, PaymentError::NoFunds);
}

#[test]
fn execute_dispatches_both_operations() {
    let mut store = initialized("ujuno");
    let created = execute(
        &mut store,
        info("alice", pay("ujuno", 9)),
        ExecuteMsg::CreateBoxes { boxes: vec![BoxMsg { funds: 9, hashed_password: sha256_hex("s") }] },
    )
    .unwrap();
    match created {
        ExecuteResponse::CreateBoxes(resp) => assert_eq!(resp.box_ids, vec![1]),
        other => panic!("unexpected response: {:?}", other),
    }
    let opened = execute(
        &mut store,
        info("bob", vec![]),
        ExecuteMsg::OpenBox { box_id: 1, password: "s".to_string() },
    )
    .unwrap();
    match opened {
        ExecuteResponse::OpenBox(resp) => {
            assert_eq!(resp.transfer.amount, 9);
            assert_eq!(resp.transfer.to_address, "bob");
        }
        other => panic!("unexpected response: {:?}", other),
    }
}

#[test]
fn query_dispatches_both_requests() {
    let mut store = initialized("ujuno");
    create_boxes(
        &mut store,
        info("alice", pay("ujuno", 8)),
        vec![BoxMsg { funds: 8, hashed_password: sha256_hex("q") }],
    )
    .unwrap();
    match query(&store, QueryMsg::BoxCount {}).unwrap() {
        QueryResponse::BoxCount(resp) => assert_eq!(resp.count, 1),
        other => panic!("unexpected response: {:?}", other),
    }
    match query(&store, QueryMsg::Box { box_id: 1 }).unwrap() {
        QueryResponse::Box(resp) => assert_eq!(resp.funds_box.funds, 8),
        other => panic!("unexpected response: {:?}", other),
    }
    let err = query(&store, QueryMsg::Box { box_id: 3 }).unwrap_err();
    assert_eq!(err, ContractError::BoxNotFound);
}

#[test]
fn lower_hex_renders_two_digits_per_byte() {
    assert_eq!(to_lower_hex(&[]), "");
    assert_eq!(to_lower_hex(&[0x00, 0x2b, 0xff]), "002bff");
    assert_eq!(to_lower_hex(&[0x0a, 0xb0]), "0ab0");
}

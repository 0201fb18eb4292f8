use light_sync::ancestor::{
    AncestorSearch, BadResponse, HashOrNumber, HeadersRequest, ProbedHeader,
};
use light_sync::chain::{max_chain, ChainInfo};
use light_sync::primitives::{H256, ReqId, U256};
use std::cmp::Ordering;

fn hash(low: u128) -> H256 {
    H256 { high: 0, low }
}

fn probe(number: u64, known: bool) -> ProbedHeader {
    ProbedHeader { number, hash: hash(number as u128), known }
}

fn request(start: u64, max: u64) -> HeadersRequest {
    HeadersRequest { start: HashOrNumber::Number(start), max, skip: 0, reverse: true }
}

fn awaiting(id: usize, start: u64, max: u64) -> AncestorSearch {
    AncestorSearch::Awaiting(ReqId(id), start, request(start, max))
}

fn chain(high: u128, low: u128, num: u64) -> ChainInfo {
    ChainInfo { head_td: U256 { high, low }, head_hash: hash(num as u128), head_num: num }
}

#[test]
fn search_begins_at_best_block() {
    assert_eq!(AncestorSearch::begin(0), AncestorSearch::Genesis);
    assert_eq!(AncestorSearch::begin(1), AncestorSearch::Queued(1));
    assert_eq!(AncestorSearch::begin(u64::MAX), AncestorSearch::Queued(u64::MAX));
}

#[test]
fn request_is_a_reverse_batch() {
    assert_eq!(AncestorSearch::Queued(1000).wanted_request(), Some(request(1000, 64)));
    assert_eq!(AncestorSearch::Queued(64).wanted_request(), Some(request(64, 64)));
    assert_eq!(AncestorSearch::Queued(63).wanted_request(), Some(request(63, 63)));
    assert_eq!(AncestorSearch::Queued(1).wanted_request(), Some(request(1, 1)));
    assert_eq!(AncestorSearch::Genesis.wanted_request(), None);
    assert_eq!(AncestorSearch::Prehistoric.wanted_request(), None);
    assert_eq!(awaiting(1, 10, 10).wanted_request(), None);
}

#[test]
fn sent_request_is_awaited() {
    let search = AncestorSearch::Queued(100).dispatch_request(Some(ReqId(7)));
    assert_eq!(search, awaiting(7, 100, 64));
    assert_eq!(search.awaited_request(&ReqId(7)), Some(request(100, 64)));
    assert_eq!(search.awaited_request(&ReqId(8)), None);
}

#[test]
fn unsent_request_stays_queued() {
    assert_eq!(
        AncestorSearch::Queued(100).dispatch_request(None),
        AncestorSearch::Queued(100)
    );
    assert_eq!(
        AncestorSearch::Genesis.dispatch_request(Some(ReqId(1))),
        AncestorSearch::Genesis
    );
}

#[test]
fn first_known_header_is_common() {
    let headers = vec![probe(100, false), probe(99, true), probe(98, true)];
    assert_eq!(
        awaiting(7, 100, 64).process_response(&ReqId(7), Ok(headers), None),
        (AncestorSearch::FoundCommon(99, hash(99)), false)
    );
}

#[test]
fn header_before_first_block_is_prehistoric() {
    let headers = vec![probe(100, false), probe(99, false), probe(98, true)];
    assert_eq!(
        awaiting(7, 100, 64).process_response(&ReqId(7), Ok(headers), Some(100)),
        (AncestorSearch::Prehistoric, false)
    );
}

#[test]
fn known_header_counts_even_before_first_block() {
    let headers = vec![probe(50, true)];
    assert_eq!(
        awaiting(7, 100, 64).process_response(&ReqId(7), Ok(headers), Some(100)),
        (AncestorSearch::FoundCommon(50, hash(50)), false)
    );
}

#[test]
fn first_block_itself_is_not_prehistoric() {
    let headers = vec![probe(100, false)];
    assert_eq!(
        awaiting(7, 100, 64).process_response(&ReqId(7), Ok(headers), Some(100)),
        (AncestorSearch::Queued(99), false)
    );
}

#[test]
fn settled_search_does_not_count_headers() {
    let headers = vec![probe(2, false), probe(1, true), probe(0, false)];
    assert_eq!(
        awaiting(7, 2, 2).process_response(&ReqId(7), Ok(headers), None),
        (AncestorSearch::FoundCommon(1, hash(1)), false)
    );
    let headers = vec![probe(2, false), probe(1, false), probe(0, false)];
    assert_eq!(
        awaiting(7, 2, 2).process_response(&ReqId(7), Ok(headers), Some(2)),
        (AncestorSearch::Prehistoric, false)
    );
}

#[test]
fn headers_after_the_deciding_one_make_no_difference() {
    let headers = vec![probe(100, false), probe(99, true), probe(98, false)];
    let seen = headers[..2].to_vec();
    assert_eq!(
        awaiting(7, 100, 64).process_response(&ReqId(7), Ok(headers), None),
        awaiting(7, 100, 64).process_response(&ReqId(7), Ok(seen), None)
    );
}

#[test]
fn header_ends_the_search_if_known_or_prehistoric() {
    assert!(probe(5, true).ends_search(0));
    assert!(probe(5, false).ends_search(6));
    assert!(!probe(5, false).ends_search(5));
    assert!(!probe(0, false).ends_search(0));
}

#[test]
fn unknown_headers_move_the_search_down() {
    let headers = vec![probe(100, false), probe(99, false), probe(98, false)];
    assert_eq!(
        awaiting(7, 100, 64).process_response(&ReqId(7), Ok(headers), None),
        (AncestorSearch::Queued(97), false)
    );
}

#[test]
fn search_ends_at_genesis() {
    let headers = vec![probe(2, false), probe(1, false)];
    assert_eq!(
        awaiting(7, 2, 2).process_response(&ReqId(7), Ok(headers), None),
        (AncestorSearch::Genesis, false)
    );
}

#[test]
fn empty_answer_keeps_the_place() {
    assert_eq!(
        awaiting(7, 2, 2).process_response(&ReqId(7), Ok(vec![]), None),
        (AncestorSearch::Queued(2), false)
    );
}

#[test]
fn bad_response_is_punished_and_asked_again() {
    let (search, punish) =
        awaiting(7, 100, 64).process_response(&ReqId(7), Err(BadResponse), None);
    assert!(punish);
    assert_eq!(search, AncestorSearch::Queued(100));
    assert_eq!(search.wanted_request(), Some(request(100, 64)));
}

#[test]
fn stray_response_changes_nothing() {
    let search = awaiting(7, 100, 64);
    assert_eq!(
        search.process_response(&ReqId(8), Err(BadResponse), None),
        (search, false)
    );
    assert_eq!(
        search.process_response(&ReqId(8), Ok(vec![probe(1, true)]), None),
        (search, false)
    );
    assert_eq!(
        AncestorSearch::Queued(5).process_response(&ReqId(7), Ok(vec![probe(1, true)]), None),
        (AncestorSearch::Queued(5), false)
    );
}

#[test]
fn abandoned_request_is_queued_again() {
    let search = awaiting(7, 100, 64);
    assert_eq!(
        search.requests_abandoned(&[ReqId(3), ReqId(7)]),
        AncestorSearch::Queued(100)
    );
    assert_eq!(search.requests_abandoned(&[ReqId(3), ReqId(8)]), search);
    assert_eq!(search.requests_abandoned(&[]), search);
    assert_eq!(
        AncestorSearch::Prehistoric.requests_abandoned(&[ReqId(7)]),
        AncestorSearch::Prehistoric
    );
}

#[test]
fn search_descends_to_genesis_in_batches() {
    let mut search = AncestorSearch::begin(150);
    let mut asked = vec![];
    let mut id = 0;
    while let Some(req) = search.wanted_request() {
        search = search.dispatch_request(Some(ReqId(id)));
        let start = match req.start {
            HashOrNumber::Number(number) => number,
            HashOrNumber::Hash(_) => panic!("the search asks by number"),
        };
        asked.push((start, req.max));
        let headers = (0..req.max).map(|i| probe(start - i, false)).collect();
        search = search.process_response(&ReqId(id), Ok(headers), None).0;
        id += 1;
    }
    assert_eq!(asked, vec![(150, 64), (86, 64), (22, 22)]);
    assert_eq!(search, AncestorSearch::Genesis);
}

#[test]
fn integers_compare_by_value() {
    let small = U256 { high: 0, low: u128::MAX };
    let large = U256 { high: 1, low: 0 };
    assert!(small < large);
    assert!(large > small);
    assert_eq!(small.cmp(&large), Ordering::Less);
    assert_eq!(large.cmp(&small), Ordering::Greater);
    assert_eq!(large.cmp(&large), Ordering::Equal);
    assert_eq!(U256 { high: 1, low: 1 }.cmp(&large), Ordering::Greater);
    assert_ne!(small, large);
}

#[test]
fn chains_compare_by_difficulty_alone() {
    let a = chain(0, 5, 1);
    let b = chain(0, 5, 2);
    assert_ne!(a, b);
    assert_eq!(a.partial_cmp(&b), Some(Ordering::Equal));
    assert_eq!(a.cmp(&chain(0, 6, 1)), Ordering::Less);
    assert!(chain(1, 0, 0) > chain(0, u128::MAX, 9));
}

#[test]
fn heavier_chain_wins_and_later_breaks_ties() {
    let a = chain(0, 5, 1);
    let b = chain(0, 5, 2);
    let c = chain(0, 4, 3);
    assert_eq!(max_chain(Some(a), Some(b)), Some(b));
    assert_eq!(max_chain(Some(b), Some(a)), Some(a));
    assert_eq!(max_chain(Some(a), Some(c)), Some(a));
    assert_eq!(max_chain(Some(c), Some(a)), Some(a));
    assert_eq!(max_chain(None, Some(a)), Some(a));
    assert_eq!(max_chain(Some(a), None), Some(a));
    assert_eq!(max_chain(None, None), None);
}

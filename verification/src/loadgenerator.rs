//! The load generator: it calls a page of the frontend, chosen at random,
//! then pauses, over and over.

use vstd::prelude::*;
use crate::random::{gen_range_u64, thread_rng};

verus! {

/// The pause between two calls, in milliseconds.
pub const PAUSE_MS: u64 = 500;

/// The addresses that the load generator calls.
pub open spec fn target_url_texts() -> Seq<Seq<char>> {
    seq![
        "http://frontend-proxy:8080/"@,
        "http://frontend-proxy:8080/speakers/"@,
        "http://frontend-proxy:8080/schedule/"@,
        "http://frontend-proxy:8080/sessions/"@,
    ]
}

/// The addresses that the load generator calls.
pub fn target_urls() -> (res: Vec<&'static str>)
    ensures
        res@.map_values(|u: &'static str| u@) == target_url_texts(),
{
    let urls = vec![
        "http://frontend-proxy:8080/",
        "http://frontend-proxy:8080/speakers/",
        "http://frontend-proxy:8080/schedule/",
        "http://frontend-proxy:8080/sessions/",
    ];
    assert(urls@.map_values(|u: &'static str| u@) =~= target_url_texts());
    urls
}

/// Picks the address of the next call from `targets`, at random.
pub fn choose_target(targets: &Vec<&'static str>) -> (res: &'static str)
    requires
        targets.len() > 0,
    ensures
        targets@.contains(res),
{
    let mut rng = thread_rng();
    let idx = gen_range_u64(&mut rng, 0, targets.len() as u64) as usize;
    assert(targets@[idx as int] == targets[idx as int]);
    targets[idx]
}

} // verus!

//! Assembling the headers for one attempt.
//!
//! The order is the whole point: the caller's defaults go on first, then the
//! per-request headers, then the SDK's own. Because the SDK writes last, a
//! caller cannot replace `Authorization` with their own value, attach a
//! `Content-Type` to a request that has no body, or forge the retry count,
//! whatever casing they try, since the map compares case-insensitively.

use vstd::prelude::*;

use crate::config::Config;
use crate::headers::laws::{law_read_after_apply, lemma_applied_well_keyed, lemma_key_at_unique};
use crate::headers::map::{distinct_keys, has_key, key_at};
use crate::headers::{applied, lookup, well_keyed, wire, Entry, Headers, Value};
use crate::log::Logger;
use crate::text::{
    append_str, ascii_lower, decimal, decimal_chars, is_ascii_seq, lit, lowercase, string_of,
};

verus! {

/// The SDK version, sent as `User-Agent` and `X-TypeSafe-SDK`.
pub const VERSION: &'static str = "0.1.0";

/// How the SDK identifies itself.
pub open spec fn agent_of() -> Seq<char> {
    "typesafe-sdk/"@ + VERSION@
}

/// Identifies the SDK in `User-Agent` and `X-TypeSafe-SDK`.
pub fn agent() -> (r: String)
    ensures
        r@ == agent_of(),
{
    let mut v = lit("typesafe-sdk/");
    append_str(&mut v, VERSION);
    string_of(&v)
}

/// `pairs` applied over `es`, first to last, each setting its header.
pub open spec fn merged(es: Seq<Entry>, pairs: Seq<(Seq<char>, Seq<char>)>) -> Seq<Entry>
    decreases pairs.len(),
{
    if pairs.len() == 0 {
        es
    } else {
        applied(merged(es, pairs.drop_last()), pairs.last().0, Some(pairs.last().1))
    }
}

/// The headers the SDK owns, applied in order over `es`.
pub open spec fn sdk_applied(
    es: Seq<Entry>,
    auth: Seq<char>,
    runtime: Seq<char>,
    has_body: bool,
    attempt: u32,
) -> Seq<Entry> {
    let e1 = applied(es, "Authorization"@, Some(auth));
    let e2 = applied(e1, "Accept"@, Some("application/json"@));
    let e3 = applied(e2, "User-Agent"@, Some(agent_of()));
    let e4 = applied(e3, "X-TypeSafe-SDK"@, Some(agent_of()));
    let e5 = applied(e4, "X-TypeSafe-Runtime"@, Some(runtime));
    let e6 = applied(e5, "Content-Type"@, if has_body { Some("application/json"@) } else { None });
    applied(e6, "X-TypeSafe-Retry-Count"@, if attempt == 0 { None } else { Some(decimal(attempt as nat)) })
}

/// Under distinct keys, the last entry decides a lookup of its own key and
/// leaves every other key to the entries before it.
proof fn lemma_lookup_last(hs: Seq<Entry>, k: Seq<char>)
    requires
        distinct_keys(hs),
        hs.len() > 0,
    ensures
        lookup(hs, k) == if hs.last().0 == k { Some(hs.last().2) } else { lookup(hs.drop_last(), k) },
{
    let n = hs.len() - 1;
    let init = hs.drop_last();
    if hs.last().0 == k {
        lemma_key_at_unique(hs, k, n);
    } else if has_key(hs, k) {
        let j = key_at(hs, k);
        assert(0 <= j < hs.len() && hs[j].0 == k);
        assert(j != n);
        assert(init[j] == hs[j]);
        assert(distinct_keys(init)) by {
            assert forall|a: int, b: int| 0 <= a < b < init.len() implies (#[trigger] init[a]).0 != (#[trigger] init[b]).0 by {
                assert(init[a] == hs[a] && init[b] == hs[b]);
            }
        }
        lemma_key_at_unique(init, k, j);
    } else {
        assert(!has_key(init, k)) by {
            if has_key(init, k) {
                let j = key_at(init, k);
                assert(hs[j] == init[j]);
            }
        }
    }
}

/// Applying sources keeps every entry found by the lowercase of its name.
proof fn lemma_merged_well_keyed(es: Seq<Entry>, pairs: Seq<(Seq<char>, Seq<char>)>)
    requires
        well_keyed(es),
    ensures
        well_keyed(merged(es, pairs)),
    decreases pairs.len(),
{
    if pairs.len() > 0 {
        lemma_merged_well_keyed(es, pairs.drop_last());
        lemma_applied_well_keyed(merged(es, pairs.drop_last()), pairs.last().0, Some(pairs.last().1));
    }
}

/// Per-call headers over the client's defaults: a name the per-call headers
/// hold reads as they hold it, whatever the defaults held under any casing;
/// every other name reads as the defaults hold it.
pub proof fn law_per_call_headers_win(defaults: Seq<Entry>, per_call: Seq<Entry>, k: Seq<char>)
    requires
        well_keyed(defaults),
        well_keyed(per_call),
    ensures
        lookup(per_call, k) is Some ==> lookup(merged(defaults, wire(per_call)), k) == lookup(per_call, k),
        lookup(per_call, k) is None ==> lookup(merged(defaults, wire(per_call)), k) == lookup(defaults, k),
    decreases per_call.len(),
{
    if per_call.len() == 0 {
        assert(wire(per_call) =~= Seq::<(Seq<char>, Seq<char>)>::empty());
        assert(!has_key(per_call, k));
    } else {
        let init = per_call.drop_last();
        let last = per_call.last();
        assert(well_keyed(init)) by {
            assert forall|a: int, b: int| 0 <= a < b < init.len() implies (#[trigger] init[a]).0 != (#[trigger] init[b]).0 by {
                assert(init[a] == per_call[a] && init[b] == per_call[b]);
            }
            assert forall|i: int| 0 <= i < init.len() implies (#[trigger] init[i]).0 == lowercase(init[i].1) by {
                assert(init[i] == per_call[i]);
            }
        }
        law_per_call_headers_win(defaults, init, k);
        assert(wire(per_call).drop_last() =~= wire(init));
        assert(wire(per_call).last() == (last.1, last.2));
        assert(last.0 == lowercase(last.1));
        lemma_merged_well_keyed(defaults, wire(init));
        law_read_after_apply(merged(defaults, wire(init)), last.1, Some(last.2), k);
        lemma_lookup_last(per_call, k);
    }
}

/// Whether `key` is one of the headers the SDK owns, by its lowercase name.
pub open spec fn sdk_key(key: Seq<char>) -> bool {
    ||| key == "authorization"@
    ||| key == "accept"@
    ||| key == "user-agent"@
    ||| key == "x-typesafe-sdk"@
    ||| key == "x-typesafe-runtime"@
    ||| key == "content-type"@
    ||| key == "x-typesafe-retry-count"@
}

/// Builds the headers for one attempt of one request.
///
/// `attempt` is zero-based; the retry count header is absent on the first.
/// `runtime` describes the runtime the SDK runs on. Whatever the caller's
/// headers held, the SDK's own are what is read back.
pub fn assemble<L: Logger + ?Sized>(
    config: &Config<L>,
    per_request: &Headers,
    has_body: bool,
    attempt: u32,
    runtime: &str,
) -> (r: Headers)
    ensures
        r@ == sdk_applied(
            merged(config.default_headers@, wire(per_request@)),
            "Bearer "@ + config.key(),
            runtime@,
            has_body,
            attempt,
        ),
        lookup(r@, "authorization"@) == Some("Bearer "@ + config.key()),
        lookup(r@, "accept"@) == Some("application/json"@),
        lookup(r@, "user-agent"@) == Some(agent_of()),
        lookup(r@, "x-typesafe-sdk"@) == Some(agent_of()),
        lookup(r@, "x-typesafe-runtime"@) == Some(runtime@),
        lookup(r@, "content-type"@) == if has_body { Some("application/json"@) } else { None },
        lookup(r@, "x-typesafe-retry-count"@) == if attempt == 0 { None } else { Some(decimal(attempt as nat)) },
        forall|k: Seq<char>| !sdk_key(k) ==> #[trigger] lookup(r@, k) == lookup(
            merged(config.default_headers@, wire(per_request@)),
            k,
        ),
        forall|k: Seq<char>| !sdk_key(k) && lookup(per_request@, k) is Some
            ==> #[trigger] lookup(r@, k) == lookup(per_request@, k),
        forall|k: Seq<char>| !sdk_key(k) && lookup(per_request@, k) is None
            ==> #[trigger] lookup(r@, k) == lookup(config.default_headers@, k),
{
    let mut headers = config.default_headers.duplicate();
    let pairs = per_request.iter();
    let ghost base = config.default_headers@;
    let ghost wires = wire(per_request@);
    let mut i: usize = 0;
    while i < pairs.len()
        invariant
            i <= pairs.len(),
            pairs@.map_values(|p: (String, String)| (p.0@, p.1@)) == wires,
            headers@ == merged(base, wires.take(i as int)),
            well_keyed(headers@),
        decreases pairs.len() - i,
    {
        let name = pairs[i].0.as_str();
        let value = pairs[i].1.clone();
        headers.apply(name, Value::SetTo(value));
        proof {
            assert(wires.take(i + 1).drop_last() =~= wires.take(i as int));
            assert(wires.take(i + 1).last() == wires[i as int]);
        }
        i = i + 1;
    }
    proof {
        assert(wires.take(pairs.len() as int) =~= wires);
    }
    apply_sdk_headers(&mut headers, config, has_body, attempt, runtime);
    proof {
        assert forall|k: Seq<char>| !sdk_key(k) implies #[trigger] lookup(headers@, k) == if lookup(
            per_request@,
            k,
        ) is Some {
            lookup(per_request@, k)
        } else {
            lookup(config.default_headers@, k)
        } by {
            law_per_call_headers_win(config.default_headers@, per_request@, k);
        }
    }
    headers
}

/// The headers the SDK owns, applied last so they always win.
fn apply_sdk_headers<L: Logger + ?Sized>(
    headers: &mut Headers,
    config: &Config<L>,
    has_body: bool,
    attempt: u32,
    runtime: &str,
)
    ensures
        final(headers)@ == sdk_applied(old(headers)@, "Bearer "@ + config.key(), runtime@, has_body, attempt),
        lookup(final(headers)@, "authorization"@) == Some("Bearer "@ + config.key()),
        lookup(final(headers)@, "accept"@) == Some("application/json"@),
        lookup(final(headers)@, "user-agent"@) == Some(agent_of()),
        lookup(final(headers)@, "x-typesafe-sdk"@) == Some(agent_of()),
        lookup(final(headers)@, "x-typesafe-runtime"@) == Some(runtime@),
        lookup(final(headers)@, "content-type"@) == if has_body { Some("application/json"@) } else { None },
        lookup(final(headers)@, "x-typesafe-retry-count"@) == if attempt == 0 {
            None
        } else {
            Some(decimal(attempt as nat))
        },
        forall|k: Seq<char>| !sdk_key(k) ==> #[trigger] lookup(final(headers)@, k) == lookup(old(headers)@, k),
{
    let ghost e0 = headers@;
    let auth = config.authorization();
    let ghost auth_v = auth@;
    headers.apply("Authorization", Value::SetTo(auth));
    let ghost e1 = headers@;
    headers.apply("Accept", Value::of("application/json"));
    let ghost e2 = headers@;
    headers.apply("User-Agent", Value::SetTo(agent()));
    let ghost e3 = headers@;
    headers.apply("X-TypeSafe-SDK", Value::SetTo(agent()));
    let ghost e4 = headers@;
    headers.apply("X-TypeSafe-Runtime", Value::of(runtime));
    let ghost e5 = headers@;
    let ghost ct = if has_body { Some("application/json"@) } else { None::<Seq<char>> };
    headers.apply("Content-Type", if has_body { Value::of("application/json") } else { Value::Remove });
    let ghost e6 = headers@;
    let ghost rc = if attempt == 0 { None::<Seq<char>> } else { Some(decimal(attempt as nat)) };
    headers.apply(
        "X-TypeSafe-Retry-Count",
        if attempt == 0 { Value::Remove } else { Value::SetTo(string_of(&decimal_chars(attempt as u64))) },
    );
    proof {
        reveal_strlit("Authorization");
        reveal_strlit("Accept");
        reveal_strlit("User-Agent");
        reveal_strlit("X-TypeSafe-SDK");
        reveal_strlit("X-TypeSafe-Runtime");
        reveal_strlit("Content-Type");
        reveal_strlit("X-TypeSafe-Retry-Count");
        reveal_strlit("authorization");
        reveal_strlit("accept");
        reveal_strlit("user-agent");
        reveal_strlit("x-typesafe-sdk");
        reveal_strlit("x-typesafe-runtime");
        reveal_strlit("content-type");
        reveal_strlit("x-typesafe-retry-count");
        let k1 = lowercase("Authorization"@);
        let k2 = lowercase("Accept"@);
        let k3 = lowercase("User-Agent"@);
        let k4 = lowercase("X-TypeSafe-SDK"@);
        let k5 = lowercase("X-TypeSafe-Runtime"@);
        let k6 = lowercase("Content-Type"@);
        let k7 = lowercase("X-TypeSafe-Retry-Count"@);
        assert(k1 =~= "authorization"@);
        assert(k2 =~= "accept"@);
        assert(k3 =~= "user-agent"@);
        assert(k4 =~= "x-typesafe-sdk"@);
        assert(k5 =~= "x-typesafe-runtime"@);
        assert(k6 =~= "content-type"@);
        assert(k7 =~= "x-typesafe-retry-count"@);
        let keys = seq![k1, k2, k3, k4, k5, k6, k7];
        let vals = seq![
            Some(auth_v),
            Some("application/json"@),
            Some(agent_of()),
            Some(agent_of()),
            Some(runtime@),
            ct,
            rc,
        ];
        let es = seq![e1, e2, e3, e4, e5, e6, headers@];
        let prevs = seq![e0, e1, e2, e3, e4, e5, e6];
        let names = seq![
            "Authorization"@,
            "Accept"@,
            "User-Agent"@,
            "X-TypeSafe-SDK"@,
            "X-TypeSafe-Runtime"@,
            "Content-Type"@,
            "X-TypeSafe-Retry-Count"@,
        ];
        assert forall|j: int, t: int| 0 <= j < t < 7 implies #[trigger] lookup(es[t], keys[j]) == lookup(
            es[t - 1],
            keys[j],
        ) by {
            assert(keys[j].len() != keys[t].len());
            assert(es[t] == applied(prevs[t], names[t], vals[t]));
            assert(lowercase(names[t]) == keys[t]);
            law_read_after_apply(prevs[t], names[t], vals[t], keys[j]);
        }
        assert forall|j: int| 0 <= j < 7 implies #[trigger] lookup(es[j], keys[j]) == vals[j] by {
            assert(es[j] == applied(prevs[j], names[j], vals[j]));
            law_read_after_apply(prevs[j], names[j], vals[j], keys[j]);
        }
        assert forall|j: int, t: int| 0 <= j <= t < 7 implies #[trigger] lookup(es[t], keys[j]) == vals[j] by {
            lemma_persist(es, keys, vals, j, t);
        }
        assert(lookup(es[6], keys[0]) == vals[0]);
        assert(lookup(es[6], keys[1]) == vals[1]);
        assert(lookup(es[6], keys[2]) == vals[2]);
        assert(lookup(es[6], keys[3]) == vals[3]);
        assert(lookup(es[6], keys[4]) == vals[4]);
        assert(lookup(es[6], keys[5]) == vals[5]);
        assert(lookup(es[6], keys[6]) == vals[6]);
        assert forall|k: Seq<char>| !sdk_key(k) implies #[trigger] lookup(es[6], k) == lookup(e0, k) by {
            assert forall|t: int| 0 <= t < 7 implies #[trigger] lookup(es[t], k) == lookup(prevs[t], k) by {
                assert(es[t] == applied(prevs[t], names[t], vals[t]));
                assert(lowercase(names[t]) == keys[t]);
                law_read_after_apply(prevs[t], names[t], vals[t], k);
            }
            assert(lookup(es[0], k) == lookup(prevs[0], k));
            assert(lookup(es[1], k) == lookup(prevs[1], k));
            assert(lookup(es[2], k) == lookup(prevs[2], k));
            assert(lookup(es[3], k) == lookup(prevs[3], k));
            assert(lookup(es[4], k) == lookup(prevs[4], k));
            assert(lookup(es[5], k) == lookup(prevs[5], k));
            assert(lookup(es[6], k) == lookup(prevs[6], k));
        }
    }
}

proof fn lemma_persist(
    es: Seq<Seq<Entry>>,
    keys: Seq<Seq<char>>,
    vals: Seq<Option<Seq<char>>>,
    j: int,
    t: int,
)
    requires
        es.len() == 7,
        0 <= j <= t < 7,
        forall|a: int, b: int| 0 <= a < b < 7 ==> #[trigger] lookup(es[b], keys[a]) == lookup(es[b - 1], keys[a]),
        forall|a: int| 0 <= a < 7 ==> #[trigger] lookup(es[a], keys[a]) == vals[a],
    ensures
        lookup(es[t], keys[j]) == vals[j],
    decreases t - j,
{
    if t > j {
        lemma_persist(es, keys, vals, j, t - 1);
        assert(lookup(es[t], keys[j]) == lookup(es[t - 1], keys[j]));
    }
}

} // verus!

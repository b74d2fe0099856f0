//! Search timings: the flat record of how long each part of a search took,
//! and its hierarchical form, keyed by `parent > child` paths.
use crate::duration::{as_nanos, duration_as_nanos, max_duration_nanos, new_duration};
use crate::timing_map::{empty_timing_map, insert_timing, timing_entries, timing_map};
use std::collections::BTreeMap;
use std::time::Duration;
use vstd::prelude::*;

verus! {

/// How long each part of one search took.
pub struct SearchTiming {
    pub total_search_time: Duration,
    pub query_processing_time: Duration,
    pub search_execution_time: Duration,
    pub result_formatting_time: Duration,
    pub query_parsing_time: Duration,
    pub query_tree_build_time: Duration,
    pub query_tree_simplify_time: Duration,
    pub ranking_graph_build_time: Duration,
    pub tokenization_time: Duration,
    pub tokenizer_build_time: Duration,
    pub keyword_search_time: Duration,
    pub vector_search_time: Duration,
    pub hybrid_search_time: Duration,
    pub embedding_time: Duration,
    pub words_ranking_time: Duration,
    pub typo_ranking_time: Duration,
    pub proximity_ranking_time: Duration,
    pub attribute_ranking_time: Duration,
    pub exactness_ranking_time: Duration,
    pub sort_ranking_time: Duration,
    pub geo_sort_time: Duration,
    pub geo_filter_time: Duration,
    pub geo_sort_compute_time: Duration,
    pub geo_bucket_sort_time: Duration,
    pub facet_distribution_time: Duration,
    pub facet_stats_time: Duration,
    pub facet_search_time: Duration,
    pub result_sorting_time: Duration,
    pub distinct_processing_time: Duration,
    pub pagination_time: Duration,
    pub cache_lookup_time: Duration,
    pub database_read_time: Duration,
    pub filter_application_time: Duration,
    /// Time spent on each facet attribute, by attribute name.
    pub facet_attribute_timing: BTreeMap<String, Duration>,
    /// Time spent filtering on each attribute, by attribute name.
    pub filter_attribute_timing: BTreeMap<String, Duration>,
    /// Any other named timing.
    pub additional_timing: BTreeMap<String, Duration>,
}

/// The timings of a search arranged as a tree: each entry is keyed by its
/// path from the top, the levels joined by `" > "`.
pub struct SearchTimingHierarchy {
    pub timing_entries: BTreeMap<String, Duration>,
}

/// `m` with `key` mapped to `nanos`, unless `nanos` is zero: a phase that
/// took no time is left out.
pub open spec fn put_nonzero(m: Map<Seq<char>, u128>, key: Seq<char>, nanos: u128) -> Map<
    Seq<char>,
    u128,
> {
    if nanos == 0 {
        m
    } else {
        m.insert(key, nanos)
    }
}

/// The entries `prefix + name` for each name of `named` whose time is not
/// zero, each with that name's time.
pub open spec fn prefixed_nonzero(prefix: Seq<char>, named: Map<Seq<char>, u128>) -> Map<
    Seq<char>,
    u128,
> {
    Map::new(
        |k: Seq<char>|
            prefix.is_prefix_of(k) && named.contains_key(k.skip(prefix.len() as int))
                && named[k.skip(prefix.len() as int)] != 0,
        |k: Seq<char>| named[k.skip(prefix.len() as int)],
    )
}

/// The time of all facet work: distribution, stats and search together,
/// capped at the longest `Duration`.
pub open spec fn facets_total_nanos(t: SearchTiming) -> u128 {
    let sum = duration_as_nanos(t.facet_distribution_time) + duration_as_nanos(t.facet_stats_time)
        + duration_as_nanos(t.facet_search_time);
    if sum <= max_duration_nanos() {
        sum as u128
    } else {
        max_duration_nanos() as u128
    }
}

/// The fixed phases of a search under their paths. The total is always
/// there; every other phase only where it took some time.
/// The paths of the fixed phases below the total, in the order they are
/// entered into the hierarchy.
pub open spec fn phase_paths() -> Seq<Seq<char>> {
    seq![
        "query_processing"@,
        "query_processing > parsing"@,
        "query_processing > tree_build"@,
        "query_processing > tree_simplify"@,
        "query_processing > ranking_graph_build"@,
        "tokenization"@,
        "tokenization > tokenizer_build"@,
        "search_execution"@,
        "search_execution > keyword_search"@,
        "search_execution > vector_search"@,
        "search_execution > hybrid_search"@,
        "search_execution > embedding"@,
        "search_execution > ranking > words"@,
        "search_execution > ranking > typo"@,
        "search_execution > ranking > proximity"@,
        "search_execution > ranking > attribute"@,
        "search_execution > ranking > exactness"@,
        "search_execution > ranking > sort"@,
        "search_execution > geo > sort"@,
        "search_execution > geo > filter"@,
        "search_execution > geo > sort > compute"@,
        "search_execution > geo > sort > bucket"@,
        "search_execution > cache > lookup"@,
        "search_execution > database > read"@,
        "search_execution > database > filter"@,
        "result_formatting"@,
        "result_formatting > sorting"@,
        "result_formatting > distinct"@,
        "result_formatting > pagination"@,
        "facets"@,
        "facets > distribution"@,
        "facets > stats"@,
        "facets > search"@,
    ]
}

/// The times of the fixed phases of `t`, in nanoseconds, in the order of
/// `phase_paths`.
pub open spec fn phase_nanos(t: SearchTiming) -> Seq<u128> {
    seq![
        duration_as_nanos(t.query_processing_time),
        duration_as_nanos(t.query_parsing_time),
        duration_as_nanos(t.query_tree_build_time),
        duration_as_nanos(t.query_tree_simplify_time),
        duration_as_nanos(t.ranking_graph_build_time),
        duration_as_nanos(t.tokenization_time),
        duration_as_nanos(t.tokenizer_build_time),
        duration_as_nanos(t.search_execution_time),
        duration_as_nanos(t.keyword_search_time),
        duration_as_nanos(t.vector_search_time),
        duration_as_nanos(t.hybrid_search_time),
        duration_as_nanos(t.embedding_time),
        duration_as_nanos(t.words_ranking_time),
        duration_as_nanos(t.typo_ranking_time),
        duration_as_nanos(t.proximity_ranking_time),
        duration_as_nanos(t.attribute_ranking_time),
        duration_as_nanos(t.exactness_ranking_time),
        duration_as_nanos(t.sort_ranking_time),
        duration_as_nanos(t.geo_sort_time),
        duration_as_nanos(t.geo_filter_time),
        duration_as_nanos(t.geo_sort_compute_time),
        duration_as_nanos(t.geo_bucket_sort_time),
        duration_as_nanos(t.cache_lookup_time),
        duration_as_nanos(t.database_read_time),
        duration_as_nanos(t.filter_application_time),
        duration_as_nanos(t.result_formatting_time),
        duration_as_nanos(t.result_sorting_time),
        duration_as_nanos(t.distinct_processing_time),
        duration_as_nanos(t.pagination_time),
        facets_total_nanos(t),
        duration_as_nanos(t.facet_distribution_time),
        duration_as_nanos(t.facet_stats_time),
        duration_as_nanos(t.facet_search_time),
    ]
}

/// `m` with the first `n` phases entered in order, each one only where its
/// time is not zero.
pub open spec fn put_phases(
    m: Map<Seq<char>, u128>,
    paths: Seq<Seq<char>>,
    nanos: Seq<u128>,
    n: nat,
) -> Map<Seq<char>, u128>
    decreases n,
{
    if n == 0 {
        m
    } else {
        put_nonzero(put_phases(m, paths, nanos, (n - 1) as nat), paths[n - 1], nanos[n - 1])
    }
}

/// The fixed phases of a search under their paths. The total is always
/// there; every other phase only where it took some time.
pub open spec fn phase_timings(t: SearchTiming) -> Map<Seq<char>, u128> {
    put_phases(
        Map::<Seq<char>, u128>::empty().insert(
            "total_search"@,
            duration_as_nanos(t.total_search_time),
        ),
        phase_paths(),
        phase_nanos(t),
        33,
    )
}

/// The whole hierarchy of a search's timings, in nanoseconds: the fixed
/// phases, then each facet attribute under `facets > attribute > `, each
/// filtered attribute under `filters > attribute > ` and each other named
/// timing under `additional > `, every named one only where it took time.
pub open spec fn timing_hierarchy(t: SearchTiming) -> Map<Seq<char>, u128> {
    phase_timings(t).union_prefer_right(
        prefixed_nonzero("facets > attribute > "@, timing_map(t.facet_attribute_timing)),
    ).union_prefer_right(
        prefixed_nonzero("filters > attribute > "@, timing_map(t.filter_attribute_timing)),
    ).union_prefer_right(prefixed_nonzero("additional > "@, timing_map(t.additional_timing)))
}

/// Adds `key` with `d` to `map`, unless `d` is zero.
fn put_if_nonzero(map: &mut BTreeMap<String, Duration>, key: &str, d: Duration)
    ensures
        timing_map(*final(map)) == put_nonzero(timing_map(*old(map)), key@, duration_as_nanos(d)),
{
    put_if_nonzero_owned(map, String::from_str(key), d);
}

/// Taking one more name into the named timings adds exactly that name's
/// prefixed entry, when its time is not zero.
proof fn lemma_prefixed_step(
    prefix: Seq<char>,
    named: Map<Seq<char>, u128>,
    done: Set<Seq<char>>,
    name: Seq<char>,
)
    requires
        named.contains_key(name),
    ensures
        prefixed_nonzero(prefix, named.restrict(done.insert(name))) == put_nonzero(
            prefixed_nonzero(prefix, named.restrict(done)),
            prefix + name,
            named[name],
        ),
{
    let plen = prefix.len() as int;
    let key = prefix + name;
    assert(key.skip(plen) =~= name);
    assert(key.subrange(0, plen) =~= prefix);
    assert forall|k: Seq<char>| prefix.is_prefix_of(k) && k.skip(plen) == name implies k == key by {
        assert(k =~= prefix + k.skip(plen));
    }
    assert(prefixed_nonzero(prefix, named.restrict(done.insert(name))) =~= put_nonzero(
        prefixed_nonzero(prefix, named.restrict(done)),
        prefix + name,
        named[name],
    ));
}

/// Adds to `map` the entry `prefix + name` of every name in `named` whose
/// time is not zero; an entry already under such a key is replaced.
fn put_prefixed(
    map: &mut BTreeMap<String, Duration>,
    prefix: &str,
    named: &BTreeMap<String, Duration>,
)
    ensures
        timing_map(*final(map)) == timing_map(*old(map)).union_prefer_right(
            prefixed_nonzero(prefix@, timing_map(*named)),
        ),
{
    let entries = timing_entries(named);
    let ghost start = timing_map(*map);
    let ghost names = timing_map(*named);
    let ghost mut done: Set<Seq<char>> = Set::empty();
    assert(prefixed_nonzero(prefix@, names.restrict(done)) =~= Map::empty());
    assert(start.union_prefer_right(prefixed_nonzero(prefix@, names.restrict(done))) =~= start);
    let mut i: usize = 0;
    while i < entries.len()
        invariant
            i <= entries@.len(),
            names == timing_map(*named),
            entries@.len() == names.dom().len(),
            forall|j: int|
                0 <= j < entries@.len() ==> #[trigger] names.contains_key(entries@[j].0@)
                    && names[entries@[j].0@] == duration_as_nanos(entries@[j].1),
            forall|k: Seq<char>|
                #[trigger] names.contains_key(k) ==> exists|j: int|
                    0 <= j < entries@.len() && #[trigger] entries@[j].0@ == k,
            forall|j: int| 0 <= j < i ==> done.contains(#[trigger] entries@[j].0@),
            timing_map(*map) == start.union_prefer_right(
                prefixed_nonzero(prefix@, names.restrict(done)),
            ),
        decreases entries@.len() - i,
    {
        let name = entries[i].0.as_str();
        let d = entries[i].1;
        let key = String::from_str(prefix).concat(name);
        proof {
            assert(names.contains_key(entries@[i as int].0@));
            let before = prefixed_nonzero(prefix@, names.restrict(done));
            lemma_prefixed_step(prefix@, names, done, name@);
            assert(start.union_prefer_right(put_nonzero(before, prefix@ + name@, names[name@]))
                =~= put_nonzero(start.union_prefer_right(before), prefix@ + name@, names[name@]));
            done = done.insert(name@);
        }
        put_if_nonzero_owned(map, key, d);
        i = i + 1;
    }
    proof {
        assert forall|k: Seq<char>| #[trigger] names.contains_key(k) implies done.contains(k) by {
            let j = choose|j: int| 0 <= j < entries@.len() && #[trigger] entries@[j].0@ == k;
            assert(done.contains(entries@[j].0@));
        }
        assert(names.restrict(done) =~= names);
    }
}

/// Adds `key` with `d` to `map`, unless `d` is zero.
fn put_if_nonzero_owned(map: &mut BTreeMap<String, Duration>, key: String, d: Duration)
    ensures
        timing_map(*final(map)) == put_nonzero(timing_map(*old(map)), key@, duration_as_nanos(d)),
{
    if as_nanos(&d) != 0 {
        insert_timing(map, key, d);
    }
}

/// The time of all facet work, `facets_total_nanos` as a `Duration`.
fn facets_total(timing: &SearchTiming) -> (d: Duration)
    ensures
        duration_as_nanos(d) == facets_total_nanos(*timing),
{
    let sum: u128 = as_nanos(&timing.facet_distribution_time) + as_nanos(&timing.facet_stats_time)
        + as_nanos(&timing.facet_search_time);
    let max: u128 = 18_446_744_073_709_551_615_999_999_999;
    let total: u128 = if sum <= max {
        sum
    } else {
        max
    };
    let secs: u128 = total / 1_000_000_000;
    let subsec: u128 = total % 1_000_000_000;
    assert(secs <= u64::MAX) by (nonlinear_arith)
        requires
            total <= 18_446_744_073_709_551_615_999_999_999u128,
            secs == total / 1_000_000_000,
    ;
    new_duration(secs as u64, subsec as u32)
}

impl SearchTimingHierarchy {
    /// Arranges the flat timings of a search as a hierarchy. The total is
    /// always present; every other entry appears only when it took time.
    /// `facets` holds the distribution, stats and facet-search times summed.
    pub fn from_flat_timing(timing: &SearchTiming) -> (hierarchy: Self)
        ensures
            timing_map(hierarchy.timing_entries) == timing_hierarchy(*timing),
    {
        let mut map = empty_timing_map();
        assert(timing_map(map) =~= Map::<Seq<char>, u128>::empty());
        insert_timing(&mut map, String::from_str("total_search"), timing.total_search_time);
        let phases: Vec<(&str, Duration)> = vec![
            ("query_processing", timing.query_processing_time),
            ("query_processing > parsing", timing.query_parsing_time),
            ("query_processing > tree_build", timing.query_tree_build_time),
            ("query_processing > tree_simplify", timing.query_tree_simplify_time),
            ("query_processing > ranking_graph_build", timing.ranking_graph_build_time),
            ("tokenization", timing.tokenization_time),
            ("tokenization > tokenizer_build", timing.tokenizer_build_time),
            ("search_execution", timing.search_execution_time),
            ("search_execution > keyword_search", timing.keyword_search_time),
            ("search_execution > vector_search", timing.vector_search_time),
            ("search_execution > hybrid_search", timing.hybrid_search_time),
            ("search_execution > embedding", timing.embedding_time),
            ("search_execution > ranking > words", timing.words_ranking_time),
            ("search_execution > ranking > typo", timing.typo_ranking_time),
            ("search_execution > ranking > proximity", timing.proximity_ranking_time),
            ("search_execution > ranking > attribute", timing.attribute_ranking_time),
            ("search_execution > ranking > exactness", timing.exactness_ranking_time),
            ("search_execution > ranking > sort", timing.sort_ranking_time),
            ("search_execution > geo > sort", timing.geo_sort_time),
            ("search_execution > geo > filter", timing.geo_filter_time),
            ("search_execution > geo > sort > compute", timing.geo_sort_compute_time),
            ("search_execution > geo > sort > bucket", timing.geo_bucket_sort_time),
            ("search_execution > cache > lookup", timing.cache_lookup_time),
            ("search_execution > database > read", timing.database_read_time),
            ("search_execution > database > filter", timing.filter_application_time),
            ("result_formatting", timing.result_formatting_time),
            ("result_formatting > sorting", timing.result_sorting_time),
            ("result_formatting > distinct", timing.distinct_processing_time),
            ("result_formatting > pagination", timing.pagination_time),
            ("facets", facets_total(timing)),
            ("facets > distribution", timing.facet_distribution_time),
            ("facets > stats", timing.facet_stats_time),
            ("facets > search", timing.facet_search_time),
        ];
        let ghost start = timing_map(map);
        proof {
            assert(phases@.len() == 33);
            assert forall|j: int| 0 <= j < 33 implies #[trigger] phases@[j].0@ == phase_paths()[j]
                && duration_as_nanos(phases@[j].1) == phase_nanos(*timing)[j] by {}
        }
        let mut i: usize = 0;
        while i < phases.len()
            invariant
                i <= phases@.len(),
                phases@.len() == 33,
                forall|j: int|
                    0 <= j < 33 ==> #[trigger] phases@[j].0@ == phase_paths()[j]
                        && duration_as_nanos(phases@[j].1) == phase_nanos(*timing)[j],
                timing_map(map) == put_phases(start, phase_paths(), phase_nanos(*timing), i as nat),
            decreases phases@.len() - i,
        {
            assert(phases@[i as int].0@ == phase_paths()[i as int]);
            put_if_nonzero(&mut map, phases[i].0, phases[i].1);
            i = i + 1;
        }
        put_prefixed(&mut map, "facets > attribute > ", &timing.facet_attribute_timing);
        put_prefixed(&mut map, "filters > attribute > ", &timing.filter_attribute_timing);
        put_prefixed(&mut map, "additional > ", &timing.additional_timing);
        SearchTimingHierarchy { timing_entries: map }
    }
}

/// The phase paths are all different, and none is the total's path.
proof fn lemma_phase_paths_distinct()
    ensures
        phase_paths().len() == 33,
        forall|i: int, j: int| 0 <= i < j < 33 ==> phase_paths()[i] != phase_paths()[j],
        forall|i: int| 0 <= i < 33 ==> phase_paths()[i] != "total_search"@,
{
    reveal_strlit("total_search");
    reveal_strlit("query_processing");
    reveal_strlit("query_processing > parsing");
    reveal_strlit("query_processing > tree_build");
    reveal_strlit("query_processing > tree_simplify");
    reveal_strlit("query_processing > ranking_graph_build");
    reveal_strlit("tokenization");
    reveal_strlit("tokenization > tokenizer_build");
    reveal_strlit("search_execution");
    reveal_strlit("search_execution > keyword_search");
    reveal_strlit("search_execution > vector_search");
    reveal_strlit("search_execution > hybrid_search");
    reveal_strlit("search_execution > embedding");
    reveal_strlit("search_execution > ranking > words");
    reveal_strlit("search_execution > ranking > typo");
    reveal_strlit("search_execution > ranking > proximity");
    reveal_strlit("search_execution > ranking > attribute");
    reveal_strlit("search_execution > ranking > exactness");
    reveal_strlit("search_execution > ranking > sort");
    reveal_strlit("search_execution > geo > sort");
    reveal_strlit("search_execution > geo > filter");
    reveal_strlit("search_execution > geo > sort > compute");
    reveal_strlit("search_execution > geo > sort > bucket");
    reveal_strlit("search_execution > cache > lookup");
    reveal_strlit("search_execution > database > read");
    reveal_strlit("search_execution > database > filter");
    reveal_strlit("result_formatting");
    reveal_strlit("result_formatting > sorting");
    reveal_strlit("result_formatting > distinct");
    reveal_strlit("result_formatting > pagination");
    reveal_strlit("facets");
    reveal_strlit("facets > distribution");
    reveal_strlit("facets > stats");
    reveal_strlit("facets > search");
    assert("total_search"@.len() == 12);
    assert("query_processing"@.len() == 16);
    assert("query_processing > parsing"@.len() == 26);
    assert("query_processing > tree_build"@.len() == 29);
    assert("query_processing > tree_simplify"@.len() == 32);
    assert("query_processing > ranking_graph_build"@.len() == 38);
    assert("tokenization"@.len() == 12);
    assert("tokenization > tokenizer_build"@.len() == 30);
    assert("search_execution"@.len() == 16);
    assert("search_execution > keyword_search"@.len() == 33);
    assert("search_execution > vector_search"@.len() == 32);
    assert("search_execution > hybrid_search"@.len() == 32);
    assert("search_execution > embedding"@.len() == 28);
    assert("search_execution > ranking > words"@.len() == 34);
    assert("search_execution > ranking > typo"@.len() == 33);
    assert("search_execution > ranking > proximity"@.len() == 38);
    assert("search_execution > ranking > attribute"@.len() == 38);
    assert("search_execution > ranking > exactness"@.len() == 38);
    assert("search_execution > ranking > sort"@.len() == 33);
    assert("search_execution > geo > sort"@.len() == 29);
    assert("search_execution > geo > filter"@.len() == 31);
    assert("search_execution > geo > sort > compute"@.len() == 39);
    assert("search_execution > geo > sort > bucket"@.len() == 38);
    assert("search_execution > cache > lookup"@.len() == 33);
    assert("search_execution > database > read"@.len() == 34);
    assert("search_execution > database > filter"@.len() == 36);
    assert("result_formatting"@.len() == 17);
    assert("result_formatting > sorting"@.len() == 27);
    assert("result_formatting > distinct"@.len() == 28);
    assert("result_formatting > pagination"@.len() == 30);
    assert("facets"@.len() == 6);
    assert("facets > distribution"@.len() == 21);
    assert("facets > stats"@.len() == 14);
    assert("facets > search"@.len() == 15);
    assert("total_search"@[2] != "tokenization"@[2]);
    assert("query_processing"@[0] != "search_execution"@[0]);
    assert("query_processing > tree_build"@[0] != "search_execution > geo > sort"@[0]);
    assert("query_processing > tree_simplify"@[0] != "search_execution > vector_search"@[0]);
    assert("query_processing > tree_simplify"@[0] != "search_execution > hybrid_search"@[0]);
    assert("query_processing > ranking_graph_build"@[0] != "search_execution > ranking > proximity"@[0]);
    assert("query_processing > ranking_graph_build"@[0] != "search_execution > ranking > attribute"@[0]);
    assert("query_processing > ranking_graph_build"@[0] != "search_execution > ranking > exactness"@[0]);
    assert("query_processing > ranking_graph_build"@[0] != "search_execution > geo > sort > bucket"@[0]);
    assert("tokenization > tokenizer_build"@[0] != "result_formatting > pagination"@[0]);
    assert("search_execution > keyword_search"@[19] != "search_execution > ranking > typo"@[19]);
    assert("search_execution > keyword_search"@[19] != "search_execution > ranking > sort"@[19]);
    assert("search_execution > keyword_search"@[19] != "search_execution > cache > lookup"@[19]);
    assert("search_execution > vector_search"@[19] != "search_execution > hybrid_search"@[19]);
    assert("search_execution > embedding"@[0] != "result_formatting > distinct"@[0]);
    assert("search_execution > ranking > words"@[19] != "search_execution > database > read"@[19]);
    assert("search_execution > ranking > typo"@[29] != "search_execution > ranking > sort"@[29]);
    assert("search_execution > ranking > typo"@[19] != "search_execution > cache > lookup"@[19]);
    assert("search_execution > ranking > proximity"@[29] != "search_execution > ranking > attribute"@[29]);
    assert("search_execution > ranking > proximity"@[29] != "search_execution > ranking > exactness"@[29]);
    assert("search_execution > ranking > proximity"@[19] != "search_execution > geo > sort > bucket"@[19]);
    assert("search_execution > ranking > attribute"@[29] != "search_execution > ranking > exactness"@[29]);
    assert("search_execution > ranking > attribute"@[19] != "search_execution > geo > sort > bucket"@[19]);
    assert("search_execution > ranking > exactness"@[19] != "search_execution > geo > sort > bucket"@[19]);
    assert("search_execution > ranking > sort"@[19] != "search_execution > cache > lookup"@[19]);
}

/// No fixed path lies under one of the prefixes of the named timings.
proof fn lemma_fixed_paths_not_named(k: Seq<char>)
    requires
        k == "total_search"@ || phase_paths().contains(k),
    ensures
        !"facets > attribute > "@.is_prefix_of(k),
        !"filters > attribute > "@.is_prefix_of(k),
        !"additional > "@.is_prefix_of(k),
{
    reveal_strlit("total_search");
    reveal_strlit("query_processing");
    reveal_strlit("query_processing > parsing");
    reveal_strlit("query_processing > tree_build");
    reveal_strlit("query_processing > tree_simplify");
    reveal_strlit("query_processing > ranking_graph_build");
    reveal_strlit("tokenization");
    reveal_strlit("tokenization > tokenizer_build");
    reveal_strlit("search_execution");
    reveal_strlit("search_execution > keyword_search");
    reveal_strlit("search_execution > vector_search");
    reveal_strlit("search_execution > hybrid_search");
    reveal_strlit("search_execution > embedding");
    reveal_strlit("search_execution > ranking > words");
    reveal_strlit("search_execution > ranking > typo");
    reveal_strlit("search_execution > ranking > proximity");
    reveal_strlit("search_execution > ranking > attribute");
    reveal_strlit("search_execution > ranking > exactness");
    reveal_strlit("search_execution > ranking > sort");
    reveal_strlit("search_execution > geo > sort");
    reveal_strlit("search_execution > geo > filter");
    reveal_strlit("search_execution > geo > sort > compute");
    reveal_strlit("search_execution > geo > sort > bucket");
    reveal_strlit("search_execution > cache > lookup");
    reveal_strlit("search_execution > database > read");
    reveal_strlit("search_execution > database > filter");
    reveal_strlit("result_formatting");
    reveal_strlit("result_formatting > sorting");
    reveal_strlit("result_formatting > distinct");
    reveal_strlit("result_formatting > pagination");
    reveal_strlit("facets");
    reveal_strlit("facets > distribution");
    reveal_strlit("facets > stats");
    reveal_strlit("facets > search");
    reveal_strlit("facets > attribute > ");
    reveal_strlit("filters > attribute > ");
    reveal_strlit("additional > ");
    assert("total_search"@.len() == 12 && "total_search"@[0] == 't');
    assert("query_processing"@.len() == 16 && "query_processing"@[0] == 'q');
    assert("query_processing > parsing"@.len() == 26 && "query_processing > parsing"@[0] == 'q');
    assert("query_processing > tree_build"@.len() == 29 && "query_processing > tree_build"@[0] == 'q');
    assert("query_processing > tree_simplify"@.len() == 32 && "query_processing > tree_simplify"@[0] == 'q');
    assert("query_processing > ranking_graph_build"@.len() == 38 && "query_processing > ranking_graph_build"@[0] == 'q');
    assert("tokenization"@.len() == 12 && "tokenization"@[0] == 't');
    assert("tokenization > tokenizer_build"@.len() == 30 && "tokenization > tokenizer_build"@[0] == 't');
    assert("search_execution"@.len() == 16 && "search_execution"@[0] == 's');
    assert("search_execution > keyword_search"@.len() == 33 && "search_execution > keyword_search"@[0] == 's');
    assert("search_execution > vector_search"@.len() == 32 && "search_execution > vector_search"@[0] == 's');
    assert("search_execution > hybrid_search"@.len() == 32 && "search_execution > hybrid_search"@[0] == 's');
    assert("search_execution > embedding"@.len() == 28 && "search_execution > embedding"@[0] == 's');
    assert("search_execution > ranking > words"@.len() == 34 && "search_execution > ranking > words"@[0] == 's');
    assert("search_execution > ranking > typo"@.len() == 33 && "search_execution > ranking > typo"@[0] == 's');
    assert("search_execution > ranking > proximity"@.len() == 38 && "search_execution > ranking > proximity"@[0] == 's');
    assert("search_execution > ranking > attribute"@.len() == 38 && "search_execution > ranking > attribute"@[0] == 's');
    assert("search_execution > ranking > exactness"@.len() == 38 && "search_execution > ranking > exactness"@[0] == 's');
    assert("search_execution > ranking > sort"@.len() == 33 && "search_execution > ranking > sort"@[0] == 's');
    assert("search_execution > geo > sort"@.len() == 29 && "search_execution > geo > sort"@[0] == 's');
    assert("search_execution > geo > filter"@.len() == 31 && "search_execution > geo > filter"@[0] == 's');
    assert("search_execution > geo > sort > compute"@.len() == 39 && "search_execution > geo > sort > compute"@[0] == 's');
    assert("search_execution > geo > sort > bucket"@.len() == 38 && "search_execution > geo > sort > bucket"@[0] == 's');
    assert("search_execution > cache > lookup"@.len() == 33 && "search_execution > cache > lookup"@[0] == 's');
    assert("search_execution > database > read"@.len() == 34 && "search_execution > database > read"@[0] == 's');
    assert("search_execution > database > filter"@.len() == 36 && "search_execution > database > filter"@[0] == 's');
    assert("result_formatting"@.len() == 17 && "result_formatting"@[0] == 'r');
    assert("result_formatting > sorting"@.len() == 27 && "result_formatting > sorting"@[0] == 'r');
    assert("result_formatting > distinct"@.len() == 28 && "result_formatting > distinct"@[0] == 'r');
    assert("result_formatting > pagination"@.len() == 30 && "result_formatting > pagination"@[0] == 'r');
    assert("facets"@.len() == 6 && "facets"@[0] == 'f');
    assert("facets"@[1] == 'a');
    assert("facets > distribution"@.len() == 21 && "facets > distribution"@[0] == 'f');
    assert("facets > distribution"@[1] == 'a');
    assert("facets > distribution"@[9] == 'd');
    assert("facets > stats"@.len() == 14 && "facets > stats"@[0] == 'f');
    assert("facets > stats"@[1] == 'a');
    assert("facets > search"@.len() == 15 && "facets > search"@[0] == 'f');
    assert("facets > search"@[1] == 'a');
    assert("facets > attribute > "@.len() == 21 && "facets > attribute > "@[0] == 'f' && "facets > attribute > "@[1] == 'a' && "facets > attribute > "@[9] == 'a');
    assert("filters > attribute > "@.len() == 22 && "filters > attribute > "@[0] == 'f' && "filters > attribute > "@[1] == 'i' && "filters > attribute > "@[9] == ' ');
    assert("additional > "@.len() == 13 && "additional > "@[0] == 'a' && "additional > "@[1] == 'd' && "additional > "@[9] == 'l');
    let prefixes = seq!["facets > attribute > "@, "filters > attribute > "@, "additional > "@];
    assert forall|q: Seq<char>| #[trigger] prefixes.contains(q) && q.is_prefix_of(k) implies false by {
        assert(k[0] == k.subrange(0, q.len() as int)[0]);
        assert(k[1] == k.subrange(0, q.len() as int)[1]);
        assert(k[9] == k.subrange(0, q.len() as int)[9]);
        if k != "total_search"@ {
            let i = choose|i: int| 0 <= i < phase_paths().len() && phase_paths()[i] == k;
        }
    }
    assert(prefixes.contains("facets > attribute > "@));
    assert(prefixes.contains("filters > attribute > "@));
    assert(prefixes.contains("additional > "@));
}

/// Entering phases whose paths all differ from `k` leaves `k` as it was.
proof fn lemma_put_phases_keeps(
    m: Map<Seq<char>, u128>,
    paths: Seq<Seq<char>>,
    nanos: Seq<u128>,
    n: nat,
    k: Seq<char>,
)
    requires
        n <= paths.len(),
        forall|j: int| 0 <= j < n ==> paths[j] != k,
    ensures
        put_phases(m, paths, nanos, n).contains_key(k) == m.contains_key(k),
        put_phases(m, paths, nanos, n)[k] == m[k],
    decreases n,
{
    if n > 0 {
        lemma_put_phases_keeps(m, paths, nanos, (n - 1) as nat, k);
    }
}

/// With distinct paths, phase `i` ends up under its path exactly when its
/// time is not zero, with that time.
proof fn lemma_put_phases_at(
    m: Map<Seq<char>, u128>,
    paths: Seq<Seq<char>>,
    nanos: Seq<u128>,
    n: nat,
    i: int,
)
    requires
        0 <= i < n <= paths.len(),
        forall|a: int, b: int| 0 <= a < b < paths.len() ==> paths[a] != paths[b],
        !m.contains_key(paths[i]),
    ensures
        put_phases(m, paths, nanos, n).contains_key(paths[i]) == (nanos[i] != 0),
        nanos[i] != 0 ==> put_phases(m, paths, nanos, n)[paths[i]] == nanos[i],
    decreases n,
{
    if n - 1 == i {
        lemma_put_phases_keeps(m, paths, nanos, (n - 1) as nat, paths[i]);
    } else {
        lemma_put_phases_at(m, paths, nanos, (n - 1) as nat, i);
    }
}

/// Entering phases adds no zero time under any key but `total`.
proof fn lemma_put_phases_nonzero(
    m: Map<Seq<char>, u128>,
    paths: Seq<Seq<char>>,
    nanos: Seq<u128>,
    n: nat,
    total: Seq<char>,
)
    requires
        forall|k: Seq<char>| #[trigger] m.contains_key(k) && k != total ==> m[k] != 0,
    ensures
        forall|k: Seq<char>|
            #[trigger] put_phases(m, paths, nanos, n).contains_key(k) && k != total
                ==> put_phases(m, paths, nanos, n)[k] != 0,
    decreases n,
{
    if n > 0 {
        let prev = put_phases(m, paths, nanos, (n - 1) as nat);
        lemma_put_phases_nonzero(m, paths, nanos, (n - 1) as nat, total);
        assert forall|k: Seq<char>|
            #[trigger] put_phases(m, paths, nanos, n).contains_key(k) && k != total implies put_phases(
            m,
            paths,
            nanos,
            n,
        )[k] != 0 by {
            if k != paths[n - 1] || nanos[n - 1] == 0 {
                assert(prev.contains_key(k));
            }
        }
    }
}

/// Where every phase took no time, entering them changes nothing.
proof fn lemma_put_phases_all_zero(
    m: Map<Seq<char>, u128>,
    paths: Seq<Seq<char>>,
    nanos: Seq<u128>,
    n: nat,
)
    requires
        n <= nanos.len(),
        forall|j: int| 0 <= j < n ==> nanos[j] == 0,
    ensures
        put_phases(m, paths, nanos, n) == m,
    decreases n,
{
    if n > 0 {
        lemma_put_phases_all_zero(m, paths, nanos, (n - 1) as nat);
    }
}

/// The hierarchy always holds the total time of the search under
/// `total_search`, even when that time is zero.
pub proof fn law_total_search_always_present(t: SearchTiming)
    ensures
        timing_hierarchy(t).contains_key("total_search"@),
        timing_hierarchy(t)["total_search"@] == duration_as_nanos(t.total_search_time),
{
    let total = "total_search"@;
    lemma_phase_paths_distinct();
    let m0 = Map::<Seq<char>, u128>::empty().insert(total, duration_as_nanos(t.total_search_time));
    lemma_put_phases_keeps(m0, phase_paths(), phase_nanos(t), 33, total);
    lemma_fixed_paths_not_named(total);
}

/// Every fixed phase below the total is in the hierarchy under its path
/// exactly when it took some time, and then with that time.
pub proof fn law_phase_listed_when_nonzero(t: SearchTiming, i: int)
    requires
        0 <= i < 33,
    ensures
        timing_hierarchy(t).contains_key(phase_paths()[i]) == (phase_nanos(t)[i] != 0),
        phase_nanos(t)[i] != 0 ==> timing_hierarchy(t)[phase_paths()[i]] == phase_nanos(t)[i],
{
    lemma_phase_paths_distinct();
    let m0 = Map::<Seq<char>, u128>::empty().insert(
        "total_search"@,
        duration_as_nanos(t.total_search_time),
    );
    lemma_put_phases_at(m0, phase_paths(), phase_nanos(t), 33, i);
    assert(phase_paths().contains(phase_paths()[i]));
    lemma_fixed_paths_not_named(phase_paths()[i]);
}

/// The `facets` entry is the time of all facet work: distribution, stats
/// and facet search summed, present whenever that sum is not zero. (A sum
/// beyond the longest `Duration` is held at that longest duration.)
pub proof fn law_facets_sum_facet_work(t: SearchTiming)
    ensures
        timing_hierarchy(t).contains_key("facets"@) == (facets_total_nanos(t) != 0),
        facets_total_nanos(t) != 0 ==> timing_hierarchy(t)["facets"@] == facets_total_nanos(t),
        duration_as_nanos(t.facet_distribution_time) + duration_as_nanos(t.facet_stats_time)
            + duration_as_nanos(t.facet_search_time) <= max_duration_nanos() ==> facets_total_nanos(t)
            == duration_as_nanos(t.facet_distribution_time) + duration_as_nanos(t.facet_stats_time)
            + duration_as_nanos(t.facet_search_time),
{
    law_phase_listed_when_nonzero(t, 29);
}

/// No entry but the total ever holds a zero time.
pub proof fn law_no_zero_entry_but_total(t: SearchTiming)
    ensures
        forall|k: Seq<char>|
            #[trigger] timing_hierarchy(t).contains_key(k) && k != "total_search"@
                ==> timing_hierarchy(t)[k] != 0,
{
    let m0 = Map::<Seq<char>, u128>::empty().insert(
        "total_search"@,
        duration_as_nanos(t.total_search_time),
    );
    lemma_put_phases_nonzero(m0, phase_paths(), phase_nanos(t), 33, "total_search"@);
}

/// A search in which nothing below the total took any time has a hierarchy
/// holding the total alone.
pub proof fn law_idle_search_holds_only_total(t: SearchTiming)
    requires
        forall|i: int| 0 <= i < 33 ==> phase_nanos(t)[i] == 0,
        forall|k: Seq<char>| #[trigger] timing_map(t.facet_attribute_timing).contains_key(k)
            ==> timing_map(t.facet_attribute_timing)[k] == 0,
        forall|k: Seq<char>| #[trigger] timing_map(t.filter_attribute_timing).contains_key(k)
            ==> timing_map(t.filter_attribute_timing)[k] == 0,
        forall|k: Seq<char>| #[trigger] timing_map(t.additional_timing).contains_key(k)
            ==> timing_map(t.additional_timing)[k] == 0,
    ensures
        timing_hierarchy(t) == Map::<Seq<char>, u128>::empty().insert(
            "total_search"@,
            duration_as_nanos(t.total_search_time),
        ),
{
    let m0 = Map::<Seq<char>, u128>::empty().insert(
        "total_search"@,
        duration_as_nanos(t.total_search_time),
    );
    lemma_put_phases_all_zero(m0, phase_paths(), phase_nanos(t), 33);
    assert(timing_hierarchy(t) =~= m0);
}

/// Entering phases only adds keys among their paths.
proof fn lemma_put_phases_dom(
    m: Map<Seq<char>, u128>,
    paths: Seq<Seq<char>>,
    nanos: Seq<u128>,
    n: nat,
    k: Seq<char>,
)
    requires
        n <= paths.len(),
        put_phases(m, paths, nanos, n).contains_key(k),
    ensures
        m.contains_key(k) || paths.contains(k),
    decreases n,
{
    if n > 0 {
        if k == paths[n - 1] {
            assert(paths.contains(paths[n - 1]));
        } else {
            lemma_put_phases_dom(m, paths, nanos, (n - 1) as nat, k);
        }
    }
}

/// The three prefixes of the named timings: a key under one lies under
/// no other.
proof fn lemma_named_prefixes_apart(k: Seq<char>)
    ensures
        "facets > attribute > "@.is_prefix_of(k) ==> !"filters > attribute > "@.is_prefix_of(k)
            && !"additional > "@.is_prefix_of(k),
        "filters > attribute > "@.is_prefix_of(k) ==> !"additional > "@.is_prefix_of(k),
{
    reveal_strlit("facets > attribute > ");
    reveal_strlit("filters > attribute > ");
    reveal_strlit("additional > ");
    assert("facets > attribute > "@.len() == 21 && "facets > attribute > "@[0] == 'f'
        && "facets > attribute > "@[1] == 'a');
    assert("filters > attribute > "@.len() == 22 && "filters > attribute > "@[0] == 'f'
        && "filters > attribute > "@[1] == 'i');
    assert("additional > "@.len() == 13 && "additional > "@[0] == 'a');
    if k.len() >= 2 {
        assert(k[0] == k.subrange(0, 13)[0] || k.len() < 13);
        assert(k[1] == k.subrange(0, 13)[1] || k.len() < 13);
    }
}

/// A key under one named prefix is in the hierarchy exactly when that name
/// is in the matching map with a time that is not zero, and then holds
/// that time.
proof fn lemma_named_entry(
    prefix: Seq<char>,
    named: Map<Seq<char>, u128>,
    name: Seq<char>,
    before: Map<Seq<char>, u128>,
    after: Map<Seq<char>, u128>,
)
    requires
        forall|k: Seq<char>| #[trigger] before.contains_key(k) ==> !prefix.is_prefix_of(k),
        forall|k: Seq<char>| #[trigger] after.contains_key(k) ==> !prefix.is_prefix_of(k),
    ensures
        before.union_prefer_right(prefixed_nonzero(prefix, named)).union_prefer_right(
            after,
        ).contains_key(prefix + name) == (named.contains_key(name) && named[name] != 0),
        named.contains_key(name) && named[name] != 0 ==> before.union_prefer_right(
            prefixed_nonzero(prefix, named),
        ).union_prefer_right(after)[prefix + name] == named[name],
{
    let key = prefix + name;
    assert(key.skip(prefix.len() as int) =~= name);
    assert(key.subrange(0, prefix.len() as int) =~= prefix);
    assert(prefix.is_prefix_of(key));
}

/// Each named timing (facet attribute, filtered attribute, other) is in the
/// hierarchy under its prefix exactly when it took some time, with that time.
pub proof fn law_named_timings_listed(t: SearchTiming, name: Seq<char>)
    ensures
        timing_hierarchy(t).contains_key("facets > attribute > "@ + name) == (timing_map(
            t.facet_attribute_timing,
        ).contains_key(name) && timing_map(t.facet_attribute_timing)[name] != 0),
        timing_hierarchy(t).contains_key("facets > attribute > "@ + name) ==> timing_hierarchy(
            t,
        )["facets > attribute > "@ + name] == timing_map(t.facet_attribute_timing)[name],
        timing_hierarchy(t).contains_key("filters > attribute > "@ + name) == (timing_map(
            t.filter_attribute_timing,
        ).contains_key(name) && timing_map(t.filter_attribute_timing)[name] != 0),
        timing_hierarchy(t).contains_key("filters > attribute > "@ + name) ==> timing_hierarchy(
            t,
        )["filters > attribute > "@ + name] == timing_map(t.filter_attribute_timing)[name],
        timing_hierarchy(t).contains_key("additional > "@ + name) == (timing_map(
            t.additional_timing,
        ).contains_key(name) && timing_map(t.additional_timing)[name] != 0),
        timing_hierarchy(t).contains_key("additional > "@ + name) ==> timing_hierarchy(
            t,
        )["additional > "@ + name] == timing_map(t.additional_timing)[name],
{
    let fa = "facets > attribute > "@;
    let fi = "filters > attribute > "@;
    let ad = "additional > "@;
    let fixed = phase_timings(t);
    let pa = prefixed_nonzero(fa, timing_map(t.facet_attribute_timing));
    let pi = prefixed_nonzero(fi, timing_map(t.filter_attribute_timing));
    let pd = prefixed_nonzero(ad, timing_map(t.additional_timing));
    let m0 = Map::<Seq<char>, u128>::empty().insert(
        "total_search"@,
        duration_as_nanos(t.total_search_time),
    );
    assert forall|k: Seq<char>| #[trigger] fixed.contains_key(k) implies !fa.is_prefix_of(k)
        && !fi.is_prefix_of(k) && !ad.is_prefix_of(k) by {
        lemma_put_phases_dom(m0, phase_paths(), phase_nanos(t), 33, k);
        lemma_fixed_paths_not_named(k);
    }
    assert forall|k: Seq<char>| #[trigger] pa.contains_key(k) implies !fi.is_prefix_of(k)
        && !ad.is_prefix_of(k) by {
        lemma_named_prefixes_apart(k);
    }
    assert forall|k: Seq<char>| #[trigger] pi.contains_key(k) implies !fa.is_prefix_of(k)
        && !ad.is_prefix_of(k) by {
        lemma_named_prefixes_apart(k);
    }
    assert forall|k: Seq<char>| #[trigger] pd.contains_key(k) implies !fa.is_prefix_of(k)
        && !fi.is_prefix_of(k) by {
        lemma_named_prefixes_apart(k);
    }
    let named_fa = timing_map(t.facet_attribute_timing);
    let named_fi = timing_map(t.filter_attribute_timing);
    let named_ad = timing_map(t.additional_timing);
    lemma_named_entry(fa, named_fa, name, fixed, pi.union_prefer_right(pd));
    lemma_named_entry(fi, named_fi, name, fixed.union_prefer_right(pa), pd);
    let before_ad = fixed.union_prefer_right(pa).union_prefer_right(pi);
    lemma_named_entry(ad, named_ad, name, before_ad, Map::<Seq<char>, u128>::empty());
    assert(fixed.union_prefer_right(pa).union_prefer_right(pi.union_prefer_right(pd))
        =~= timing_hierarchy(t));
    assert(fixed.union_prefer_right(pa).union_prefer_right(pi).union_prefer_right(pd).union_prefer_right(
        Map::<Seq<char>, u128>::empty(),
    ) =~= timing_hierarchy(t));
}

/// `path` is in the hierarchy `h` exactly when `nanos` is not zero, and then
/// maps to `nanos`.
pub open spec fn phase_recorded(h: Map<Seq<char>, u128>, path: Seq<char>, nanos: u128) -> bool {
    &&& h.contains_key(path) == (nanos != 0)
    &&& nanos != 0 ==> h[path] == nanos
}

/// Each timed phase of a search is filed under its own path, with its own
/// time, exactly when that time is not zero.
pub proof fn law_each_phase_under_its_path(t: SearchTiming)
    ensures
        phase_recorded(
            timing_hierarchy(t),
            "query_processing"@,
            duration_as_nanos(t.query_processing_time),
        ),
        phase_recorded(
            timing_hierarchy(t),
            "query_processing > parsing"@,
            duration_as_nanos(t.query_parsing_time),
        ),
        phase_recorded(
            timing_hierarchy(t),
            "query_processing > tree_build"@,
            duration_as_nanos(t.query_tree_build_time),
        ),
        phase_recorded(
            timing_hierarchy(t),
            "query_processing > tree_simplify"@,
            duration_as_nanos(t.query_tree_simplify_time),
        ),
        phase_recorded(
            timing_hierarchy(t),
            "query_processing > ranking_graph_build"@,
            duration_as_nanos(t.ranking_graph_build_time),
        ),
        phase_recorded(
            timing_hierarchy(t),
            "tokenization"@,
            duration_as_nanos(t.tokenization_time),
        ),
        phase_recorded(
            timing_hierarchy(t),
            "tokenization > tokenizer_build"@,
            duration_as_nanos(t.tokenizer_build_time),
        ),
        phase_recorded(
            timing_hierarchy(t),
            "search_execution"@,
            duration_as_nanos(t.search_execution_time),
        ),
        phase_recorded(
            timing_hierarchy(t),
            "search_execution > keyword_search"@,
            duration_as_nanos(t.keyword_search_time),
        ),
        phase_recorded(
            timing_hierarchy(t),
            "search_execution > vector_search"@,
            duration_as_nanos(t.vector_search_time),
        ),
        phase_recorded(
            timing_hierarchy(t),
            "search_execution > hybrid_search"@,
            duration_as_nanos(t.hybrid_search_time),
        ),
        phase_recorded(
            timing_hierarchy(t),
            "search_execution > embedding"@,
            duration_as_nanos(t.embedding_time),
        ),
        phase_recorded(
            timing_hierarchy(t),
            "search_execution > ranking > words"@,
            duration_as_nanos(t.words_ranking_time),
        ),
        phase_recorded(
            timing_hierarchy(t),
            "search_execution > ranking > typo"@,
            duration_as_nanos(t.typo_ranking_time),
        ),
        phase_recorded(
            timing_hierarchy(t),
            "search_execution > ranking > proximity"@,
            duration_as_nanos(t.proximity_ranking_time),
        ),
        phase_recorded(
            timing_hierarchy(t),
            "search_execution > ranking > attribute"@,
            duration_as_nanos(t.attribute_ranking_time),
        ),
        phase_recorded(
            timing_hierarchy(t),
            "search_execution > ranking > exactness"@,
            duration_as_nanos(t.exactness_ranking_time),
        ),
        phase_recorded(
            timing_hierarchy(t),
            "search_execution > ranking > sort"@,
            duration_as_nanos(t.sort_ranking_time),
        ),
        phase_recorded(
            timing_hierarchy(t),
            "search_execution > geo > sort"@,
            duration_as_nanos(t.geo_sort_time),
        ),
        phase_recorded(
            timing_hierarchy(t),
            "search_execution > geo > filter"@,
            duration_as_nanos(t.geo_filter_time),
        ),
        phase_recorded(
            timing_hierarchy(t),
            "search_execution > geo > sort > compute"@,
            duration_as_nanos(t.geo_sort_compute_time),
        ),
        phase_recorded(
            timing_hierarchy(t),
            "search_execution > geo > sort > bucket"@,
            duration_as_nanos(t.geo_bucket_sort_time),
        ),
        phase_recorded(
            timing_hierarchy(t),
            "search_execution > cache > lookup"@,
            duration_as_nanos(t.cache_lookup_time),
        ),
        phase_recorded(
            timing_hierarchy(t),
            "search_execution > database > read"@,
            duration_as_nanos(t.database_read_time),
        ),
        phase_recorded(
            timing_hierarchy(t),
            "search_execution > database > filter"@,
            duration_as_nanos(t.filter_application_time),
        ),
        phase_recorded(
            timing_hierarchy(t),
            "result_formatting"@,
            duration_as_nanos(t.result_formatting_time),
        ),
        phase_recorded(
            timing_hierarchy(t),
            "result_formatting > sorting"@,
            duration_as_nanos(t.result_sorting_time),
        ),
        phase_recorded(
            timing_hierarchy(t),
            "result_formatting > distinct"@,
            duration_as_nanos(t.distinct_processing_time),
        ),
        phase_recorded(
            timing_hierarchy(t),
            "result_formatting > pagination"@,
            duration_as_nanos(t.pagination_time),
        ),
        phase_recorded(
            timing_hierarchy(t),
            "facets > distribution"@,
            duration_as_nanos(t.facet_distribution_time),
        ),
        phase_recorded(
            timing_hierarchy(t),
            "facets > stats"@,
            duration_as_nanos(t.facet_stats_time),
        ),
        phase_recorded(
            timing_hierarchy(t),
            "facets > search"@,
            duration_as_nanos(t.facet_search_time),
        ),
{
    law_phase_listed_when_nonzero(t, 0);
    law_phase_listed_when_nonzero(t, 1);
    law_phase_listed_when_nonzero(t, 2);
    law_phase_listed_when_nonzero(t, 3);
    law_phase_listed_when_nonzero(t, 4);
    law_phase_listed_when_nonzero(t, 5);
    law_phase_listed_when_nonzero(t, 6);
    law_phase_listed_when_nonzero(t, 7);
    law_phase_listed_when_nonzero(t, 8);
    law_phase_listed_when_nonzero(t, 9);
    law_phase_listed_when_nonzero(t, 10);
    law_phase_listed_when_nonzero(t, 11);
    law_phase_listed_when_nonzero(t, 12);
    law_phase_listed_when_nonzero(t, 13);
    law_phase_listed_when_nonzero(t, 14);
    law_phase_listed_when_nonzero(t, 15);
    law_phase_listed_when_nonzero(t, 16);
    law_phase_listed_when_nonzero(t, 17);
    law_phase_listed_when_nonzero(t, 18);
    law_phase_listed_when_nonzero(t, 19);
    law_phase_listed_when_nonzero(t, 20);
    law_phase_listed_when_nonzero(t, 21);
    law_phase_listed_when_nonzero(t, 22);
    law_phase_listed_when_nonzero(t, 23);
    law_phase_listed_when_nonzero(t, 24);
    law_phase_listed_when_nonzero(t, 25);
    law_phase_listed_when_nonzero(t, 26);
    law_phase_listed_when_nonzero(t, 27);
    law_phase_listed_when_nonzero(t, 28);
    law_phase_listed_when_nonzero(t, 30);
    law_phase_listed_when_nonzero(t, 31);
    law_phase_listed_when_nonzero(t, 32);
}

} // verus!

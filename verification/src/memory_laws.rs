//! What holds of the memory store over whole histories of calls.

use vstd::prelude::*;
use crate::config::MemoryConfig;
use crate::memory::{
    admissible, after_set_fact, after_update_summary, appended, fact_map, has_key, initial_state,
    injection_text, key_index, keys_unique, lemma_key_index_unique,
    lemma_with_fact_keeps_keys_unique, rolled, set_fact_refused, trailing, with_fact,
    within_limits, Fact, MemoryState,
};

verus! {

/// While memory is disabled nothing is injected, whatever is stored.
pub proof fn lemma_disabled_injects_nothing(summary: Seq<char>, facts: Seq<Fact>)
    ensures
        injection_text(false, summary, facts) == Seq::<char>::empty(),
{
}

/// Something is injected exactly when memory is enabled and holds a summary
/// or a fact.
pub proof fn lemma_injection_empty_iff(enabled: bool, summary: Seq<char>, facts: Seq<Fact>)
    ensures
        injection_text(enabled, summary, facts).len() == 0 <==> !enabled || (summary.len() == 0
            && facts.len() == 0),
{
    reveal_strlit("[Summary: ");
    reveal_strlit("[Facts:");
    reveal_strlit("\n");
}

/// The limits hold of every store. Whatever document a store starts from,
/// it starts within the limits and without a repeated key: from the document
/// where the document is itself within the limits and without a repeated
/// key, and empty where it is not. An update of the summary and a fact set
/// both keep a memory within the limits and without a repeated key.
pub proof fn lemma_limits_are_kept(
    config: MemoryConfig,
    persisted: Option<MemoryState>,
    state: MemoryState,
    text: Seq<char>,
    key: Seq<char>,
    value: Seq<char>,
)
    requires
        config.enabled,
    ensures
        within_limits(config, initial_state(config, persisted)),
        keys_unique(initial_state(config, persisted).facts),
        initial_state(config, persisted) == (match persisted {
            Some(document) => if admissible(config, document) {
                document
            } else {
                MemoryState::empty()
            },
            None => MemoryState::empty(),
        }),
        after_update_summary(config, state, text).summary.len() <= config.max_summary_chars,
        within_limits(config, state) ==> within_limits(
            config,
            after_update_summary(config, state, text),
        ),
        keys_unique(state.facts) && within_limits(config, state) ==> within_limits(
            config,
            after_set_fact(config, state, key, value),
        ) && keys_unique(after_set_fact(config, state, key, value).facts),
{
    if keys_unique(state.facts) {
        lemma_with_fact_keeps_keys_unique(state.facts, key, value);
    }
}

/// The fact sequence behaves as a mapping: setting a fact is inserting into
/// the map from keys to values.
pub proof fn lemma_with_fact_is_insert(facts: Seq<Fact>, key: Seq<char>, value: Seq<char>)
    requires
        keys_unique(facts),
    ensures
        fact_map(with_fact(facts, key, value)) == fact_map(facts).insert(key, value),
{
    let after = with_fact(facts, key, value);
    lemma_with_fact_keeps_keys_unique(facts, key, value);
    let at = if has_key(facts, key) {
        key_index(facts, key)
    } else {
        facts.len() as int
    };
    assert(after[at] == (key, value));
    lemma_key_index_unique(after, key, at);
    assert forall|k: Seq<char>| has_key(after, k) <==> (k == key || has_key(facts, k)) by {
        if has_key(after, k) && k != key {
            let i = key_index(after, k);
            assert(after[i].0 == k);
            assert(i != at);
            assert(facts[i].0 == k);
        }
        if has_key(facts, k) && k != key {
            let i = key_index(facts, k);
            assert(facts[i].0 == k);
            assert(after[i].0 == k);
        }
    }
    assert forall|k: Seq<char>| has_key(facts, k) && k != key implies #[trigger] fact_map(
        after,
    )[k] == fact_map(facts)[k] by {
        let i = key_index(facts, k);
        assert(facts[i].0 == k);
        assert(after[i] == facts[i]);
        lemma_key_index_unique(after, k, i);
    }
    assert(fact_map(after) =~= fact_map(facts).insert(key, value));
}

/// Setting a fact twice with the same arguments is setting it once: the
/// second call is refused exactly when the first was, and it leaves the
/// memory, and so the number of facts and the document to persist, as the
/// first call left it.
pub proof fn lemma_set_fact_idempotent(
    config: MemoryConfig,
    state: MemoryState,
    key: Seq<char>,
    value: Seq<char>,
)
    requires
        keys_unique(state.facts),
    ensures
        ({
            let once = after_set_fact(config, state, key, value);
            let twice = after_set_fact(config, once, key, value);
            &&& twice == once
            &&& twice.facts.len() == once.facts.len()
            &&& set_fact_refused(config, once, key) == set_fact_refused(config, state, key)
        }),
{
    let once = after_set_fact(config, state, key, value);
    if config.enabled && !set_fact_refused(config, state, key) {
        lemma_with_fact_keeps_keys_unique(state.facts, key, value);
        let at = key_index(once.facts, key);
        assert(once.facts[at].0 == key);
        assert(once.facts[at] == (key, value)) by {
            if has_key(state.facts, key) {
                let first = key_index(state.facts, key);
                assert(once.facts[first] == (key, value));
                lemma_key_index_unique(once.facts, key, first);
            } else {
                lemma_key_index_unique(once.facts, key, state.facts.len() as int);
            }
        }
        assert(with_fact(once.facts, key, value) =~= once.facts);
    }
}

/// All of `texts` appended to `summary` one after the other, nothing cut.
pub open spec fn joined(summary: Seq<char>, texts: Seq<Seq<char>>) -> Seq<char>
    decreases texts.len(),
{
    if texts.len() == 0 {
        summary
    } else {
        appended(joined(summary, texts.drop_last()), texts.last())
    }
}

/// The memory after `update_summary` was called with each of `texts` in turn.
pub open spec fn after_updates(
    config: MemoryConfig,
    state: MemoryState,
    texts: Seq<Seq<char>>,
) -> MemoryState
    decreases texts.len(),
{
    if texts.len() == 0 {
        state
    } else {
        after_update_summary(config, after_updates(config, state, texts.drop_last()), texts.last())
    }
}

/// Cutting before appending loses nothing that cutting after appending
/// keeps.
pub proof fn lemma_roll_of_trailing(full: Seq<char>, text: Seq<char>, max: nat)
    ensures
        rolled(trailing(full, max), text, max) == rolled(full, text, max),
{
    reveal_strlit(" ");
    let kept = trailing(full, max);
    if full.len() > max {
        if max == 0 {
            assert(kept =~= Seq::<char>::empty());
            assert(rolled(kept, text, max) =~= Seq::<char>::empty());
            assert(rolled(full, text, max) =~= Seq::<char>::empty());
        } else {
            let short = kept + " "@ + text;
            let long = full + " "@ + text;
            assert(rolled(kept, text, max) == short.subrange(
                short.len() - max,
                short.len() as int,
            ));
            assert(rolled(full, text, max) == long.subrange(long.len() - max, long.len() as int));
            assert(short.subrange(short.len() - max, short.len() as int) =~= long.subrange(
                long.len() - max,
                long.len() as int,
            ));
        }
    }
}

/// The suffix law of the rolling summary. After any sequence of updates the
/// summary is the text of all of them appended in turn, cut to its last
/// `max_summary_chars` characters: character for character the trailing part
/// of the full concatenation, and never longer than the limit. The facts are
/// untouched. While memory is disabled, updates change nothing.
pub proof fn lemma_summary_suffix_law(
    config: MemoryConfig,
    state: MemoryState,
    texts: Seq<Seq<char>>,
)
    requires
        texts.len() > 0 || state.summary.len() <= config.max_summary_chars,
    ensures
        ({
            let after = after_updates(config, state, texts);
            &&& after.facts == state.facts
            &&& !config.enabled ==> after == state
            &&& config.enabled ==> after.summary == trailing(
                joined(state.summary, texts),
                config.max_summary_chars as nat,
            )
            &&& config.enabled ==> after.summary.len() <= config.max_summary_chars
        }),
    decreases texts.len(),
{
    let max = config.max_summary_chars as nat;
    if texts.len() == 1 {
        assert(texts.drop_last().len() == 0);
        assert(after_updates(config, state, texts.drop_last()) == state);
        assert(joined(state.summary, texts.drop_last()) == state.summary);
    } else if texts.len() > 1 {
        lemma_summary_suffix_law(config, state, texts.drop_last());
        lemma_roll_of_trailing(joined(state.summary, texts.drop_last()), texts.last(), max);
    }
}

/// The memory after `set_fact` was called with each of `entries` in turn.
pub open spec fn after_facts(
    config: MemoryConfig,
    state: MemoryState,
    entries: Seq<Fact>,
) -> MemoryState
    decreases entries.len(),
{
    if entries.len() == 0 {
        state
    } else {
        after_set_fact(
            config,
            after_facts(config, state, entries.drop_last()),
            entries.last().0,
            entries.last().1,
        )
    }
}

/// Setting facts with distinct keys in an empty store, no more of them than
/// the store may hold, stores each of them.
pub proof fn lemma_distinct_keys_fill(config: MemoryConfig, entries: Seq<Fact>)
    requires
        config.enabled,
        keys_unique(entries),
        entries.len() <= config.max_kv_entries,
    ensures
        after_facts(config, MemoryState::empty(), entries).facts == entries,
        after_facts(config, MemoryState::empty(), entries).summary == Seq::<char>::empty(),
    decreases entries.len(),
{
    if entries.len() > 0 {
        let before = entries.drop_last();
        assert forall|i: int, j: int| 0 <= i < j < before.len() implies (#[trigger] before[i]).0
            != (#[trigger] before[j]).0 by {
            assert(entries[i].0 != entries[j].0);
        }
        lemma_distinct_keys_fill(config, before);
        let key = entries.last().0;
        assert(!has_key(before, key)) by {
            if has_key(before, key) {
                let i = key_index(before, key);
                assert(entries[i].0 != entries[entries.len() - 1].0);
            }
        }
        assert(before.push(entries.last()) =~= entries);
    }
}

/// The capacity law. A store that holds as many keys as it may refuses every
/// key that it does not hold, and accepts every key that it holds.
pub proof fn lemma_full_store(config: MemoryConfig, state: MemoryState, key: Seq<char>)
    requires
        config.enabled,
        state.facts.len() == config.max_kv_entries,
    ensures
        set_fact_refused(config, state, key) <==> !has_key(state.facts, key),
{
}

/// The capacity law from an empty store. Once exactly `max_kv_entries`
/// distinct keys have been set, the store holds them all; a further key is
/// refused exactly when it is a new one, and each of the keys set can be set
/// again, which leaves the number of facts as it is.
pub proof fn lemma_capacity_law(
    config: MemoryConfig,
    entries: Seq<Fact>,
    key: Seq<char>,
    value: Seq<char>,
)
    requires
        config.enabled,
        keys_unique(entries),
        entries.len() == config.max_kv_entries,
    ensures
        ({
            let full = after_facts(config, MemoryState::empty(), entries);
            &&& full.facts == entries
            &&& set_fact_refused(config, full, key) <==> !has_key(entries, key)
            &&& !has_key(entries, key) ==> after_set_fact(config, full, key, value) == full
            &&& has_key(entries, key) ==> after_set_fact(config, full, key, value).facts.len()
                == config.max_kv_entries
        }),
{
    lemma_distinct_keys_fill(config, entries);
    lemma_with_fact_keeps_keys_unique(entries, key, value);
}

} // verus!

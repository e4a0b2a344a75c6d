//! The memory store: one rolling summary and a map of facts, both bounded,
//! and the text that carries them into a prompt.
//!
//! The store itself never touches storage. Its owner hands it the persisted
//! document at construction, and after each mutation takes the document to
//! write from `snapshot`.

use vstd::prelude::*;
use vstd::string::*;
use crate::config::MemoryConfig;
use crate::error::EngineError;

verus! {

/// A fact as the contracts see it: its key and its value.
pub type Fact = (Seq<char>, Seq<char>);

/// The memory as the contracts see it: the summary, and the facts in the
/// order in which their keys were first set.
pub struct MemoryState {
    pub summary: Seq<char>,
    pub facts: Seq<Fact>,
}

impl MemoryState {
    /// The memory that holds nothing.
    pub open spec fn empty() -> MemoryState {
        MemoryState { summary: Seq::empty(), facts: Seq::empty() }
    }
}

/// Whether some fact of `facts` has the key `key`.
pub open spec fn has_key(facts: Seq<Fact>, key: Seq<char>) -> bool {
    exists|i: int| 0 <= i < facts.len() && (#[trigger] facts[i]).0 == key
}

/// An index at which `facts` holds the key `key`, where there is one.
pub open spec fn key_index(facts: Seq<Fact>, key: Seq<char>) -> int {
    choose|i: int| 0 <= i < facts.len() && (#[trigger] facts[i]).0 == key
}

/// Whether no key occurs twice in `facts`.
pub open spec fn keys_unique(facts: Seq<Fact>) -> bool {
    forall|i: int, j: int|
        0 <= i < j < facts.len() ==> (#[trigger] facts[i]).0 != (#[trigger] facts[j]).0
}

/// `facts` after `key` is set to `value`: the value is replaced where the key
/// is present, and the fact is added at the end where it is not.
pub open spec fn with_fact(facts: Seq<Fact>, key: Seq<char>, value: Seq<char>) -> Seq<Fact> {
    if has_key(facts, key) {
        facts.update(key_index(facts, key), (key, value))
    } else {
        facts.push((key, value))
    }
}

/// The facts as a mapping from key to value.
pub open spec fn fact_map(facts: Seq<Fact>) -> Map<Seq<char>, Seq<char>> {
    Map::new(|key: Seq<char>| has_key(facts, key), |key: Seq<char>| facts[key_index(facts, key)].1)
}

/// `summary` with `text` appended: after a single space, or as it is where
/// the summary was empty.
pub open spec fn appended(summary: Seq<char>, text: Seq<char>) -> Seq<char> {
    if summary.len() == 0 {
        text
    } else {
        summary + " "@ + text
    }
}

/// The last `max` characters of `s`, or all of `s` where it has no more.
pub open spec fn trailing(s: Seq<char>, max: nat) -> Seq<char> {
    if s.len() > max {
        s.subrange(s.len() - max, s.len() as int)
    } else {
        s
    }
}

/// The summary after one update: `text` appended, then cut to the last `max`
/// characters.
pub open spec fn rolled(summary: Seq<char>, text: Seq<char>, max: nat) -> Seq<char> {
    trailing(appended(summary, text), max)
}

/// The line that carries the summary: nothing for an empty summary.
pub open spec fn summary_line(summary: Seq<char>) -> Seq<char> {
    if summary.len() == 0 {
        Seq::empty()
    } else {
        "[Summary: "@ + summary + "]\n"@
    }
}

/// The facts written one after the other, each as ` key=value;`.
pub open spec fn fact_items(facts: Seq<Fact>) -> Seq<char>
    decreases facts.len(),
{
    if facts.len() == 0 {
        Seq::empty()
    } else {
        fact_items(facts.drop_last()) + " "@ + facts.last().0 + "="@ + facts.last().1 + ";"@
    }
}

/// The line that carries the facts: nothing where there are none.
pub open spec fn facts_line(facts: Seq<Fact>) -> Seq<char> {
    if facts.len() == 0 {
        Seq::empty()
    } else {
        "[Facts:"@ + fact_items(facts) + "]\n"@
    }
}

/// The text put in front of a prompt: nothing while memory is disabled or
/// empty, else the summary line and the facts line, those of them that there
/// are, and a blank line.
pub open spec fn injection_text(enabled: bool, summary: Seq<char>, facts: Seq<Fact>) -> Seq<
    char,
> {
    let lines = summary_line(summary) + facts_line(facts);
    if !enabled || lines.len() == 0 {
        Seq::empty()
    } else {
        lines + "\n"@
    }
}

/// Whether a memory is within the limits of `config`: the summary no longer
/// than `max_summary_chars` characters, and no more than `max_kv_entries`
/// facts.
pub open spec fn within_limits(config: MemoryConfig, state: MemoryState) -> bool {
    &&& state.summary.len() <= config.max_summary_chars
    &&& state.facts.len() <= config.max_kv_entries
}

/// Whether a persisted document can be the state of a store made with
/// `config`: it is a mapping, that is, it holds no key twice, and it is
/// within the limits of `config`.
pub open spec fn admissible(config: MemoryConfig, document: MemoryState) -> bool {
    keys_unique(document.facts) && within_limits(config, document)
}

/// The state a store starts from: the persisted document where memory is
/// enabled, a document was found and it is admissible; the empty memory in
/// every other case. A document that holds a key twice or that is beyond the
/// configured limits is treated like one that cannot be read: nothing is cut
/// out of it, and the store starts empty.
pub open spec fn initial_state(
    config: MemoryConfig,
    persisted: Option<MemoryState>,
) -> MemoryState {
    match persisted {
        Some(document) => if config.enabled && admissible(config, document) {
            document
        } else {
            MemoryState::empty()
        },
        None => MemoryState::empty(),
    }
}

/// The memory after `update_summary(text)`: untouched while memory is
/// disabled, else with the summary rolled.
pub open spec fn after_update_summary(
    config: MemoryConfig,
    state: MemoryState,
    text: Seq<char>,
) -> MemoryState {
    if config.enabled {
        MemoryState {
            summary: rolled(state.summary, text, config.max_summary_chars as nat),
            facts: state.facts,
        }
    } else {
        state
    }
}

/// Whether `set_fact` with `key` is refused: memory is enabled, the fact map
/// already holds the configured number of keys, and `key` is not one of them.
pub open spec fn set_fact_refused(
    config: MemoryConfig,
    state: MemoryState,
    key: Seq<char>,
) -> bool {
    config.enabled && state.facts.len() >= config.max_kv_entries && !has_key(state.facts, key)
}

/// The memory after `set_fact(key, value)`: untouched while memory is
/// disabled or where the call is refused, else with the fact set.
pub open spec fn after_set_fact(
    config: MemoryConfig,
    state: MemoryState,
    key: Seq<char>,
    value: Seq<char>,
) -> MemoryState {
    if !config.enabled || set_fact_refused(config, state, key) {
        state
    } else {
        MemoryState { summary: state.summary, facts: with_fact(state.facts, key, value) }
    }
}

/// The stored facts as the contracts see them.
pub open spec fn facts_of(entries: Seq<(String, String)>) -> Seq<Fact> {
    Seq::new(entries.len(), |i: int| (entries[i].0@, entries[i].1@))
}

/// The persisted document: the summary and the facts, each key once.
#[derive(Debug, Clone)]
pub struct MemoryData {
    pub summary: String,
    pub kv_store: Vec<(String, String)>,
}

impl View for MemoryData {
    type V = MemoryState;

    open spec fn view(&self) -> MemoryState {
        MemoryState { summary: self.summary@, facts: facts_of(self.kv_store@) }
    }
}

/// Looks `key` up among `entries`.
fn find_key(entries: &Vec<(String, String)>, key: &String) -> (found: Option<usize>)
    ensures
        match found {
            Some(i) => i < entries@.len() && facts_of(entries@)[i as int].0 == key@,
            None => !has_key(facts_of(entries@), key@),
        },
{
    let mut i: usize = 0;
    while i < entries.len()
        invariant
            i <= entries@.len(),
            forall|j: int| 0 <= j < i ==> (#[trigger] facts_of(entries@)[j]).0 != key@,
        decreases entries@.len() - i,
    {
        if entries[i].0 == *key {
            return Some(i);
        }
        i = i + 1;
    }
    None
}

/// Appends copies of the entries of `entries` from index `from` up to, not
/// including, index `to` to `out`.
fn copy_entries(
    entries: &Vec<(String, String)>,
    from: usize,
    to: usize,
    out: &mut Vec<(String, String)>,
)
    requires
        from <= to <= entries@.len(),
    ensures
        facts_of(final(out)@) == facts_of(old(out)@) + facts_of(entries@).subrange(
            from as int,
            to as int,
        ),
{
    let mut i: usize = from;
    while i < to
        invariant
            from <= i <= to <= entries@.len(),
            facts_of(out@) == facts_of(old(out)@) + facts_of(entries@).subrange(
                from as int,
                i as int,
            ),
        decreases to - i,
    {
        let ghost before = out@;
        out.push((entries[i].0.clone(), entries[i].1.clone()));
        assert(facts_of(out@) =~= facts_of(before).push(facts_of(entries@)[i as int]));
        assert(facts_of(out@) =~= facts_of(old(out)@) + facts_of(entries@).subrange(
            from as int,
            i + 1,
        ));
        i = i + 1;
    }
}

/// Decides whether no key occurs twice among `entries`.
fn all_keys_unique(entries: &Vec<(String, String)>) -> (unique: bool)
    ensures
        unique == keys_unique(facts_of(entries@)),
{
    let ghost facts = facts_of(entries@);
    let mut j: usize = 0;
    while j < entries.len()
        invariant
            j <= entries@.len(),
            facts == facts_of(entries@),
            forall|a: int, b: int|
                0 <= a < b < j ==> (#[trigger] facts[a]).0 != (#[trigger] facts[b]).0,
        decreases entries@.len() - j,
    {
        let mut i: usize = 0;
        while i < j
            invariant
                i <= j < entries@.len(),
                facts == facts_of(entries@),
                forall|a: int| 0 <= a < i ==> (#[trigger] facts[a]).0 != facts[j as int].0,
            decreases j - i,
        {
            if entries[i].0 == entries[j].0 {
                assert(facts[i as int].0 == facts[j as int].0);
                return false;
            }
            i = i + 1;
        }
        j = j + 1;
    }
    true
}

/// The bounded, persisted context of the engine.
pub struct MemoryManager {
    config: MemoryConfig,
    data: MemoryData,
}

impl MemoryManager {
    /// The configuration the store was made with.
    pub closed spec fn config(&self) -> MemoryConfig {
        self.config
    }

    /// What the store holds.
    pub closed spec fn state(&self) -> MemoryState {
        self.data@
    }

    /// The text that the store injects, as `get_injection_text` returns it.
    pub open spec fn injection(&self) -> Seq<char> {
        injection_text(self.config().enabled, self.state().summary, self.state().facts)
    }

    /// Whether summary and facts are within the configured limits, as far as
    /// the limits apply, that is, while memory is enabled.
    pub open spec fn bounded(&self) -> bool {
        self.config().enabled ==> within_limits(self.config(), self.state())
    }

    /// The invariant of the store: no key is held twice, and while memory is
    /// enabled the summary and the facts are within the configured limits.
    /// It holds of every store: `new` establishes it and every operation
    /// keeps it.
    pub open spec fn wf(&self) -> bool {
        keys_unique(self.state().facts) && self.bounded()
    }

    #[verifier::type_invariant]
    spec fn inv(self) -> bool {
        self.wf()
    }

    /// Makes the store. `persisted` is the document found at the configured
    /// location, `None` where there is none or it cannot be read or parsed.
    /// The store never fails to start: a document that cannot be its state,
    /// because it holds a key twice or is beyond the configured limits, is
    /// passed over like a missing one, and the store starts empty.
    pub fn new(config: MemoryConfig, persisted: Option<MemoryData>) -> (store: Self)
        ensures
            store.wf(),
            store.config() == config,
            store.state() == initial_state(
                config,
                match persisted {
                    Some(document) => Some(document@),
                    None => None,
                },
            ),
    {
        match persisted {
            Some(document) => {
                if config.enabled && document.summary.as_str().unicode_len()
                    <= config.max_summary_chars && document.kv_store.len()
                    <= config.max_kv_entries && all_keys_unique(&document.kv_store) {
                    return MemoryManager { config, data: document };
                }
            },
            None => {},
        }
        let data = MemoryData { summary: String::new(), kv_store: Vec::new() };
        assert(data@.facts =~= Seq::<Fact>::empty());
        MemoryManager { config, data }
    }

    /// The text to put in front of a prompt. A pure read: it never fails and
    /// changes nothing.
    pub fn get_injection_text(&self) -> (text: String)
        ensures
            self.wf(),
            text@ == self.injection(),
            !self.config().enabled ==> text@.len() == 0,
    {
        proof {
            use_type_invariant(self);
        }
        let mut text = String::new();
        if !self.config.enabled {
            return text;
        }
        if !self.data.summary.as_str().is_empty() {
            text.append("[Summary: ");
            text.append(self.data.summary.as_str());
            text.append("]\n");
        }
        assert(text@ =~= summary_line(self.data@.summary));
        if self.data.kv_store.len() > 0 {
            let ghost facts = self.data@.facts;
            let ghost head = text@;
            text.append("[Facts:");
            let mut i: usize = 0;
            while i < self.data.kv_store.len()
                invariant
                    i <= self.data.kv_store@.len(),
                    facts == facts_of(self.data.kv_store@),
                    text@ == head + "[Facts:"@ + fact_items(facts.subrange(0, i as int)),
                decreases self.data.kv_store@.len() - i,
            {
                let ghost before = text@;
                text.append(" ");
                text.append(self.data.kv_store[i].0.as_str());
                text.append("=");
                text.append(self.data.kv_store[i].1.as_str());
                text.append(";");
                proof {
                    let upto = facts.subrange(0, i + 1);
                    assert(upto.drop_last() =~= facts.subrange(0, i as int));
                    assert(upto.last() == facts[i as int]);
                    assert(text@ =~= head + "[Facts:"@ + fact_items(upto));
                }
                i = i + 1;
            }
            text.append("]\n");
            assert(facts.subrange(0, i as int) =~= facts);
            assert(text@ =~= summary_line(self.data@.summary) + facts_line(facts));
        } else {
            assert(text@ =~= summary_line(self.data@.summary) + facts_line(self.data@.facts));
        }
        if !text.as_str().is_empty() {
            text.append("\n");
        }
        text
    }

    /// Appends `text` to the rolling summary and keeps its last
    /// `max_summary_chars` characters. Does nothing while memory is disabled.
    /// Never fails.
    pub fn update_summary(&mut self, text: &str) -> (outcome: Result<(), EngineError>)
        ensures
            final(self).wf(),
            outcome is Ok,
            final(self).config() == old(self).config(),
            final(self).state() == after_update_summary(
                old(self).config(),
                old(self).state(),
                text@,
            ),
    {
        proof {
            use_type_invariant(&*self);
        }
        if !self.config.enabled {
            return Ok(());
        }
        let mut summary = self.data.summary.clone();
        if !summary.as_str().is_empty() {
            summary.append(" ");
        }
        summary.append(text);
        assert(summary@ =~= appended(self.data.summary@, text@));
        let length = summary.as_str().unicode_len();
        if length > self.config.max_summary_chars {
            let start = length - self.config.max_summary_chars;
            let kept = String::from_str(summary.as_str().substring_char(start, length));
            self.data.summary = kept;
        } else {
            self.data.summary = summary;
        }
        Ok(())
    }

    /// Sets the fact `key` to `value`. Does nothing while memory is disabled.
    /// Refused, with `CapacityExceeded`, exactly when the fact map holds
    /// `max_kv_entries` keys and `key` is not one of them: a key that is
    /// present can always be set again.
    pub fn set_fact(&mut self, key: &str, value: &str) -> (outcome: Result<(), EngineError>)
        ensures
            final(self).wf(),
            outcome is Err <==> set_fact_refused(old(self).config(), old(self).state(), key@),
            outcome matches Err(e) ==> e == EngineError::CapacityExceeded,
            final(self).config() == old(self).config(),
            final(self).state() == after_set_fact(
                old(self).config(),
                old(self).state(),
                key@,
                value@,
            ),
    {
        proof {
            use_type_invariant(&*self);
        }
        if !self.config.enabled {
            return Ok(());
        }
        let key = String::from_str(key);
        let value = String::from_str(value);
        let ghost facts = self.data@.facts;
        let count = self.data.kv_store.len();
        // The new list is built beside the old one and put in its place in
        // one assignment, so that the invariant holds at every step.
        let mut entries: Vec<(String, String)> = Vec::new();
        match find_key(&self.data.kv_store, &key) {
            Some(i) => {
                proof {
                    lemma_key_index_unique(facts, key@, i as int);
                    lemma_with_fact_keeps_keys_unique(facts, key@, value@);
                }
                assert(facts_of(entries@) =~= Seq::<Fact>::empty());
                copy_entries(&self.data.kv_store, 0, i, &mut entries);
                let ghost head = entries@;
                entries.push((key, value));
                assert(facts_of(entries@) =~= facts_of(head).push((key@, value@)));
                copy_entries(&self.data.kv_store, i + 1, count, &mut entries);
                assert(facts_of(entries@) =~= facts.update(i as int, (key@, value@)));
            },
            None => {
                if count >= self.config.max_kv_entries {
                    return Err(EngineError::CapacityExceeded);
                }
                proof {
                    lemma_with_fact_keeps_keys_unique(facts, key@, value@);
                }
                assert(facts_of(entries@) =~= Seq::<Fact>::empty());
                copy_entries(&self.data.kv_store, 0, count, &mut entries);
                let ghost head = entries@;
                assert(facts_of(head) =~= facts);
                entries.push((key, value));
                assert(facts_of(entries@) =~= facts_of(head).push((key@, value@)));
            },
        }
        self.data.kv_store = entries;
        Ok(())
    }

    /// The document to persist after a mutation: the whole state while memory
    /// is enabled, nothing while it is disabled.
    pub fn snapshot(&self) -> (document: Option<MemoryData>)
        ensures
            self.wf(),
            document is Some <==> self.config().enabled,
            document matches Some(data) ==> data@ == self.state(),
    {
        proof {
            use_type_invariant(self);
        }
        if !self.config.enabled {
            return None;
        }
        let mut entries: Vec<(String, String)> = Vec::new();
        assert(facts_of(entries@) =~= Seq::<Fact>::empty());
        copy_entries(&self.data.kv_store, 0, self.data.kv_store.len(), &mut entries);
        let data = MemoryData { summary: self.data.summary.clone(), kv_store: entries };
        assert(data@.facts =~= self.data@.facts);
        Some(data)
    }
}

/// In a fact sequence without a repeated key, a key is held at one index
/// only.
pub proof fn lemma_key_index_unique(facts: Seq<Fact>, key: Seq<char>, i: int)
    requires
        keys_unique(facts),
        0 <= i < facts.len(),
        facts[i].0 == key,
    ensures
        has_key(facts, key),
        key_index(facts, key) == i,
{
    let chosen = key_index(facts, key);
    if chosen < i {
        assert(facts[chosen].0 != facts[i].0);
    } else if i < chosen {
        assert(facts[i].0 != facts[chosen].0);
    }
}

/// Setting a fact keeps every key single.
pub proof fn lemma_with_fact_keeps_keys_unique(facts: Seq<Fact>, key: Seq<char>, value: Seq<char>)
    requires
        keys_unique(facts),
    ensures
        keys_unique(with_fact(facts, key, value)),
        has_key(with_fact(facts, key, value), key),
        has_key(facts, key) ==> with_fact(facts, key, value).len() == facts.len(),
        !has_key(facts, key) ==> with_fact(facts, key, value).len() == facts.len() + 1,
{
    let after = with_fact(facts, key, value);
    if has_key(facts, key) {
        let at = key_index(facts, key);
        assert forall|i: int, j: int| 0 <= i < j < after.len() implies (#[trigger] after[i]).0
            != (#[trigger] after[j]).0 by {
            assert(facts[i].0 != facts[j].0);
        }
        assert(after[at].0 == key);
    } else {
        assert forall|i: int, j: int| 0 <= i < j < after.len() implies (#[trigger] after[i]).0
            != (#[trigger] after[j]).0 by {
            if j < facts.len() {
                assert(facts[i].0 != facts[j].0);
            } else {
                assert(facts[i].0 != key);
            }
        }
        assert(after[facts.len() as int].0 == key);
    }
}

} // verus!

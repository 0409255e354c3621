//! Display-name resolution with a bounded least-recently-used cache.
//!
//! The cache itself is `lru::LruCache`, held behind trusted wrappers whose
//! contracts describe it as a recency-ordered sequence of entries, most
//! recent first. Everything around the cache — hit handling, fallback-name
//! synthesis, what gets cached and what does not — is verified against
//! that model.
//!
//! The external lookup itself (one network call per request, made by a
//! background worker) is the caller's: the resolver is handed the outcome
//! of that lookup and decides, verified, what name to answer with and
//! what to cache.

use vstd::prelude::*;
use vstd::string::StringExecFns;

verus! {

#[verifier::external_type_specification]
#[verifier::external_body]
pub struct ExLruDefaultHasher(lru::DefaultHasher);

#[verifier::external_type_specification]
#[verifier::external_body]
#[verifier::reject_recursive_types(K)]
#[verifier::reject_recursive_types(V)]
#[verifier::reject_recursive_types(S)]
pub struct ExLruCache<K, V, S>(lru::LruCache<K, V, S>);

/// The cache's entries as `(key, value)` pairs in recency order, most
/// recently used first.
pub uninterp spec fn cache_entries(c: lru::LruCache<u64, String>) -> Seq<(u64, Seq<char>)>;

/// The bound the cache was created with: it never holds more entries.
pub uninterp spec fn cache_cap(c: lru::LruCache<u64, String>) -> nat;

/// Whether some entry carries key `k`.
pub open spec fn has_key(es: Seq<(u64, Seq<char>)>, k: u64) -> bool {
    exists|i: int| 0 <= i < es.len() && es[i].0 == k
}

/// An index of the entry carrying key `k` (unique when keys are distinct).
pub open spec fn key_index(es: Seq<(u64, Seq<char>)>, k: u64) -> int {
    choose|i: int| 0 <= i < es.len() && es[i].0 == k
}

/// How one `put` of `(k, v)` reshapes the recency sequence: an existing
/// entry for `k` is replaced and promoted; otherwise the new entry goes
/// in front, evicting the least recently used entry if the cache is full.
pub open spec fn cache_put_model(
    es: Seq<(u64, Seq<char>)>,
    cap: nat,
    k: u64,
    v: Seq<char>,
) -> Seq<(u64, Seq<char>)> {
    if has_key(es, k) {
        seq![(k, v)] + es.remove(key_index(es, k))
    } else if es.len() < cap {
        seq![(k, v)] + es
    } else {
        seq![(k, v)] + es.drop_last()
    }
}

/// How one `get` hit of `k` reshapes the recency sequence: the entry is
/// promoted to the front, value unchanged.
pub open spec fn cache_promote_model(es: Seq<(u64, Seq<char>)>, k: u64) -> Seq<(u64, Seq<char>)> {
    seq![es[key_index(es, k)]] + es.remove(key_index(es, k))
}

/// Relies on `lru::LruCache::new`: an empty cache that holds at most
/// `cap` entries.
#[verifier::external_body]
fn cache_new(cap: usize) -> (c: lru::LruCache<u64, String>)
    requires
        1 <= cap,
    ensures
        cache_entries(c) == Seq::<(u64, Seq<char>)>::empty(),
        cache_cap(c) == cap,
{
    lru::LruCache::new(std::num::NonZeroUsize::new(cap).unwrap())
}

/// Relies on `lru::LruCache::get`: answers the entry's value and promotes
/// it to most recently used; a miss leaves the cache unchanged. The value
/// is handed back cloned.
#[verifier::external_body]
fn cache_get(c: &mut lru::LruCache<u64, String>, k: u64) -> (r: Option<String>)
    ensures
        cache_cap(*final(c)) == cache_cap(*old(c)),
        has_key(cache_entries(*old(c)), k) ==> r is Some && r->Some_0@ == cache_entries(
            *old(c),
        )[key_index(cache_entries(*old(c)), k)].1 && cache_entries(*final(c))
            == cache_promote_model(cache_entries(*old(c)), k),
        !has_key(cache_entries(*old(c)), k) ==> r is None && cache_entries(*final(c))
            == cache_entries(*old(c)),
{
    c.get(&k).cloned()
}

/// Relies on `lru::LruCache::peek`: answers the entry's value without
/// touching the recency order; the cache is only read. The value is
/// handed back cloned.
#[verifier::external_body]
fn cache_peek(c: &lru::LruCache<u64, String>, k: u64) -> (r: Option<String>)
    ensures
        has_key(cache_entries(*c), k) ==> r is Some && r->Some_0@ == cache_entries(
            *c,
        )[key_index(cache_entries(*c), k)].1,
        !has_key(cache_entries(*c), k) ==> r is None,
{
    c.peek(&k).cloned()
}

/// Relies on `lru::LruCache::put`: inserts or replaces the entry for `k`
/// as the most recently used, evicting the least recently used entry when
/// a new key arrives with the cache full.
#[verifier::external_body]
fn cache_put(c: &mut lru::LruCache<u64, String>, k: u64, v: String)
    ensures
        cache_cap(*final(c)) == cache_cap(*old(c)),
        cache_entries(*final(c)) == cache_put_model(
            cache_entries(*old(c)),
            cache_cap(*old(c)),
            k,
            v@,
        ),
{
    c.put(k, v);
}

/// Decimal digit `d` as a character.
pub open spec fn dec_digit(d: nat) -> char {
    if d == 0 {
        '0'
    } else if d == 1 {
        '1'
    } else if d == 2 {
        '2'
    } else if d == 3 {
        '3'
    } else if d == 4 {
        '4'
    } else if d == 5 {
        '5'
    } else if d == 6 {
        '6'
    } else if d == 7 {
        '7'
    } else if d == 8 {
        '8'
    } else {
        '9'
    }
}

/// The decimal digits of `n`, most significant first.
pub open spec fn dec_chars(n: nat) -> Seq<char>
    decreases n,
{
    if n < 10 {
        seq![dec_digit(n)]
    } else {
        dec_chars(n / 10) + seq![dec_digit(n % 10)]
    }
}

/// The synthesized name used when resolution fails or times out.
pub open spec fn fallback_chars(speaker: u64) -> Seq<char> {
    seq!['U', 's', 'e', 'r', '#'] + dec_chars(speaker as nat)
}

fn digit_str(d: u64) -> (r: &'static str)
    requires
        d < 10,
    ensures
        r@ == seq![dec_digit(d as nat)],
{
    if d == 0 {
        proof {
            reveal_strlit("0");
        }
        "0"
    } else if d == 1 {
        proof {
            reveal_strlit("1");
        }
        "1"
    } else if d == 2 {
        proof {
            reveal_strlit("2");
        }
        "2"
    } else if d == 3 {
        proof {
            reveal_strlit("3");
        }
        "3"
    } else if d == 4 {
        proof {
            reveal_strlit("4");
        }
        "4"
    } else if d == 5 {
        proof {
            reveal_strlit("5");
        }
        "5"
    } else if d == 6 {
        proof {
            reveal_strlit("6");
        }
        "6"
    } else if d == 7 {
        proof {
            reveal_strlit("7");
        }
        "7"
    } else if d == 8 {
        proof {
            reveal_strlit("8");
        }
        "8"
    } else {
        proof {
            reveal_strlit("9");
        }
        "9"
    }
}

/// Appends the decimal digits of `n` to `s`.
fn push_dec(s: &mut String, n: u64)
    ensures
        final(s)@ == old(s)@ + dec_chars(n as nat),
    decreases n,
{
    if n >= 10 {
        push_dec(s, n / 10);
    }
    let d = digit_str(n % 10);
    s.append(d);
    proof {
        assert(old(s)@ + dec_chars(n as nat) =~= s@);
    }
}

/// The deterministic stand-in name for a speaker whose lookup failed or
/// timed out: `User#` followed by the decimal speaker identity.
pub fn fallback_name(speaker: u64) -> (r: String)
    ensures
        r@ == fallback_chars(speaker),
{
    let mut s = String::from_str("User#");
    proof {
        reveal_strlit("User#");
        assert(s@ =~= seq!['U', 's', 'e', 'r', '#']);
    }
    push_dec(&mut s, speaker);
    proof {
        assert(s@ =~= fallback_chars(speaker));
    }
    s
}

/// No key occurs twice.
pub open spec fn distinct_keys(keys: Seq<u64>) -> bool {
    forall|i: int, j: int| 0 <= i < j < keys.len() ==> keys[i] != keys[j]
}

/// The cache contents after resolving, from empty, each of `keys` in
/// turn to the corresponding name, with no lookups in between.
pub open spec fn filled_from_empty(keys: Seq<u64>, names: Seq<Seq<char>>, cap: nat) -> Seq<
    (u64, Seq<char>),
>
    decreases keys.len(),
{
    if keys.len() == 0 {
        Seq::<(u64, Seq<char>)>::empty()
    } else {
        cache_put_model(
            filled_from_empty(keys.drop_last(), names.drop_last(), cap),
            cap,
            keys.last(),
            names.last(),
        )
    }
}

/// While the cache is not yet full, filling it with distinct keys stacks
/// them newest-first and evicts nothing.
proof fn lemma_fill_shape(keys: Seq<u64>, names: Seq<Seq<char>>, cap: nat)
    requires
        distinct_keys(keys),
        keys.len() <= cap,
        names.len() == keys.len(),
    ensures
        filled_from_empty(keys, names, cap).len() == keys.len(),
        forall|i: int|
            0 <= i < keys.len() ==> #[trigger] filled_from_empty(keys, names, cap)[i].0 == keys[
                keys.len() - 1 - i
            ],
    decreases keys.len(),
{
    if keys.len() > 0 {
        let n = keys.len() as int;
        let prev = filled_from_empty(keys.drop_last(), names.drop_last(), cap);
        lemma_fill_shape(keys.drop_last(), names.drop_last(), cap);
        assert(forall|i: int| 0 <= i < n - 1 ==> #[trigger] prev[i].0 == keys[n - 2 - i]);
        assert(!has_key(prev, keys.last())) by {
            assert(forall|i: int| 0 <= i < n - 1 ==> #[trigger] prev[i].0 != keys[n - 1]);
        }
        assert(filled_from_empty(keys, names, cap) == seq![(keys.last(), names.last())] + prev);
    }
}

/// Least-recently-used eviction: a cache of capacity `cap`, after
/// `cap + 1` resolutions of distinct speakers starting from empty with
/// no lookups in between, has dropped exactly the first-resolved,
/// never-reaccessed speaker; every later speaker is still cached.
pub proof fn lemma_lru_eviction(keys: Seq<u64>, names: Seq<Seq<char>>, cap: nat)
    requires
        1 <= cap,
        keys.len() == cap + 1,
        names.len() == keys.len(),
        distinct_keys(keys),
    ensures
        !has_key(filled_from_empty(keys, names, cap), keys[0]),
        forall|i: int| 1 <= i <= cap ==> has_key(filled_from_empty(keys, names, cap), keys[i]),
{
    let n = keys.len() as int;
    let prev = filled_from_empty(keys.drop_last(), names.drop_last(), cap);
    lemma_fill_shape(keys.drop_last(), names.drop_last(), cap);
    assert(prev.len() == cap);
    assert(forall|i: int| 0 <= i < cap ==> #[trigger] prev[i].0 == keys[cap - 1 - i]);
    assert(!has_key(prev, keys.last())) by {
        assert(forall|i: int| 0 <= i < cap ==> #[trigger] prev[i].0 != keys[n - 1]);
    }
    let full = filled_from_empty(keys, names, cap);
    assert(full == seq![(keys.last(), names.last())] + prev.drop_last());
    assert(full.len() == cap);
    assert(!has_key(full, keys[0])) by {
        assert forall|j: int| 0 <= j < full.len() implies #[trigger] full[j].0 != keys[0] by {
            if j == 0 {
                assert(full[0].0 == keys[n - 1]);
            } else {
                assert(full[j].0 == prev[j - 1].0);
                assert(full[j].0 == keys[cap - j]);
            }
        }
    }
    assert forall|i: int| 1 <= i <= cap implies has_key(full, keys[i]) by {
        if i == cap {
            assert(full[0].0 == keys[i]);
        } else {
            assert(full[cap - i].0 == prev[cap - i - 1].0);
            assert(full[cap - i].0 == keys[i]);
        }
    }
}

/// What the external lookup came back with, if it came back in time.
pub enum LookupOutcome {
    /// The collaborator answered with the speaker's display name.
    Resolved(String),
    /// The collaborator answered with an error.
    Failed,
    /// No answer arrived within the wait bound; the in-flight request is
    /// abandoned.
    TimedOut,
}

/// Cache-backed resolver of speaker identity to display name.
pub struct NameResolver {
    cache: lru::LruCache<u64, String>,
}

impl NameResolver {
    /// The cached entries, most recently used first.
    pub closed spec fn entries(&self) -> Seq<(u64, Seq<char>)> {
        cache_entries(self.cache)
    }

    /// The cache's size bound.
    pub closed spec fn capacity(&self) -> nat {
        cache_cap(self.cache)
    }

    pub fn new(capacity: usize) -> (r: NameResolver)
        requires
            1 <= capacity,
        ensures
            r.entries() == Seq::<(u64, Seq<char>)>::empty(),
            r.capacity() == capacity,
    {
        NameResolver { cache: cache_new(capacity) }
    }

    /// The cached name for `speaker`, promoted to most recently used on a
    /// hit; `None` means the caller must dispatch an external lookup and
    /// later hand its outcome to [`Self::complete`].
    pub fn lookup_cached(&mut self, speaker: u64) -> (r: Option<String>)
        ensures
            final(self).capacity() == old(self).capacity(),
            has_key(old(self).entries(), speaker) ==> r is Some && r->Some_0@ == old(
                self,
            ).entries()[key_index(old(self).entries(), speaker)].1 && final(self).entries()
                == cache_promote_model(old(self).entries(), speaker),
            !has_key(old(self).entries(), speaker) ==> r is None && final(self).entries() == old(
                self,
            ).entries(),
    {
        cache_get(&mut self.cache, speaker)
    }

    /// The cached name for `speaker` without promotion: a read-only
    /// consultation that leaves the recency order as it is, for callers
    /// that may not mutate the cache.
    pub fn peek_cached(&self, speaker: u64) -> (r: Option<String>)
        ensures
            has_key(self.entries(), speaker) ==> r is Some && r->Some_0@ == self.entries()[key_index(
                self.entries(),
                speaker,
            )].1,
            !has_key(self.entries(), speaker) ==> r is None,
    {
        cache_peek(&self.cache, speaker)
    }

    /// Turns the outcome of an external lookup into the name to answer
    /// with. A resolved name is cached (evicting the least recently used
    /// entry if the cache is full); a failure or timeout yields the
    /// synthesized fallback name and is deliberately not cached, so a
    /// later resolution retries.
    pub fn complete(&mut self, speaker: u64, outcome: LookupOutcome) -> (name: String)
        ensures
            final(self).capacity() == old(self).capacity(),
            outcome matches LookupOutcome::Resolved(n) ==> name@ == n@ && final(self).entries()
                == cache_put_model(old(self).entries(), old(self).capacity(), speaker, n@),
            !(outcome is Resolved) ==> name@ == fallback_chars(speaker) && final(self).entries()
                == old(self).entries(),
    {
        match outcome {
            LookupOutcome::Resolved(n) => {
                let name = n.clone();
                cache_put(&mut self.cache, speaker, n);
                name
            },
            LookupOutcome::Failed => fallback_name(speaker),
            LookupOutcome::TimedOut => fallback_name(speaker),
        }
    }
}

} // verus!

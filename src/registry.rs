//! The platform registry: hardware signatures, each a comma-separated token set, mapped
//! to the platform that handles them. A query resolves to the first registered
//! signature whose tokens include all of the query's tokens.

use vstd::prelude::*;

use crate::error::FpgadError;
use crate::platform::PlatformType;
use crate::text::{concat3, contains, lemma_contains_middle, str_eq};

verus! {

/// `s[i..j]` is one of the comma-separated tokens of `s`.
pub open spec fn is_token_at(s: Seq<char>, i: int, j: int) -> bool {
    &&& 0 <= i <= j <= s.len()
    &&& (i == 0 || s[i - 1] == ',')
    &&& (j == s.len() || s[j] == ',')
    &&& forall|k: int| i <= k < j ==> s[k] != ','
}

/// `t` is one of the tokens of `s`.
pub open spec fn has_token(s: Seq<char>, t: Seq<char>) -> bool {
    exists|i: int, j: int| is_token_at(s, i, j) && s.subrange(i, j) == t
}

/// Every token of `query` is a token of `signature`; an empty query matches nothing.
pub open spec fn signature_matches(signature: Seq<char>, query: Seq<char>) -> bool {
    &&& query.len() > 0
    &&& forall|i: int, j: int| is_token_at(query, i, j) ==> has_token(
        signature,
        #[trigger] query.subrange(i, j),
    )
}

/// The index of the first entry whose signature matches `query`.
pub open spec fn first_match(entries: Seq<(Seq<char>, PlatformType)>, query: Seq<char>) -> Option<
    int,
> {
    if exists|k: int| 0 <= k < entries.len() && signature_matches(entries[k].0, query) {
        Some(
            choose|k: int|
                0 <= k < entries.len() && signature_matches(entries[k].0, query) && forall|
                    j: int,
                | 0 <= j < k ==> !signature_matches(#[trigger] entries[j].0, query),
        )
    } else {
        None
    }
}

/// The platform that `query` resolves to.
pub open spec fn resolve(entries: Seq<(Seq<char>, PlatformType)>, query: Seq<char>) -> Option<
    PlatformType,
> {
    match first_match(entries, query) {
        Some(k) => Some(entries[k].1),
        None => None,
    }
}

/// One registered signature.
#[derive(Debug, Clone)]
pub struct RegistryEntry {
    pub signature: String,
    pub platform: PlatformType,
}

/// The signatures registered so far, in order of first registration.
#[derive(Debug)]
pub struct PlatformRegistry {
    pub entries: Vec<RegistryEntry>,
}

impl View for PlatformRegistry {
    type V = Seq<(Seq<char>, PlatformType)>;

    open spec fn view(&self) -> Seq<(Seq<char>, PlatformType)> {
        self.entries@.map_values(|e: RegistryEntry| (e.signature@, e.platform))
    }
}

impl PlatformRegistry {
    /// No signature is registered twice.
    pub open spec fn wf(&self) -> bool {
        forall|i: int, j: int| 0 <= i < j < self@.len() ==> self@[i].0 != self@[j].0
    }
}

/// An empty registry.
pub fn init_platform_registry() -> (r: PlatformRegistry)
    ensures
        r@ == Seq::<(Seq<char>, PlatformType)>::empty(),
        r.wf(),
{
    let r = PlatformRegistry { entries: Vec::new() };
    assert(r@ =~= Seq::<(Seq<char>, PlatformType)>::empty());
    r
}

/// Registers `platform` under `compatible`. A signature registered before keeps its
/// place and takes the new platform; a new one goes last.
pub fn register_platform(registry: &mut PlatformRegistry, compatible: &str, platform: PlatformType)
    requires
        old(registry).wf(),
    ensures
        final(registry).wf(),
        forall|k: int|
            0 <= k < old(registry)@.len() && #[trigger] old(registry)@[k].0 == compatible@
                ==> final(registry)@ == old(registry)@.update(k, (compatible@, platform)),
        (forall|k: int| 0 <= k < old(registry)@.len() ==> #[trigger] old(registry)@[k].0
            != compatible@) ==> final(registry)@ == old(registry)@.push((compatible@, platform)),
{
    let n = registry.entries.len();
    let mut i: usize = 0;
    while i < n
        invariant
            n == registry.entries.len(),
            registry@ == old(registry)@,
            old(registry).wf(),
            i <= n,
            forall|k: int| 0 <= k < i ==> old(registry)@[k].0 != compatible@,
        decreases n - i,
    {
        if str_eq(registry.entries[i].signature.as_str(), compatible) {
            let ghost before = registry@;
            registry.entries.set(
                i,
                RegistryEntry { signature: String::from_str(compatible), platform },
            );
            proof {
                assert(before[i as int].0 == compatible@);
                assert(registry@ =~= before.update(i as int, (compatible@, platform)));
                assert forall|k: int| 0 <= k < before.len() && before[k].0 == compatible@ implies k
                    == i by {
                    if k != i {
                        if k < i {
                            assert(before[k].0 != before[i as int].0);
                        } else {
                            assert(before[i as int].0 != before[k].0);
                        }
                    }
                }
                assert forall|a: int, b: int| 0 <= a < b < registry@.len() implies registry@[a].0
                    != registry@[b].0 by {
                    assert(before[a].0 != before[b].0);
                }
            }
            return;
        }
        i = i + 1;
    }
    let ghost before = registry@;
    registry.entries.push(RegistryEntry { signature: String::from_str(compatible), platform });
    assert(registry@ =~= before.push((compatible@, platform)));
    assert forall|a: int, b: int| 0 <= a < b < registry@.len() implies registry@[a].0
        != registry@[b].0 by {
        if b < before.len() {
            assert(before[a].0 != before[b].0);
        } else {
            assert(before[a].0 != compatible@);
        }
    }
}

/// The end of the token that starts at `i`: the next comma, or the end of `s`.
fn token_end(s: &str, i: usize) -> (r: usize)
    requires
        i <= s@.len(),
    ensures
        i <= r <= s@.len(),
        r == s@.len() || s@[r as int] == ',',
        forall|k: int| i <= k < r ==> s@[k] != ',',
{
    let n = s.unicode_len();
    let mut j: usize = i;
    while j < n && s.get_char(j) != ','
        invariant
            i <= j <= n,
            n == s@.len(),
            forall|k: int| i <= k < j ==> s@[k] != ',',
        decreases n - j,
    {
        j = j + 1;
    }
    j
}

proof fn lemma_token_unique(s: Seq<char>, i: int, j: int, e: int)
    requires
        is_token_at(s, i, j),
        i <= e <= s.len(),
        e == s.len() || s[e] == ',',
        forall|k: int| i <= k < e ==> s[k] != ',',
    ensures
        j == e,
{
    if j < e {
        assert(s[j] == ',');
    }
    if e < j {
        assert(s[e] != ',');
    }
}

/// Whether `t` is one of the comma-separated tokens of `s`.
fn has_token_exec(s: &str, t: &str) -> (r: bool)
    ensures
        r == has_token(s@, t@),
{
    let n = s.unicode_len();
    let mut pos: usize = 0;
    loop
        invariant
            pos <= n,
            n == s@.len(),
            pos == 0 || s@[pos - 1] == ',',
            forall|i: int, j: int|
                is_token_at(s@, i, j) && i < pos ==> s@.subrange(i, j) != t@,
        decreases n - pos,
    {
        let e = token_end(s, pos);
        if str_eq(s.substring_char(pos, e), t) {
            assert(is_token_at(s@, pos as int, e as int));
            return true;
        }
        if e == n {
            assert forall|i: int, j: int| is_token_at(s@, i, j) implies s@.subrange(i, j) != t@ by {
                if i == pos {
                    lemma_token_unique(s@, i, j, e as int);
                } else if i > pos {
                    assert(s@[i - 1] == ',');
                }
            }
            return false;
        }
        proof {
            assert forall|i: int, j: int| is_token_at(s@, i, j) && i < e + 1 implies s@.subrange(
                i,
                j,
            ) != t@ by {
                if i == pos {
                    lemma_token_unique(s@, i, j, e as int);
                } else if pos < i {
                    assert(s@[i - 1] == ',');
                }
            }
        }
        pos = e + 1;
    }
}

/// Whether every token of `query` is a token of `signature`, and `query` is not empty.
pub fn signature_matches_exec(signature: &str, query: &str) -> (r: bool)
    ensures
        r == signature_matches(signature@, query@),
{
    let n = query.unicode_len();
    if n == 0 {
        return false;
    }
    let mut pos: usize = 0;
    loop
        invariant
            pos <= n,
            n == query@.len(),
            n > 0,
            pos == 0 || query@[pos - 1] == ',',
            forall|i: int, j: int|
                is_token_at(query@, i, j) && i < pos ==> has_token(
                    signature@,
                    #[trigger] query@.subrange(i, j),
                ),
        decreases n - pos,
    {
        let e = token_end(query, pos);
        let tok = query.substring_char(pos, e);
        if !has_token_exec(signature, tok) {
            assert(is_token_at(query@, pos as int, e as int));
            return false;
        }
        proof {
            assert forall|i: int, j: int| is_token_at(query@, i, j) && i <= pos implies has_token(
                signature@,
                #[trigger] query@.subrange(i, j),
            ) by {
                if i == pos {
                    lemma_token_unique(query@, i, j, e as int);
                }
            }
        }
        if e == n {
            assert forall|i: int, j: int| is_token_at(query@, i, j) implies has_token(
                signature@,
                #[trigger] query@.subrange(i, j),
            ) by {
                if i > pos {
                    assert(query@[i - 1] == ',');
                }
            }
            return true;
        }
        proof {
            assert forall|i: int, j: int| is_token_at(query@, i, j) && i < e + 1 implies has_token(
                signature@,
                #[trigger] query@.subrange(i, j),
            ) by {
                if pos < i {
                    assert(query@[i - 1] == ',');
                }
            }
        }
        pos = e + 1;
    }
}

/// Resolves a platform signature: the platform of the first registered signature that
/// has every token of `platform_string`; an `Argument` error when there is none.
pub fn match_platform_string(registry: &PlatformRegistry, platform_string: &str) -> (r: Result<
    PlatformType,
    FpgadError,
>)
    ensures
        match resolve(registry@, platform_string@) {
            Some(p) => r == Ok::<PlatformType, FpgadError>(p),
            None => r matches Err(FpgadError::Argument(m)) && contains(m@, platform_string@),
        },
{
    let n = registry.entries.len();
    let mut i: usize = 0;
    while i < n
        invariant
            n == registry.entries.len(),
            n == registry@.len(),
            i <= n,
            forall|k: int| 0 <= k < i ==> !signature_matches(#[trigger] registry@[k].0, platform_string@),
        decreases n - i,
    {
        let entry = &registry.entries[i];
        assert(registry@[i as int] == (entry.signature@, entry.platform));
        if signature_matches_exec(entry.signature.as_str(), platform_string) {
            proof {
                let es = registry@;
                let q = platform_string@;
                assert(exists|k: int| 0 <= k < es.len() && signature_matches(es[k].0, q));
                let c = choose|k: int|
                    0 <= k < es.len() && signature_matches(es[k].0, q) && forall|j: int|
                        0 <= j < k ==> !signature_matches(#[trigger] es[j].0, q);
                assert(0 <= i < es.len() && signature_matches(es[i as int].0, q) && forall|j: int|
                    0 <= j < i ==> !signature_matches(#[trigger] es[j].0, q));
                if c < i {
                } else if c > i {
                    assert(!signature_matches(es[i as int].0, q));
                }
                assert(c == i);
            }
            return Ok(entry.platform);
        }
        i = i + 1;
    }
    let m = concat3("FPGAd could not match ", platform_string, " to a known platform.");
    proof {
        lemma_contains_middle("FPGAd could not match "@, platform_string@, " to a known platform."@);
    }
    Err(FpgadError::Argument(m))
}

/// Resolution is monotonic: a non-empty query whose tokens all belong to a registered
/// signature resolves, and to that signature's platform when no earlier signature
/// matches it too.
pub proof fn lemma_resolve_covered(
    entries: Seq<(Seq<char>, PlatformType)>,
    query: Seq<char>,
    b: int,
)
    requires
        0 <= b < entries.len(),
        query.len() > 0,
        forall|i: int, j: int| is_token_at(query, i, j) ==> has_token(
            entries[b].0,
            #[trigger] query.subrange(i, j),
        ),
    ensures
        resolve(entries, query).is_some(),
        (forall|k: int| 0 <= k < b ==> !signature_matches(#[trigger] entries[k].0, query))
            ==> resolve(entries, query) == Some(entries[b].1),
{
    assert(signature_matches(entries[b].0, query));
    let m = lemma_least_match(entries, query, b);
    let c = first_match(entries, query).unwrap();
    if forall|k: int| 0 <= k < b ==> !signature_matches(#[trigger] entries[k].0, query) {
        if c < b {
            assert(!signature_matches(entries[c].0, query));
        } else if c > b {
            assert(!signature_matches(entries[b].0, query));
        }
    }
}

proof fn lemma_least_match(entries: Seq<(Seq<char>, PlatformType)>, query: Seq<char>, b: int) -> (m: int)
    requires
        0 <= b < entries.len(),
        signature_matches(entries[b].0, query),
    ensures
        0 <= m <= b,
        signature_matches(entries[m].0, query),
        forall|j: int| 0 <= j < m ==> !signature_matches(#[trigger] entries[j].0, query),
        first_match(entries, query).is_some(),
    decreases b,
{
    let m = if exists|j: int| 0 <= j < b && signature_matches(#[trigger] entries[j].0, query) {
        let j = choose|j: int| 0 <= j < b && signature_matches(#[trigger] entries[j].0, query);
        lemma_least_match(entries, query, j)
    } else {
        b
    };
    m
}

/// A query with a token that no registered signature has does not resolve.
pub proof fn lemma_resolve_unknown_token(
    entries: Seq<(Seq<char>, PlatformType)>,
    query: Seq<char>,
    i: int,
    j: int,
)
    requires
        is_token_at(query, i, j),
        forall|k: int| 0 <= k < entries.len() ==> !has_token(#[trigger] entries[k].0, query.subrange(i, j)),
    ensures
        resolve(entries, query).is_none(),
{
    assert forall|k: int| 0 <= k < entries.len() implies !signature_matches(#[trigger] entries[k].0, query) by {
        assert(!has_token(entries[k].0, query.subrange(i, j)));
    }
}

/// An empty query resolves to nothing.
pub proof fn lemma_resolve_empty(entries: Seq<(Seq<char>, PlatformType)>)
    ensures
        resolve(entries, Seq::<char>::empty()).is_none(),
{
}

} // verus!

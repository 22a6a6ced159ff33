//! The template cache. A template is looked for in the process's own map,
//! then in the shared cache, then in the durable store. An entry that has
//! outlived its time is never served: every read checks it.

use vstd::prelude::*;
use crate::templates::manager::WriteStep;
use crate::text::{same_text, text_of};

verus! {

/// A template as a cache tier holds it.
#[derive(Debug)]
pub struct CachedTemplate {
    pub content: String,
    /// When the entry was made, in milliseconds since the Unix epoch.
    pub compiled_at: i64,
    /// The seconds for which the entry may be served.
    pub ttl_seconds: i64,
    pub version: String,
}

/// What a cached template holds.
pub struct TemplateView {
    pub content: Seq<char>,
    pub compiled_at: i64,
    pub ttl_seconds: i64,
    pub version: Seq<char>,
}

impl TemplateView {
    /// Whether the entry has outlived its time at `now`: `now` is later than
    /// the time it was made plus its time to live.
    pub open spec fn expired_at(self, now: i64) -> bool {
        now > self.compiled_at + self.ttl_seconds * 1000
    }
}

impl View for CachedTemplate {
    type V = TemplateView;

    open spec fn view(&self) -> TemplateView {
        TemplateView {
            content: self.content@,
            compiled_at: self.compiled_at,
            ttl_seconds: self.ttl_seconds,
            version: self.version@,
        }
    }
}

impl CachedTemplate {
    /// Whether the entry has outlived its time at `now`.
    pub open spec fn expired_at(self, now: i64) -> bool {
        self@.expired_at(now)
    }

    /// Whether the entry may no longer be served at `now`, a time in
    /// milliseconds since the Unix epoch.
    pub fn is_expired(&self, now: i64) -> (expired: bool)
        ensures
            expired == self.expired_at(now),
    {
        let due: i128 = (self.compiled_at as i128) + (self.ttl_seconds as i128) * 1000;
        (now as i128) > due
    }

    /// A copy of the entry.
    pub fn duplicate(&self) -> (copy: CachedTemplate)
        ensures
            copy == *self,
    {
        CachedTemplate {
            content: self.content.clone(),
            compiled_at: self.compiled_at,
            ttl_seconds: self.ttl_seconds,
            version: self.version.clone(),
        }
    }
}

/// One template of a tier under its identifier.
#[derive(Debug)]
pub struct TierEntry {
    pub id: String,
    pub template: CachedTemplate,
}

/// No identifier occurs twice among `entries`.
pub open spec fn distinct_ids(entries: Seq<TierEntry>) -> bool {
    forall|i: int, j: int|
        0 <= i < j < entries.len() ==> (#[trigger] entries[i]).id@ != (#[trigger] entries[j]).id@
}

/// The template that `entries` hold under `id`, if any.
pub open spec fn lookup(entries: Seq<TierEntry>, id: Seq<char>) -> Option<CachedTemplate>
    decreases entries.len(),
{
    if entries.len() == 0 {
        None
    } else if entries.last().id@ == id {
        Some(entries.last().template)
    } else {
        lookup(entries.drop_last(), id)
    }
}

/// The identifiers under which `entries` hold a template.
pub open spec fn ids_of(entries: Seq<TierEntry>) -> Set<Seq<char>>
    decreases entries.len(),
{
    if entries.len() == 0 {
        Set::empty()
    } else {
        ids_of(entries.drop_last()).insert(entries.last().id@)
    }
}

proof fn lemma_lookup_absent(entries: Seq<TierEntry>, id: Seq<char>)
    ensures
        lookup(entries, id) is None <==> forall|j: int|
            0 <= j < entries.len() ==> (#[trigger] entries[j]).id@ != id,
        lookup(entries, id) is Some <==> ids_of(entries).contains(id),
        ids_of(entries).finite(),
    decreases entries.len(),
{
    if entries.len() > 0 {
        let rest = entries.drop_last();
        lemma_lookup_absent(rest, id);
        if entries.last().id@ != id {
            if lookup(rest, id) is None {
                assert forall|j: int| 0 <= j < entries.len() implies (#[trigger] entries[j]).id@
                    != id by {
                    if j < rest.len() {
                        assert(rest[j] == entries[j]);
                    }
                }
            } else {
                let j = choose|j: int| 0 <= j < rest.len() && (#[trigger] rest[j]).id@ == id;
                assert(entries[j] == rest[j]);
            }
        } else {
            assert(entries[entries.len() - 1].id@ == id);
        }
    }
}

proof fn lemma_lookup_present(entries: Seq<TierEntry>, i: int)
    requires
        distinct_ids(entries),
        0 <= i < entries.len(),
    ensures
        lookup(entries, entries[i].id@) == Some(entries[i].template),
    decreases entries.len(),
{
    let rest = entries.drop_last();
    if i < entries.len() - 1 {
        assert(entries[i].id@ != entries[entries.len() - 1].id@);
        assert(rest[i] == entries[i]);
        assert(distinct_ids(rest)) by {
            assert forall|a: int, b: int| 0 <= a < b < rest.len() implies (#[trigger] rest[a]).id@
                != (#[trigger] rest[b]).id@ by {
                assert(rest[a] == entries[a]);
                assert(rest[b] == entries[b]);
            }
        }
        lemma_lookup_present(rest, i);
    }
}

proof fn lemma_ids_count(entries: Seq<TierEntry>)
    requires
        distinct_ids(entries),
    ensures
        ids_of(entries).finite(),
        ids_of(entries).len() == entries.len(),
    decreases entries.len(),
{
    if entries.len() > 0 {
        let rest = entries.drop_last();
        assert(distinct_ids(rest)) by {
            assert forall|a: int, b: int| 0 <= a < b < rest.len() implies (#[trigger] rest[a]).id@
                != (#[trigger] rest[b]).id@ by {
                assert(rest[a] == entries[a]);
                assert(rest[b] == entries[b]);
            }
        }
        lemma_ids_count(rest);
        lemma_lookup_absent(rest, entries.last().id@);
        assert(!ids_of(rest).contains(entries.last().id@)) by {
            if lookup(rest, entries.last().id@) is Some {
                let j = choose|j: int|
                    0 <= j < rest.len() && (#[trigger] rest[j]).id@ == entries.last().id@;
                assert(rest[j] == entries[j]);
                assert(entries[j].id@ != entries[entries.len() - 1].id@);
            }
        }
    }
}

proof fn lemma_lookup_after_remove(entries: Seq<TierEntry>, i: int, id: Seq<char>)
    requires
        distinct_ids(entries),
        0 <= i < entries.len(),
    ensures
        distinct_ids(entries.remove(i)),
        lookup(entries.remove(i), id) == if id == entries[i].id@ {
            None
        } else {
            lookup(entries, id)
        },
{
    let kept = entries.remove(i);
    assert forall|a: int, b: int| 0 <= a < b < kept.len() implies (#[trigger] kept[a]).id@ != (
    #[trigger] kept[b]).id@ by {
        let source_a = if a < i {
            a
        } else {
            a + 1
        };
        let source_b = if b < i {
            b
        } else {
            b + 1
        };
        assert(kept[a] == entries[source_a]);
        assert(kept[b] == entries[source_b]);
    }
    lemma_lookup_absent(kept, id);
    lemma_lookup_absent(entries, id);
    if id == entries[i].id@ {
        assert forall|j: int| 0 <= j < kept.len() implies (#[trigger] kept[j]).id@ != id by {
            let source = if j < i {
                j
            } else {
                j + 1
            };
            assert(kept[j] == entries[source]);
            if source < i {
                assert(entries[source].id@ != entries[i].id@);
            } else {
                assert(entries[i].id@ != entries[source].id@);
            }
        }
    } else if lookup(entries, id) is None {
        assert forall|j: int| 0 <= j < kept.len() implies (#[trigger] kept[j]).id@ != id by {
            let source = if j < i {
                j
            } else {
                j + 1
            };
            assert(kept[j] == entries[source]);
        }
    } else {
        let j = choose|j: int| 0 <= j < entries.len() && (#[trigger] entries[j]).id@ == id;
        let target = if j < i {
            j
        } else {
            j - 1
        };
        assert(kept[target] == entries[j]);
        lemma_lookup_present(entries, j);
        lemma_lookup_present(kept, target);
    }
}

/// One tier of the cache, held in memory: at most one template for each
/// identifier.
pub struct TemplateTier {
    entries: Vec<TierEntry>,
}

impl View for TemplateTier {
    type V = Map<Seq<char>, TemplateView>;

    closed spec fn view(&self) -> Map<Seq<char>, TemplateView> {
        Map::new(
            |id: Seq<char>| lookup(self.entries@, id) is Some,
            |id: Seq<char>| lookup(self.entries@, id)->0@,
        )
    }
}

/// The number of entries among `entries` that have outlived their time at
/// `now`.
pub open spec fn expired_count(entries: Seq<TierEntry>, now: i64) -> nat
    decreases entries.len(),
{
    if entries.len() == 0 {
        0
    } else {
        expired_count(entries.drop_last(), now) + if entries.last().template.expired_at(now) {
            1nat
        } else {
            0nat
        }
    }
}

impl TemplateTier {
    #[verifier::type_invariant]
    spec fn well_formed(self) -> bool {
        distinct_ids(self.entries@)
    }

    /// The entries of the tier, in the order in which they were written.
    pub closed spec fn entries(self) -> Seq<TierEntry> {
        self.entries@
    }

    /// A tier without templates.
    pub fn new() -> (tier: TemplateTier)
        ensures
            tier@ == Map::<Seq<char>, TemplateView>::empty(),
            tier.entries().len() == 0,
    {
        let tier = TemplateTier { entries: Vec::new() };
        assert(tier@ =~= Map::<Seq<char>, TemplateView>::empty());
        tier
    }

    fn position(&self, id: &str) -> (found: Option<usize>)
        ensures
            match found {
                Some(i) => i < self.entries@.len() && self.entries@[i as int].id@ == id@,
                None => forall|j: int|
                    0 <= j < self.entries@.len() ==> (#[trigger] self.entries@[j]).id@ != id@,
            },
    {
        let mut i: usize = 0;
        while i < self.entries.len()
            invariant
                0 <= i <= self.entries@.len(),
                forall|j: int| 0 <= j < i ==> (#[trigger] self.entries@[j]).id@ != id@,
            decreases self.entries.len() - i,
        {
            if same_text(self.entries[i].id.as_str(), id) {
                return Some(i);
            }
            i = i + 1;
        }
        None
    }

    /// The template held under `id`, if there is one.
    pub fn get(&self, id: &str) -> (found: Option<CachedTemplate>)
        ensures
            found is Some <==> self@.contains_key(id@),
            found is Some ==> found->0@ == self@[id@],
    {
        proof {
            use_type_invariant(self);
            lemma_lookup_absent(self.entries@, id@);
        }
        match self.position(id) {
            Some(i) => {
                proof {
                    lemma_lookup_present(self.entries@, i as int);
                }
                Some(self.entries[i].template.duplicate())
            },
            None => None,
        }
    }

    /// Removes the template held under `id`, if there is one.
    pub fn remove(&mut self, id: &str)
        ensures
            final(self)@ == old(self)@.remove(id@),
    {
        proof {
            use_type_invariant(&*self);
            lemma_lookup_absent(self.entries@, id@);
        }
        match self.position(id) {
            Some(i) => {
                let mut entries: Vec<TierEntry> = Vec::new();
                std::mem::swap(&mut self.entries, &mut entries);
                let ghost before = entries@;
                entries.remove(i);
                proof {
                    lemma_lookup_after_remove(before, i as int, id@);
                    assert forall|other: Seq<char>| #[trigger]
                        lookup(entries@, other) == if other == id@ {
                            None
                        } else {
                            lookup(before, other)
                        } by {
                        lemma_lookup_after_remove(before, i as int, other);
                    }
                }
                self.entries = entries;
                assert(self@ =~= old(self)@.remove(id@));
            },
            None => {
                assert(self@ =~= old(self)@.remove(id@));
            },
        }
    }

    /// Writes `template` under `id`, in place of what was held there.
    pub fn insert(&mut self, id: String, template: CachedTemplate)
        ensures
            final(self)@ == old(self)@.insert(id@, template@),
    {
        self.remove(id.as_str());
        proof {
            use_type_invariant(&*self);
            lemma_lookup_absent(self.entries@, id@);
            assert(!self@.contains_key(id@));
            assert(lookup(self.entries@, id@) is None);
        }
        let ghost removed = self@;
        let mut entries: Vec<TierEntry> = Vec::new();
        std::mem::swap(&mut self.entries, &mut entries);
        let ghost before = entries@;
        entries.push(TierEntry { id, template });
        proof {
            assert(entries@.drop_last() =~= before);
            assert(entries@.last().id@ == id@);
            assert(entries@.last().template == template);
            assert(distinct_ids(entries@)) by {
                assert forall|a: int, b: int| 0 <= a < b < entries@.len() implies (
                #[trigger] entries@[a]).id@ != (#[trigger] entries@[b]).id@ by {
                    assert(entries@[a] == before[a]);
                    if b < before.len() {
                        assert(entries@[b] == before[b]);
                    } else {
                        assert(before[a].id@ != id@);
                    }
                }
            }
            assert forall|other: Seq<char>| #[trigger]
                lookup(entries@, other) == if other == id@ {
                    Some(template)
                } else {
                    lookup(before, other)
                } by {}
        }
        self.entries = entries;
        assert(self@ =~= removed.insert(id@, template@));
        assert(removed.insert(id@, template@) =~= old(self)@.insert(id@, template@));
    }

    /// Removes every template.
    pub fn clear(&mut self)
        ensures
            final(self)@ == Map::<Seq<char>, TemplateView>::empty(),
            final(self).entries().len() == 0,
    {
        self.entries = Vec::new();
        assert(self@ =~= Map::<Seq<char>, TemplateView>::empty());
    }

    /// The number of templates held.
    pub fn len(&self) -> (count: usize)
        ensures
            count == self.entries().len(),
            count == self@.dom().len(),
            self@.dom().finite(),
    {
        proof {
            use_type_invariant(self);
            lemma_ids_count(self.entries@);
            assert(self@.dom() =~= ids_of(self.entries@)) by {
                assert forall|id: Seq<char>| self@.dom().contains(id) == ids_of(
                    self.entries@,
                ).contains(id) by {
                    lemma_lookup_absent(self.entries@, id);
                }
            }
        }
        self.entries.len()
    }

    /// The number of templates held that have outlived their time at `now`.
    pub fn count_expired(&self, now: i64) -> (count: usize)
        ensures
            count == expired_count(self.entries(), now),
    {
        let mut count: usize = 0;
        let mut i: usize = 0;
        while i < self.entries.len()
            invariant
                0 <= i <= self.entries@.len(),
                count <= i,
                count == expired_count(self.entries@.subrange(0, i as int), now),
            decreases self.entries.len() - i,
        {
            proof {
                assert(self.entries@.subrange(0, i + 1).drop_last() =~= self.entries@.subrange(
                    0,
                    i as int,
                ));
            }
            if self.entries[i].template.is_expired(now) {
                count = count + 1;
            }
            i = i + 1;
        }
        assert(self.entries@.subrange(0, i as int) =~= self.entries@);
        count
    }
}


/// Why a template could not be resolved.
#[derive(Debug)]
pub enum CacheError {
    /// No tier holds the template with this identifier.
    TemplateNotFound(String),
    /// A tier did not take the write of the template with this identifier.
    WriteFailed(String),
}

impl CacheError {
    /// The message of the error.
    pub open spec fn text(self) -> Seq<char> {
        match self {
            CacheError::TemplateNotFound(id) => "Template not found: "@ + id@,
            CacheError::WriteFailed(id) => "Template write failed: "@ + id@,
        }
    }

    /// The message of the error, as a failed request shows it.
    pub fn message(&self) -> (text: String)
        ensures
            text@ == self.text(),
    {
        match self {
            CacheError::TemplateNotFound(id) => {
                let mut out = String::new();
                crate::text::push_text(&mut out, "Template not found: ");
                crate::text::push_text(&mut out, id.as_str());
                assert(out@ =~= self.text());
                out
            },
            CacheError::WriteFailed(id) => {
                let mut out = String::new();
                crate::text::push_text(&mut out, "Template write failed: ");
                crate::text::push_text(&mut out, id.as_str());
                assert(out@ =~= self.text());
                out
            },
        }
    }
}

/// Whether the shared cache has to forget a template after the write of
/// `step` failed: it has where a durable store refused the write, so that no
/// cache is ahead of the durable stores.
pub open spec fn shared_is_cleared(step: WriteStep) -> bool {
    step == WriteStep::ObjectStorage || step == WriteStep::FileSystem
}

/// Whether the caller removes the template from the shared cache after the
/// write of `step` failed.
pub fn clears_shared(step: WriteStep) -> (cleared: bool)
    ensures
        cleared == shared_is_cleared(step),
{
    match step {
        WriteStep::ObjectStorage => true,
        WriteStep::FileSystem => true,
        _ => false,
    }
}

/// The entry of `tier` under `id` that may be served at `now`, if there is
/// one.
pub open spec fn fresh(tier: Map<Seq<char>, TemplateView>, id: Seq<char>, now: i64) -> Option<
    TemplateView,
> {
    if tier.contains_key(id) && !tier[id].expired_at(now) {
        Some(tier[id])
    } else {
        None
    }
}

/// The entry that is made at `now` for content loaded from the durable store.
pub open spec fn loaded_entry(content: Seq<char>, now: i64, ttl_seconds: i64) -> TemplateView {
    TemplateView { content, compiled_at: now, ttl_seconds, version: "1.0.0"@ }
}

/// The numbers that the cache reports of its own map.
#[derive(Debug, Clone, Copy, PartialEq, Eq, Structural)]
pub struct CacheStats {
    pub memory_cached: usize,
    pub memory_expired: usize,
}

/// The first tier of the template cache, the process's own map, with the
/// steps by which the other two tiers are consulted. The caller reads and
/// writes the shared cache and the durable store and hands over what it
/// found.
pub struct TemplateCache {
    memory: TemplateTier,
    ttl_seconds: i64,
}

impl TemplateCache {
    /// What the first tier holds.
    pub closed spec fn memory(self) -> Map<Seq<char>, TemplateView> {
        self.memory@
    }

    /// The entries of the first tier.
    pub closed spec fn memory_entries(self) -> Seq<TierEntry> {
        self.memory.entries()
    }

    /// The seconds for which an entry made by this cache may be served.
    pub closed spec fn ttl(self) -> i64 {
        self.ttl_seconds
    }

    /// A cache with an empty first tier, whose entries are served for
    /// `ttl_seconds`.
    pub fn new(ttl_seconds: i64) -> (cache: TemplateCache)
        ensures
            cache.memory() == Map::<Seq<char>, TemplateView>::empty(),
            cache.ttl() == ttl_seconds,
    {
        TemplateCache { memory: TemplateTier::new(), ttl_seconds }
    }

    /// The first step of a read: the entry of the first tier, if it holds
    /// one that has not expired.
    pub fn get(&self, id: &str, now: i64) -> (found: Option<CachedTemplate>)
        ensures
            found is Some <==> fresh(self.memory(), id@, now) is Some,
            found is Some ==> found->0@ == fresh(self.memory(), id@, now)->0,
    {
        match self.memory.get(id) {
            Some(template) => {
                if template.is_expired(now) {
                    None
                } else {
                    Some(template)
                }
            },
            None => None,
        }
    }

    /// The second step of a read, after the first tier missed: `found` is
    /// what the shared cache holds. An entry that has not expired is copied
    /// into the first tier and served; otherwise the read goes on to the
    /// durable store.
    pub fn admit_shared(&mut self, id: &str, found: Option<CachedTemplate>, now: i64) -> (served:
        Option<CachedTemplate>)
        ensures
            final(self).ttl() == old(self).ttl(),
            match found {
                Some(entry) => if entry.expired_at(now) {
                    served is None && final(self).memory() == old(self).memory()
                } else {
                    served == Some(entry) && final(self).memory() == old(self).memory().insert(
                        id@,
                        entry@,
                    )
                },
                None => served is None && final(self).memory() == old(self).memory(),
            },
    {
        match found {
            Some(entry) => {
                if entry.is_expired(now) {
                    None
                } else {
                    self.memory.insert(text_of(id), entry.duplicate());
                    Some(entry)
                }
            },
            None => None,
        }
    }

    /// The last step of a read, after both caches missed: `content` is what
    /// the durable store holds. Content that was found is entered into the
    /// first tier as made at `now`; the entry returned is to be written to
    /// the shared cache too. A template that the durable store lacks as well
    /// does not exist.
    pub fn admit_durable(&mut self, id: &str, content: Option<String>, now: i64) -> (loaded: Result<
        CachedTemplate,
        CacheError,
    >)
        ensures
            final(self).ttl() == old(self).ttl(),
            match content {
                Some(text) => loaded is Ok && loaded->Ok_0@ == loaded_entry(
                    text@,
                    now,
                    old(self).ttl(),
                ) && final(self).memory() == old(self).memory().insert(id@, loaded->Ok_0@),
                None => loaded matches Err(CacheError::TemplateNotFound(missing)) && missing@
                    == id@ && final(self).memory() == old(self).memory(),
            },
    {
        match content {
            Some(text) => {
                let entry = CachedTemplate {
                    content: text,
                    compiled_at: now,
                    ttl_seconds: self.ttl_seconds,
                    version: "1.0.0".to_owned(),
                };
                self.memory.insert(text_of(id), entry.duplicate());
                Ok(entry)
            },
            None => Err(CacheError::TemplateNotFound(text_of(id))),
        }
    }

    /// Begins the write of a template. The first tier is updated here; the
    /// entry returned is to be written to the shared cache next and to the
    /// durable stores last, and the outcome of each of those writes is
    /// handed to `write_resolved`.
    pub fn set(&mut self, id: &str, content: String, version: String, now: i64) -> (entry:
        CachedTemplate)
        ensures
            final(self).ttl() == old(self).ttl(),
            entry@ == (TemplateView {
                content: content@,
                compiled_at: now,
                ttl_seconds: old(self).ttl(),
                version: version@,
            }),
            final(self).memory() == old(self).memory().insert(id@, entry@),
    {
        let entry = CachedTemplate {
            content,
            compiled_at: now,
            ttl_seconds: self.ttl_seconds,
            version,
        };
        self.memory.insert(text_of(id), entry.duplicate());
        entry
    }

    /// Takes the outcome of one step of the write that `set` began. A step
    /// that was written changes nothing. After a step that failed the
    /// first tier forgets the template, so that it is never ahead of the
    /// tiers behind it: the next read asks the shared cache again. The
    /// write ends with the error, and the steps after it are left undone.
    pub fn write_resolved(&mut self, id: &str, step: WriteStep, written: bool) -> (outcome: Result<
        (),
        CacheError,
    >)
        ensures
            final(self).ttl() == old(self).ttl(),
            written ==> outcome is Ok && final(self).memory() == old(self).memory(),
            !written ==> (outcome matches Err(CacheError::WriteFailed(failed)) && failed@ == id@)
                && final(self).memory() == old(self).memory().remove(id@),
    {
        if written {
            Ok(())
        } else {
            self.memory.remove(id);
            Err(CacheError::WriteFailed(text_of(id)))
        }
    }

    /// Removes a template from the first tier. The caller removes it from
    /// the shared cache; the durable store is left as it is.
    pub fn invalidate(&mut self, id: &str)
        ensures
            final(self).ttl() == old(self).ttl(),
            final(self).memory() == old(self).memory().remove(id@),
    {
        self.memory.remove(id);
    }

    /// Empties the first tier.
    pub fn invalidate_all(&mut self)
        ensures
            final(self).ttl() == old(self).ttl(),
            final(self).memory() == Map::<Seq<char>, TemplateView>::empty(),
    {
        self.memory.clear();
    }

    /// How many templates the first tier holds, and how many of them have
    /// outlived their time at `now`.
    pub fn get_stats(&self, now: i64) -> (stats: CacheStats)
        ensures
            stats.memory_cached == self.memory().dom().len(),
            stats.memory_expired == expired_count(self.memory_entries(), now),
    {
        CacheStats {
            memory_cached: self.memory.len(),
            memory_expired: self.memory.count_expired(now),
        }
    }
}

/// What the three tiers hold.
pub struct Tiers {
    pub memory: Map<Seq<char>, TemplateView>,
    pub shared: Map<Seq<char>, TemplateView>,
    pub durable: Map<Seq<char>, TemplateView>,
}

/// A read of `id` at `now`: the tiers afterwards and the content served,
/// `None` where no tier holds the template. The first tier answers if its
/// entry has not expired; else the second does, and its entry is copied into
/// the first; else the durable store does, and a new entry is written to
/// both caches.
pub open spec fn tiers_get(tiers: Tiers, id: Seq<char>, now: i64, ttl_seconds: i64) -> (
    Tiers,
    Option<Seq<char>>,
) {
    match fresh(tiers.memory, id, now) {
        Some(entry) => (tiers, Some(entry.content)),
        None => match fresh(tiers.shared, id, now) {
            Some(entry) => (
                Tiers { memory: tiers.memory.insert(id, entry), ..tiers },
                Some(entry.content),
            ),
            None => if tiers.durable.contains_key(id) {
                let entry = loaded_entry(tiers.durable[id].content, now, ttl_seconds);
                (
                    Tiers {
                        memory: tiers.memory.insert(id, entry),
                        shared: tiers.shared.insert(id, entry),
                        ..tiers
                    },
                    Some(entry.content),
                )
            } else {
                (tiers, None)
            },
        },
    }
}

/// A write of `content` under `id` at `now`, through all three tiers.
pub open spec fn tiers_set(
    tiers: Tiers,
    id: Seq<char>,
    content: Seq<char>,
    version: Seq<char>,
    now: i64,
    ttl_seconds: i64,
) -> Tiers {
    let entry = TemplateView { content, compiled_at: now, ttl_seconds, version };
    Tiers {
        memory: tiers.memory.insert(id, entry),
        shared: tiers.shared.insert(id, entry),
        durable: tiers.durable.insert(id, entry),
    }
}

/// An invalidation of `id`: both caches forget it, the durable store does
/// not.
pub open spec fn tiers_invalidate(tiers: Tiers, id: Seq<char>) -> Tiers {
    Tiers { memory: tiers.memory.remove(id), shared: tiers.shared.remove(id), ..tiers }
}

/// The template cache with all three tiers held in memory.
pub struct TieredCache {
    pub cache: TemplateCache,
    pub shared: TemplateTier,
    pub durable: TemplateTier,
}

impl TieredCache {
    /// What the three tiers hold.
    pub open spec fn tiers(self) -> Tiers {
        Tiers { memory: self.cache.memory(), shared: self.shared@, durable: self.durable@ }
    }

    /// Three empty tiers, whose cache entries are served for `ttl_seconds`.
    pub fn new(ttl_seconds: i64) -> (tiered: TieredCache)
        ensures
            tiered.cache.ttl() == ttl_seconds,
            tiered.tiers().memory == Map::<Seq<char>, TemplateView>::empty(),
            tiered.tiers().shared == Map::<Seq<char>, TemplateView>::empty(),
            tiered.tiers().durable == Map::<Seq<char>, TemplateView>::empty(),
    {
        TieredCache {
            cache: TemplateCache::new(ttl_seconds),
            shared: TemplateTier::new(),
            durable: TemplateTier::new(),
        }
    }

    /// Resolves a template to its content, tier by tier. A template that no
    /// tier holds is an error.
    pub fn get(&mut self, id: &str, now: i64) -> (content: Result<String, CacheError>)
        ensures
            final(self).cache.ttl() == old(self).cache.ttl(),
            final(self).tiers() == tiers_get(old(self).tiers(), id@, now, old(self).cache.ttl()).0,
            match tiers_get(old(self).tiers(), id@, now, old(self).cache.ttl()).1 {
                Some(text) => content is Ok && content->Ok_0@ == text,
                None => content matches Err(CacheError::TemplateNotFound(missing)) && missing@
                    == id@,
            },
    {
        if let Some(entry) = self.cache.get(id, now) {
            return Ok(entry.content);
        }
        let in_shared = self.shared.get(id);
        if let Some(entry) = self.cache.admit_shared(id, in_shared, now) {
            return Ok(entry.content);
        }
        let in_durable = match self.durable.get(id) {
            Some(stored) => Some(stored.content),
            None => None,
        };
        match self.cache.admit_durable(id, in_durable, now) {
            Ok(entry) => {
                self.shared.insert(text_of(id), entry.duplicate());
                Ok(entry.content)
            },
            Err(error) => Err(error),
        }
    }

    /// Writes a template through all three tiers, the durable store last.
    pub fn set(&mut self, id: &str, content: String, version: String, now: i64)
        ensures
            final(self).cache.ttl() == old(self).cache.ttl(),
            final(self).tiers() == tiers_set(
                old(self).tiers(),
                id@,
                content@,
                version@,
                now,
                old(self).cache.ttl(),
            ),
    {
        let entry = self.cache.set(id, content, version, now);
        self.shared.insert(text_of(id), entry.duplicate());
        self.durable.insert(text_of(id), entry);
    }

    /// Removes a template from both caches. The durable store is the source
    /// of truth and is not touched.
    pub fn invalidate(&mut self, id: &str)
        ensures
            final(self).cache.ttl() == old(self).cache.ttl(),
            final(self).tiers() == tiers_invalidate(old(self).tiers(), id@),
    {
        self.cache.invalidate(id);
        self.shared.remove(id);
    }
}

/// After a template has been written twice, every tier holds the second
/// content, and a read returns it at any time, whichever tiers still hold
/// the template: with both caches emptied the durable store answers.
pub proof fn lemma_set_twice_then_get(
    tiers: Tiers,
    id: Seq<char>,
    first: Seq<char>,
    second: Seq<char>,
    version: Seq<char>,
    first_now: i64,
    second_now: i64,
    read_now: i64,
    ttl_seconds: i64,
)
    ensures
        ({
            let written = tiers_set(
                tiers_set(tiers, id, first, version, first_now, ttl_seconds),
                id,
                second,
                version,
                second_now,
                ttl_seconds,
            );
            let without_memory = Tiers { memory: Map::empty(), ..written };
            let durable_only = Tiers { memory: Map::empty(), shared: Map::empty(), ..written };
            &&& written.memory[id].content == second
            &&& written.shared[id].content == second
            &&& written.durable[id].content == second
            &&& tiers_get(written, id, read_now, ttl_seconds).1 == Some(second)
            &&& tiers_get(without_memory, id, read_now, ttl_seconds).1 == Some(second)
            &&& tiers_get(durable_only, id, read_now, ttl_seconds).1 == Some(second)
        }),
{
}

/// After an invalidation neither cache holds the template, and the next read
/// reloads it from the durable store: it returns the durable content and
/// enters it into both caches as made at the time of the read.
pub proof fn lemma_invalidate_then_get(tiers: Tiers, id: Seq<char>, now: i64, ttl_seconds: i64)
    requires
        tiers.durable.contains_key(id),
    ensures
        ({
            let cleared = tiers_invalidate(tiers, id);
            let (after, served) = tiers_get(cleared, id, now, ttl_seconds);
            &&& !cleared.memory.contains_key(id)
            &&& !cleared.shared.contains_key(id)
            &&& cleared.durable == tiers.durable
            &&& served == Some(tiers.durable[id].content)
            &&& after.memory[id] == loaded_entry(tiers.durable[id].content, now, ttl_seconds)
            &&& after.shared[id] == loaded_entry(tiers.durable[id].content, now, ttl_seconds)
            &&& after.durable == tiers.durable
        }),
{
}

/// The tiers after a write of `id` was cut short by the failure of `step`:
/// the first tier has forgotten the template, and the shared cache too
/// where a durable store failed.
pub open spec fn tiers_write_failed(tiers: Tiers, id: Seq<char>, step: WriteStep) -> Tiers {
    Tiers {
        memory: tiers.memory.remove(id),
        shared: if shared_is_cleared(step) {
            tiers.shared.remove(id)
        } else {
            tiers.shared
        },
        ..tiers
    }
}

/// A write whose step to the shared cache fails leaves the first tier no
/// further than the shared cache. Whatever the first tier held, and whatever
/// was to be written: after `set` has entered the new content into the
/// first tier and the failure has been taken, the first tier holds nothing
/// for the template, the other tiers are as they were, and the next read
/// serves what the shared cache holds, or what the durable store holds where
/// the shared cache has nothing fresh: never the content that was not
/// written there.
pub proof fn lemma_failed_shared_write_leaves_memory_behind(
    tiers: Tiers,
    id: Seq<char>,
    content: Seq<char>,
    version: Seq<char>,
    now: i64,
    read_now: i64,
    ttl_seconds: i64,
)
    ensures
        ({
            let entry = TemplateView { content, compiled_at: now, ttl_seconds, version };
            let begun = Tiers { memory: tiers.memory.insert(id, entry), ..tiers };
            let failed = tiers_write_failed(begun, id, WriteStep::SharedCache);
            &&& !failed.memory.contains_key(id)
            &&& failed.shared == tiers.shared
            &&& failed.durable == tiers.durable
            &&& tiers_get(failed, id, read_now, ttl_seconds).1 == match fresh(
                tiers.shared,
                id,
                read_now,
            ) {
                Some(held) => Some(held.content),
                None => if tiers.durable.contains_key(id) {
                    Some(tiers.durable[id].content)
                } else {
                    None
                },
            }
        }),
{
    let entry = TemplateView { content, compiled_at: now, ttl_seconds, version };
    let begun = Tiers { memory: tiers.memory.insert(id, entry), ..tiers };
    let failed = tiers_write_failed(begun, id, WriteStep::SharedCache);
    assert(failed.memory =~= tiers.memory.remove(id));
}

/// A write whose step to a durable store fails leaves no cache ahead of the
/// durable stores: both caches have forgotten the template, and the next
/// read serves what the durable store holds.
pub proof fn lemma_failed_durable_write_clears_the_caches(
    tiers: Tiers,
    id: Seq<char>,
    content: Seq<char>,
    version: Seq<char>,
    now: i64,
    read_now: i64,
    ttl_seconds: i64,
    step: WriteStep,
)
    requires
        shared_is_cleared(step),
    ensures
        ({
            let entry = TemplateView { content, compiled_at: now, ttl_seconds, version };
            let begun = Tiers {
                memory: tiers.memory.insert(id, entry),
                shared: tiers.shared.insert(id, entry),
                ..tiers
            };
            let failed = tiers_write_failed(begun, id, step);
            &&& !failed.memory.contains_key(id)
            &&& !failed.shared.contains_key(id)
            &&& failed.durable == tiers.durable
            &&& tiers_get(failed, id, read_now, ttl_seconds).1 == if tiers.durable.contains_key(
                id,
            ) {
                Some(tiers.durable[id].content)
            } else {
                None
            }
        }),
{
}

/// A template that no tier holds is not found, and the read changes nothing.
pub proof fn lemma_missing_everywhere(tiers: Tiers, id: Seq<char>, now: i64, ttl_seconds: i64)
    requires
        !tiers.memory.contains_key(id),
        !tiers.shared.contains_key(id),
        !tiers.durable.contains_key(id),
    ensures
        tiers_get(tiers, id, now, ttl_seconds) == (tiers, None::<Seq<char>>),
{
}

} // verus!

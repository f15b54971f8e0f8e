//! What the `list plugins` and `list presets` commands show of the scanned libraries.
//!
//! The commands print one block per library. `list plugins` ends with the number of files,
//! plugins and errors. `list presets` shows only the libraries that failed or have preset
//! providers. The preset limit caps the presets shown for each plugin library: its providers,
//! in order, show their presets until the limit is used up. Each provider also shows at most
//! the limit's number of soundpacks. What is left out is counted.

use vstd::prelude::*;

verus! {

/// How many soundpacks and presets a preset provider declared.
#[derive(Clone, Copy, PartialEq, Eq, Structural, Debug)]
pub struct ProviderCounts {
    pub soundpacks: usize,
    pub presets: usize,
}

/// What the scan of one library gave, as the listings count it.
pub enum ScanSummary {
    /// The scan returned an error or crashed.
    Failed,
    /// The library was scanned: its plugins and its preset providers.
    Scanned { plugins: usize, providers: Vec<ProviderCounts> },
}

/// The totals printed after the plugin listing.
#[derive(Clone, Copy, PartialEq, Eq, Structural, Debug)]
pub struct ListingTotals {
    pub files: usize,
    pub plugins: usize,
    pub errors: usize,
}

/// The number of plugins in the scanned libraries.
pub open spec fn total_plugins(s: Seq<ScanSummary>) -> nat
    decreases s.len(),
{
    if s.len() == 0 {
        0
    } else {
        total_plugins(s.drop_last()) + match s.last() {
            ScanSummary::Failed => 0nat,
            ScanSummary::Scanned { plugins, .. } => plugins as nat,
        }
    }
}

/// The number of libraries whose scan failed.
pub open spec fn total_errors(s: Seq<ScanSummary>) -> nat
    decreases s.len(),
{
    if s.len() == 0 {
        0
    } else {
        total_errors(s.drop_last()) + if s.last() is Failed {
            1nat
        } else {
            0nat
        }
    }
}

proof fn lemma_errors_bound(s: Seq<ScanSummary>)
    ensures
        total_errors(s) <= s.len(),
    decreases s.len(),
{
    if s.len() > 0 {
        lemma_errors_bound(s.drop_last());
    }
}

/// The totals of the plugin listing: one file per scanned library, the plugins of those that
/// were scanned, and one error per library whose scan failed.
pub fn plugin_totals(scans: &Vec<ScanSummary>) -> (r: ListingTotals)
    requires
        total_plugins(scans@) <= usize::MAX,
    ensures
        r.files == scans@.len(),
        r.plugins == total_plugins(scans@),
        r.errors == total_errors(scans@),
{
    let mut plugins: usize = 0;
    let mut errors: usize = 0;
    let mut i: usize = 0;
    while i < scans.len()
        invariant
            i <= scans@.len(),
            total_plugins(scans@) <= usize::MAX,
            plugins == total_plugins(scans@.subrange(0, i as int)),
            errors == total_errors(scans@.subrange(0, i as int)),
        decreases scans.len() - i,
    {
        let ghost next = scans@.subrange(0, i + 1);
        assert(next.drop_last() =~= scans@.subrange(0, i as int));
        proof {
            lemma_plugins_prefix(scans@, i + 1);
            lemma_errors_bound(next);
        }
        match &scans[i] {
            ScanSummary::Failed => {
                errors = errors + 1;
            },
            ScanSummary::Scanned { plugins: n, .. } => {
                plugins = plugins + *n;
            },
        }
        i = i + 1;
    }
    assert(scans@.subrange(0, i as int) =~= scans@);
    ListingTotals { files: scans.len(), plugins, errors }
}

/// The plugins of a prefix are no more than those of the whole.
proof fn lemma_plugins_prefix(s: Seq<ScanSummary>, k: int)
    requires
        0 <= k <= s.len(),
    ensures
        total_plugins(s.subrange(0, k)) <= total_plugins(s),
    decreases s.len() - k,
{
    if k < s.len() {
        let next = s.subrange(0, k + 1);
        assert(next.drop_last() =~= s.subrange(0, k));
        lemma_plugins_prefix(s, k + 1);
    } else {
        assert(s.subrange(0, k) =~= s);
    }
}

/// What the preset listing shows of one provider: how many soundpacks and presets are printed,
/// and how many more are left out of each (zero when none are).
#[derive(Clone, Copy, PartialEq, Eq, Structural, Debug)]
pub struct ProviderListing {
    pub soundpacks_shown: usize,
    pub more_soundpacks: usize,
    pub presets_shown: usize,
    pub more_presets: usize,
}

/// What one provider shows: at most `limit` soundpacks, and at most `remaining` presets, where
/// `remaining` is what the library's earlier providers left of the preset limit. The rest are
/// counted.
pub open spec fn spec_provider_listing(c: ProviderCounts, limit: usize, remaining: usize) -> ProviderListing {
    ProviderListing {
        soundpacks_shown: if c.soundpacks <= limit {
            c.soundpacks
        } else {
            limit
        },
        more_soundpacks: if c.soundpacks <= limit {
            0
        } else {
            (c.soundpacks - limit) as usize
        },
        presets_shown: if c.presets <= remaining {
            c.presets
        } else {
            remaining
        },
        more_presets: if c.presets <= remaining {
            0
        } else {
            (c.presets - remaining) as usize
        },
    }
}

/// What the providers of one library show, in order, when `remaining` presets may still be
/// shown: each provider uses up what it shows.
pub open spec fn spec_provider_listings(counts: Seq<ProviderCounts>, limit: usize, remaining: usize) -> Seq<
    ProviderListing,
>
    decreases counts.len(),
{
    if counts.len() == 0 {
        Seq::empty()
    } else {
        let first = spec_provider_listing(counts[0], limit, remaining);
        seq![first] + spec_provider_listings(
            counts.drop_first(),
            limit,
            (remaining - first.presets_shown) as usize,
        )
    }
}

/// The number of presets the listings show.
pub open spec fn presets_shown(listings: Seq<ProviderListing>) -> nat
    decreases listings.len(),
{
    if listings.len() == 0 {
        0
    } else {
        listings[0].presets_shown as nat + presets_shown(listings.drop_first())
    }
}

/// A library's listing shows no more presets than the limit, in total over its providers, and
/// every preset is either shown or counted as left out.
pub proof fn lemma_presets_within_limit(counts: Seq<ProviderCounts>, limit: usize, remaining: usize)
    ensures
        presets_shown(spec_provider_listings(counts, limit, remaining)) <= remaining,
        spec_provider_listings(counts, limit, remaining).len() == counts.len(),
        forall|k: int|
            0 <= k < counts.len() ==> #[trigger] spec_provider_listings(counts, limit, remaining)[k].presets_shown
                + spec_provider_listings(counts, limit, remaining)[k].more_presets == counts[k].presets,
    decreases counts.len(),
{
    if counts.len() > 0 {
        let first = spec_provider_listing(counts[0], limit, remaining);
        let rest_remaining = (remaining - first.presets_shown) as usize;
        lemma_presets_within_limit(counts.drop_first(), limit, rest_remaining);
        let all = spec_provider_listings(counts, limit, remaining);
        let rest = spec_provider_listings(counts.drop_first(), limit, rest_remaining);
        assert(all.drop_first() =~= rest);
        assert forall|k: int|
            0 <= k < counts.len() implies #[trigger] all[k].presets_shown + all[k].more_presets
                == counts[k].presets by {
            if k > 0 {
                assert(all[k] == rest[k - 1]);
                assert(counts[k] == counts.drop_first()[k - 1]);
            }
        }
    }
}

/// A block of the preset listing.
pub enum PresetGroup {
    /// The scan of the library at this index failed.
    Failure { index: usize },
    /// The library at this index, with what is shown of each of its providers, in order.
    Library { index: usize, providers: Vec<ProviderListing> },
}

/// Whether the preset listing has a block for a library: a failed scan, or a library with at
/// least one preset provider.
pub open spec fn listed(s: ScanSummary) -> bool {
    match s {
        ScanSummary::Failed => true,
        ScanSummary::Scanned { providers, .. } => providers@.len() > 0,
    }
}

/// The indices of the libraries the preset listing has a block for, in order.
pub open spec fn listed_indices(s: Seq<ScanSummary>) -> Seq<int>
    decreases s.len(),
{
    if s.len() == 0 {
        Seq::empty()
    } else if listed(s.last()) {
        listed_indices(s.drop_last()).push(s.len() - 1)
    } else {
        listed_indices(s.drop_last())
    }
}

/// Whether `listings` show the providers with `counts` of one library, in order, under the
/// preset limit.
pub open spec fn lists_providers(listings: Seq<ProviderListing>, counts: Seq<ProviderCounts>, limit: usize) -> bool {
    listings == spec_provider_listings(counts, limit, limit)
}

/// Whether a block of the preset listing describes the library it is for.
pub open spec fn describes(g: PresetGroup, s: ScanSummary, index: int, limit: usize) -> bool {
    match g {
        PresetGroup::Failure { index: i } => i == index && s is Failed,
        PresetGroup::Library { index: i, providers } => i == index && match s {
            ScanSummary::Failed => false,
            ScanSummary::Scanned { providers: counts, .. } => lists_providers(
                providers@,
                counts@,
                limit,
            ),
        },
    }
}

/// What the providers of one library show, in order, under the preset limit.
fn provider_listings(counts: &Vec<ProviderCounts>, limit: usize) -> (r: Vec<ProviderListing>)
    ensures
        r@ == spec_provider_listings(counts@, limit, limit),
{
    let mut r: Vec<ProviderListing> = Vec::new();
    let mut remaining: usize = limit;
    let mut k: usize = 0;
    assert(counts@.subrange(0, counts@.len() as int) =~= counts@);
    assert(r@ + spec_provider_listings(counts@, limit, limit) =~= spec_provider_listings(counts@, limit, limit));
    while k < counts.len()
        invariant
            k <= counts@.len(),
            r@ + spec_provider_listings(counts@.subrange(k as int, counts@.len() as int), limit, remaining)
                == spec_provider_listings(counts@, limit, limit),
        decreases counts.len() - k,
    {
        let c = counts[k];
        let presets_shown = if c.presets <= remaining {
            c.presets
        } else {
            remaining
        };
        let listing = ProviderListing {
            soundpacks_shown: if c.soundpacks <= limit {
                c.soundpacks
            } else {
                limit
            },
            more_soundpacks: if c.soundpacks <= limit {
                0
            } else {
                c.soundpacks - limit
            },
            presets_shown,
            more_presets: c.presets - presets_shown,
        };
        proof {
            let tail = counts@.subrange(k as int, counts@.len() as int);
            assert(tail[0] == c);
            assert(tail.drop_first() =~= counts@.subrange(k + 1, counts@.len() as int));
            assert(listing == spec_provider_listing(c, limit, remaining));
            assert(r@.push(listing) + spec_provider_listings(tail.drop_first(), limit, (remaining - presets_shown) as usize)
                =~= r@ + spec_provider_listings(tail, limit, remaining));
        }
        r.push(listing);
        remaining = remaining - presets_shown;
        k = k + 1;
    }
    assert(counts@.subrange(k as int, counts@.len() as int) =~= Seq::<ProviderCounts>::empty());
    assert(r@ + Seq::<ProviderListing>::empty() =~= r@);
    r
}

/// The blocks of the preset listing, in the order of the scanned libraries: one for each
/// failed scan and one for each library with preset providers; libraries without providers
/// are left out. Each library shows at most `preset_limit` presets over all its providers, and
/// each provider at most `preset_limit` soundpacks.
pub fn presets_report(scans: &Vec<ScanSummary>, preset_limit: usize) -> (r: Vec<PresetGroup>)
    ensures
        r@.len() == listed_indices(scans@).len(),
        forall|k: int|
            0 <= k < r@.len() ==> describes(
                #[trigger] r@[k],
                scans@[listed_indices(scans@)[k]],
                listed_indices(scans@)[k],
                preset_limit,
            ),
{
    let mut r: Vec<PresetGroup> = Vec::new();
    let mut i: usize = 0;
    while i < scans.len()
        invariant
            i <= scans@.len(),
            r@.len() == listed_indices(scans@.subrange(0, i as int)).len(),
            forall|k: int|
                0 <= k < r@.len() ==> 0 <= #[trigger] listed_indices(scans@.subrange(0, i as int))[k] < i,
            forall|k: int|
                0 <= k < r@.len() ==> describes(
                    #[trigger] r@[k],
                    scans@[listed_indices(scans@.subrange(0, i as int))[k]],
                    listed_indices(scans@.subrange(0, i as int))[k],
                    preset_limit,
                ),
        decreases scans.len() - i,
    {
        let ghost prefix = scans@.subrange(0, i as int);
        let ghost next = scans@.subrange(0, i + 1);
        let ghost old_r = r@;
        assert(next.drop_last() =~= prefix);
        assert(next.last() == scans@[i as int]);
        match &scans[i] {
            ScanSummary::Failed => {
                r.push(PresetGroup::Failure { index: i });
                proof {
                    assert(listed_indices(next) == listed_indices(prefix).push(i as int));
                }
            },
            ScanSummary::Scanned { providers, .. } => {
                if providers.len() > 0 {
                    let listings = provider_listings(providers, preset_limit);
                    r.push(PresetGroup::Library { index: i, providers: listings });
                    proof {
                        assert(listed_indices(next) == listed_indices(prefix).push(i as int));
                    }
                } else {
                    proof {
                        assert(listed_indices(next) == listed_indices(prefix));
                    }
                }
            },
        }
        i = i + 1;
        assert(scans@.subrange(0, i as int) == next);
        proof {
            let ghost li = listed_indices(scans@.subrange(0, i as int));
            assert forall|k: int| 0 <= k < r@.len() implies 0 <= #[trigger] li[k] < i by {
                if k < old_r.len() {
                    assert(li[k] == listed_indices(prefix)[k]);
                }
            }
            assert forall|k: int| 0 <= k < r@.len() implies describes(
                #[trigger] r@[k],
                scans@[li[k]],
                li[k],
                preset_limit,
            ) by {
                if k < old_r.len() {
                    assert(r@[k] == old_r[k]);
                    assert(li[k] == listed_indices(prefix)[k]);
                } else {
                    assert(li[k] == i - 1);
                }
            }
            assert(r@.len() == listed_indices(scans@.subrange(0, i as int)).len());
            assert(i <= scans@.len());
        }
    }
    assert(scans@.subrange(0, i as int) =~= scans@);
    r
}

} // verus!

//! The micro-batching core: a drained burst of triggers is grouped by
//! (origin, source), per key, per shortcut and per button, summed in one
//! pass, and applied to the store with one delta per group.
//!
//! Grouping never changes what is counted: the store's total grows by
//! exactly the policy-allowed sum of the batch, wherever the batch
//! boundaries fall.

use vstd::prelude::*;

use crate::counter_map::copy_str;
use crate::counter_map::CounterMap;
use crate::input::AppContext;
use crate::input::InputOrigin;
use crate::input::InputSource;
use crate::input::LocalNow;
use crate::settings::Settings;
use crate::storage::spec_should_count;
use crate::storage::KeyboardCounts;
use crate::storage::MeritStorage;
use crate::storage::MouseCounts;

verus! {

/// One classified input action waiting to be counted.
#[derive(Debug)]
pub struct Trigger {
    pub origin: InputOrigin,
    pub source: InputSource,
    pub count: u64,
    pub key_code: Option<String>,
    pub is_shifted: Option<bool>,
    pub shortcut: Option<String>,
    pub app: Option<AppContext>,
}

/// An unbounded integer clamped into `u64`.
pub open spec fn clamp64(x: int) -> u64 {
    if x > u64::MAX {
        u64::MAX
    } else if x < 0 {
        0u64
    } else {
        x as u64
    }
}

/// The counts of the batch's triggers of one origin and source, summed
/// without saturation.
pub open spec fn spec_group_sum(s: Seq<Trigger>, origin: InputOrigin, source: InputSource) -> int
    decreases s.len(),
{
    if s.len() == 0 {
        0
    } else {
        spec_group_sum(s.drop_last(), origin, source) + if s.last().origin == origin
            && s.last().source == source {
            s.last().count as int
        } else {
            0
        }
    }
}

/// The counts of the batch's triggers that the policy allows, summed without
/// saturation.
pub open spec fn spec_allowed_sum(settings: Settings, s: Seq<Trigger>) -> int
    decreases s.len(),
{
    if s.len() == 0 {
        0
    } else {
        spec_allowed_sum(settings, s.drop_last()) + if spec_should_count(settings,
            s.last().origin, s.last().source) {
            s.last().count as int
        } else {
            0
        }
    }
}

/// The per-key counts of one origin's keyboard (or mouse-button) triggers
/// carrying key code `code`.
pub open spec fn spec_detail_sum(
    s: Seq<Trigger>,
    origin: InputOrigin,
    source: InputSource,
    code: Seq<char>,
) -> int
    decreases s.len(),
{
    if s.len() == 0 {
        0
    } else {
        spec_detail_sum(s.drop_last(), origin, source, code) + if s.last().origin == origin
            && s.last().source == source && s.last().key_code is Some
            && s.last().key_code->0@ == code {
            s.last().count as int
        } else {
            0
        }
    }
}

/// The per-key counts of one origin's keyboard triggers with the given
/// shift state and key code.
pub open spec fn spec_shifted_sum(
    s: Seq<Trigger>,
    origin: InputOrigin,
    shifted: bool,
    code: Seq<char>,
) -> int
    decreases s.len(),
{
    if s.len() == 0 {
        0
    } else {
        spec_shifted_sum(s.drop_last(), origin, shifted, code) + if s.last().origin == origin
            && s.last().source is Keyboard && s.last().key_code is Some
            && s.last().key_code->0@ == code && s.last().is_shifted == Some(shifted) {
            s.last().count as int
        } else {
            0
        }
    }
}

/// The counts of one origin's keyboard triggers carrying shortcut id `code`.
pub open spec fn spec_shortcut_sum(s: Seq<Trigger>, origin: InputOrigin, code: Seq<char>) -> int
    decreases s.len(),
{
    if s.len() == 0 {
        0
    } else {
        spec_shortcut_sum(s.drop_last(), origin, code) + if s.last().origin == origin
            && s.last().source is Keyboard && s.last().shortcut is Some
            && s.last().shortcut->0@ == code {
            s.last().count as int
        } else {
            0
        }
    }
}

/// Splitting the allowed sum over the four (origin, source) groups.
proof fn lemma_group_partition(settings: Settings, s: Seq<Trigger>)
    ensures
        spec_allowed_sum(settings, s) == (if settings.enable_keyboard {
            spec_group_sum(s, InputOrigin::Global, InputSource::Keyboard)
        } else {
            0
        }) + (if settings.enable_mouse_single {
            spec_group_sum(s, InputOrigin::Global, InputSource::MouseSingle)
        } else {
            0
        }) + spec_group_sum(s, InputOrigin::App, InputSource::Keyboard) + spec_group_sum(s,
            InputOrigin::App, InputSource::MouseSingle),
    decreases s.len(),
{
    if s.len() > 0 {
        lemma_group_partition(settings, s.drop_last());
    }
}

/// Each group's sum is nonnegative, and so is the allowed sum.
proof fn lemma_sums_nonneg(settings: Settings, s: Seq<Trigger>)
    ensures
        spec_allowed_sum(settings, s) >= 0,
        spec_group_sum(s, InputOrigin::Global, InputSource::Keyboard) >= 0,
        spec_group_sum(s, InputOrigin::Global, InputSource::MouseSingle) >= 0,
        spec_group_sum(s, InputOrigin::App, InputSource::Keyboard) >= 0,
        spec_group_sum(s, InputOrigin::App, InputSource::MouseSingle) >= 0,
    decreases s.len(),
{
    if s.len() > 0 {
        lemma_sums_nonneg(settings, s.drop_last());
    }
}

/// A per-key sum never exceeds its group's sum; sums are nonnegative.
proof fn lemma_detail_le_group(
    s: Seq<Trigger>,
    origin: InputOrigin,
    source: InputSource,
    code: Seq<char>,
)
    ensures
        0 <= spec_detail_sum(s, origin, source, code) <= spec_group_sum(s, origin, source),
    decreases s.len(),
{
    if s.len() > 0 {
        lemma_detail_le_group(s.drop_last(), origin, source, code);
    }
}

/// A shifted per-key sum is nonnegative and never exceeds its origin's
/// keyboard group sum.
proof fn lemma_shifted_le_group(s: Seq<Trigger>, origin: InputOrigin, shifted: bool, code: Seq<char>)
    ensures
        0 <= spec_shifted_sum(s, origin, shifted, code) <= spec_group_sum(s, origin,
            InputSource::Keyboard),
    decreases s.len(),
{
    if s.len() > 0 {
        lemma_shifted_le_group(s.drop_last(), origin, shifted, code);
    }
}

/// A shortcut sum is nonnegative and never exceeds its origin's keyboard
/// group sum.
proof fn lemma_shortcut_le_group(s: Seq<Trigger>, origin: InputOrigin, code: Seq<char>)
    ensures
        0 <= spec_shortcut_sum(s, origin, code) <= spec_group_sum(s, origin,
            InputSource::Keyboard),
    decreases s.len(),
{
    if s.len() > 0 {
        lemma_shortcut_le_group(s.drop_last(), origin, code);
    }
}

/// The allowed sum splits over concatenation.
proof fn lemma_allowed_concat(settings: Settings, s1: Seq<Trigger>, s2: Seq<Trigger>)
    ensures
        spec_allowed_sum(settings, s1 + s2) == spec_allowed_sum(settings, s1) + spec_allowed_sum(
            settings, s2),
    decreases s2.len(),
{
    if s2.len() == 0 {
        assert(s1 + s2 =~= s1);
    } else {
        assert((s1 + s2).drop_last() =~= s1 + s2.drop_last());
        assert((s1 + s2).last() == s2.last());
        lemma_allowed_concat(settings, s1, s2.drop_last());
    }
}

/// Law: counting is batch-boundary blind. For any split of a trigger
/// sequence into two batches, applying the batches one after the other
/// leaves the total exactly where applying the whole sequence at once
/// would, for every starting total.
pub proof fn lemma_batching_preserves_total(
    settings: Settings,
    total: u64,
    s1: Seq<Trigger>,
    s2: Seq<Trigger>,
)
    ensures
        clamp64(clamp64(total + spec_allowed_sum(settings, s1)) as int + spec_allowed_sum(
            settings, s2)) == clamp64(total + spec_allowed_sum(settings, s1 + s2)),
{
    lemma_allowed_concat(settings, s1, s2);
    lemma_sums_nonneg(settings, s1);
    lemma_sums_nonneg(settings, s2);
}

/// Unfolds every batch sum by one trigger.
proof fn lemma_sums_step(settings: Settings, s: Seq<Trigger>, i: int)
    requires
        0 <= i < s.len(),
    ensures
        ({
            let t = s[i];
            &&& spec_allowed_sum(settings, s.take(i + 1)) == spec_allowed_sum(settings, s.take(i))
                + if spec_should_count(settings, t.origin, t.source) {
                t.count as int
            } else {
                0
            }
            &&& forall|o: InputOrigin, src: InputSource| spec_group_sum(s.take(i + 1), o, src)
                == spec_group_sum(s.take(i), o, src) + if t.origin == o && t.source == src {
                t.count as int
            } else {
                0
            }
            &&& forall|o: InputOrigin, src: InputSource, code: Seq<char>| spec_detail_sum(
                s.take(i + 1), o, src, code) == spec_detail_sum(s.take(i), o, src, code) + (
            if t.origin == o && t.source == src && t.key_code is Some && t.key_code->0@ == code {
                t.count as int
            } else {
                0
            })
            &&& forall|o: InputOrigin, sh: bool, code: Seq<char>| spec_shifted_sum(s.take(i + 1),
                o, sh, code) == spec_shifted_sum(s.take(i), o, sh, code) + (if t.origin == o
                && t.source is Keyboard && t.key_code is Some && t.key_code->0@ == code
                && t.is_shifted == Some(sh) {
                t.count as int
            } else {
                0
            })
            &&& forall|o: InputOrigin, code: Seq<char>| spec_shortcut_sum(s.take(i + 1), o, code)
                == spec_shortcut_sum(s.take(i), o, code) + (if t.origin == o
                && t.source is Keyboard && t.shortcut is Some && t.shortcut->0@ == code {
                t.count as int
            } else {
                0
            })
        }),
{
    assert(s.take(i + 1).drop_last() =~= s.take(i));
    assert(s.take(i + 1).last() == s[i]);
}

/// Applies one drained batch of triggers to the store, one delta per
/// (origin, source) group and one lookup per application. Returns whether
/// anything changed persisted stats. The all-time total grows by exactly the
/// policy-allowed sum of the batch (clamped), and — on the same day — every
/// per-key, per-shortcut and per-button counter by exactly its share.
#[verifier::rlimit(60)]
pub fn process_triggers(storage: &mut MeritStorage, triggers: &Vec<Trigger>, now: LocalNow) -> (r: (
    bool,
    u64,
    u64,
))
    requires
        old(storage).wf(),
        now.wf(),
    ensures
        final(storage).wf(),
        final(storage).settings == old(storage).settings,
        final(storage).click_heatmap == old(storage).click_heatmap,
        final(storage).achievements == old(storage).achievements,
        final(storage).stats.total_merit == clamp64(old(storage).stats.total_merit
            + spec_allowed_sum(old(storage).settings, triggers@)),
        r.0 == (spec_allowed_sum(old(storage).settings, triggers@) > 0),
        // A batch never moves the day backwards: consecutive same-day batches
        // chain, each seeing the previous one's date.
        old(storage).stats.today.date == now.date ==> final(storage).stats.today.date
            == now.date,
        // The counted global deltas, for the animation accumulators.
        r.1 == (if old(storage).settings.enable_keyboard {
            clamp64(spec_group_sum(triggers@, InputOrigin::Global, InputSource::Keyboard))
        } else {
            0u64
        }),
        r.2 == (if old(storage).settings.enable_mouse_single {
            clamp64(spec_group_sum(triggers@, InputOrigin::Global, InputSource::MouseSingle))
        } else {
            0u64
        }),
        old(storage).stats.today.date == now.date ==> {
            let s = triggers@;
            let st = old(storage).settings;
            &&& (forall|code: Seq<char>| final(storage).stats.today.key_counts.spec_get(code)
                == clamp64(old(storage).stats.today.key_counts.spec_get(code) + (
            if st.enable_keyboard {
                spec_detail_sum(s, InputOrigin::Global, InputSource::Keyboard, code)
            } else {
                0
            }) + spec_detail_sum(s, InputOrigin::App, InputSource::Keyboard, code)))
            &&& (forall|code: Seq<char>| final(
                storage).stats.today.key_counts_unshifted.spec_get(code) == clamp64(old(
                storage).stats.today.key_counts_unshifted.spec_get(code) + (
            if st.enable_keyboard {
                spec_shifted_sum(s, InputOrigin::Global, false, code)
            } else {
                0
            }) + spec_shifted_sum(s, InputOrigin::App, false, code)))
            &&& (forall|code: Seq<char>| final(storage).stats.today.key_counts_shifted.spec_get(
                code) == clamp64(old(storage).stats.today.key_counts_shifted.spec_get(code) + (
            if st.enable_keyboard {
                spec_shifted_sum(s, InputOrigin::Global, true, code)
            } else {
                0
            }) + spec_shifted_sum(s, InputOrigin::App, true, code)))
            &&& (forall|code: Seq<char>| final(storage).stats.today.shortcut_counts.spec_get(code)
                == clamp64(old(storage).stats.today.shortcut_counts.spec_get(code) + (
            if st.enable_keyboard {
                spec_shortcut_sum(s, InputOrigin::Global, code)
            } else {
                0
            }) + spec_shortcut_sum(s, InputOrigin::App, code)))
            &&& (forall|code: Seq<char>| final(storage).stats.today.mouse_button_counts.spec_get(
                code) == clamp64(old(storage).stats.today.mouse_button_counts.spec_get(code) + (
            if st.enable_mouse_single {
                spec_detail_sum(s, InputOrigin::Global, InputSource::MouseSingle, code)
            } else {
                0
            }) + spec_detail_sum(s, InputOrigin::App, InputSource::MouseSingle, code)))
        },
{
    let ghost s = triggers@;
    let ghost st = old(storage).settings;
    let n = triggers.len();

    let mut gk: u64 = 0;
    let mut gm: u64 = 0;
    let mut ak: u64 = 0;
    let mut am: u64 = 0;
    let mut key_g = CounterMap::new();
    let mut key_a = CounterMap::new();
    let mut uns_g = CounterMap::new();
    let mut uns_a = CounterMap::new();
    let mut shf_g = CounterMap::new();
    let mut shf_a = CounterMap::new();
    let mut sc_g = CounterMap::new();
    let mut sc_a = CounterMap::new();
    let mut mb_g = CounterMap::new();
    let mut mb_a = CounterMap::new();
    let mut apps: Vec<(InputOrigin, InputSource, String, Option<String>, u64)> = Vec::new();

    let mut i: usize = 0;
    while i < n
        invariant
            0 <= i <= n,
            n == s.len(),
            triggers@ == s,
            *storage == *old(storage),
            gk == clamp64(spec_group_sum(s.take(i as int), InputOrigin::Global,
                InputSource::Keyboard)),
            gm == clamp64(spec_group_sum(s.take(i as int), InputOrigin::Global,
                InputSource::MouseSingle)),
            ak == clamp64(spec_group_sum(s.take(i as int), InputOrigin::App,
                InputSource::Keyboard)),
            am == clamp64(spec_group_sum(s.take(i as int), InputOrigin::App,
                InputSource::MouseSingle)),
            key_g.wf() && key_a.wf() && uns_g.wf() && uns_a.wf() && shf_g.wf() && shf_a.wf()
                && sc_g.wf() && sc_a.wf() && mb_g.wf() && mb_a.wf(),
            forall|code: Seq<char>| key_g.spec_get(code) == clamp64(spec_detail_sum(
                s.take(i as int), InputOrigin::Global, InputSource::Keyboard, code)),
            forall|code: Seq<char>| key_a.spec_get(code) == clamp64(spec_detail_sum(
                s.take(i as int), InputOrigin::App, InputSource::Keyboard, code)),
            forall|code: Seq<char>| uns_g.spec_get(code) == clamp64(spec_shifted_sum(
                s.take(i as int), InputOrigin::Global, false, code)),
            forall|code: Seq<char>| uns_a.spec_get(code) == clamp64(spec_shifted_sum(
                s.take(i as int), InputOrigin::App, false, code)),
            forall|code: Seq<char>| shf_g.spec_get(code) == clamp64(spec_shifted_sum(
                s.take(i as int), InputOrigin::Global, true, code)),
            forall|code: Seq<char>| shf_a.spec_get(code) == clamp64(spec_shifted_sum(
                s.take(i as int), InputOrigin::App, true, code)),
            forall|code: Seq<char>| sc_g.spec_get(code) == clamp64(spec_shortcut_sum(
                s.take(i as int), InputOrigin::Global, code)),
            forall|code: Seq<char>| sc_a.spec_get(code) == clamp64(spec_shortcut_sum(
                s.take(i as int), InputOrigin::App, code)),
            forall|code: Seq<char>| mb_g.spec_get(code) == clamp64(spec_detail_sum(
                s.take(i as int), InputOrigin::Global, InputSource::MouseSingle, code)),
            forall|code: Seq<char>| mb_a.spec_get(code) == clamp64(spec_detail_sum(
                s.take(i as int), InputOrigin::App, InputSource::MouseSingle, code)),
        decreases n - i,
    {
        proof {
            lemma_sums_step(st, s, i as int);
            lemma_sums_nonneg(st, s.take(i as int));
            assert forall|o: InputOrigin, src: InputSource, code: Seq<char>|
                0 <= #[trigger] spec_detail_sum(s.take(i as int), o, src, code) by {
                lemma_detail_le_group(s.take(i as int), o, src, code);
                lemma_sums_nonneg(st, s.take(i as int));
            }
            assert forall|o: InputOrigin, sh: bool, code: Seq<char>|
                0 <= #[trigger] spec_shifted_sum(s.take(i as int), o, sh, code) by {
                lemma_shifted_le_group(s.take(i as int), o, sh, code);
            }
            assert forall|o: InputOrigin, code: Seq<char>|
                0 <= #[trigger] spec_shortcut_sum(s.take(i as int), o, code) by {
                lemma_shortcut_le_group(s.take(i as int), o, code);
            }
        }
        let t = &triggers[i];
        match (t.origin, t.source) {
            (InputOrigin::Global, InputSource::Keyboard) => {
                gk = gk.saturating_add(t.count);
            },
            (InputOrigin::Global, InputSource::MouseSingle) => {
                gm = gm.saturating_add(t.count);
            },
            (InputOrigin::App, InputSource::Keyboard) => {
                ak = ak.saturating_add(t.count);
            },
            (InputOrigin::App, InputSource::MouseSingle) => {
                am = am.saturating_add(t.count);
            },
        }
        if let Some(code) = &t.key_code {
            match t.source {
                InputSource::Keyboard => {
                    match t.origin {
                        InputOrigin::Global => {
                            key_g.add(code.as_str(), t.count);
                        },
                        InputOrigin::App => {
                            key_a.add(code.as_str(), t.count);
                        },
                    }
                    if let Some(sh) = t.is_shifted {
                        if sh {
                            match t.origin {
                                InputOrigin::Global => {
                                    shf_g.add(code.as_str(), t.count);
                                },
                                InputOrigin::App => {
                                    shf_a.add(code.as_str(), t.count);
                                },
                            }
                        } else {
                            match t.origin {
                                InputOrigin::Global => {
                                    uns_g.add(code.as_str(), t.count);
                                },
                                InputOrigin::App => {
                                    uns_a.add(code.as_str(), t.count);
                                },
                            }
                        }
                    }
                },
                InputSource::MouseSingle => {
                    match t.origin {
                        InputOrigin::Global => {
                            mb_g.add(code.as_str(), t.count);
                        },
                        InputOrigin::App => {
                            mb_a.add(code.as_str(), t.count);
                        },
                    }
                },
            }
        }
        if matches!(t.source, InputSource::Keyboard) {
            if let Some(sc) = &t.shortcut {
                match t.origin {
                    InputOrigin::Global => {
                        sc_g.add(sc.as_str(), t.count);
                    },
                    InputOrigin::App => {
                        sc_a.add(sc.as_str(), t.count);
                    },
                }
            }
        }
        if t.count > 0 {
            if let Some(app) = &t.app {
                let name = match &app.name {
                    Some(nm) => Some(copy_str(nm.as_str())),
                    None => None,
                };
                apps.push((t.origin, t.source, copy_str(app.id.as_str()), name, t.count));
            }
        }
        i += 1;
    }
    proof {
        assert(s.take(n as int) =~= s);
        lemma_group_partition(st, s);
        lemma_sums_nonneg(st, s);
        assert forall|o: InputOrigin, src: InputSource, code: Seq<char>|
            0 <= #[trigger] spec_detail_sum(s, o, src, code) <= spec_group_sum(s, o, src) by {
            lemma_detail_le_group(s, o, src, code);
        }
        assert forall|o: InputOrigin, sh: bool, code: Seq<char>|
            0 <= #[trigger] spec_shifted_sum(s, o, sh, code) <= spec_group_sum(s, o,
            InputSource::Keyboard) by {
            lemma_shifted_le_group(s, o, sh, code);
        }
        assert forall|o: InputOrigin, code: Seq<char>|
            0 <= #[trigger] spec_shortcut_sum(s, o, code) <= spec_group_sum(s, o,
            InputSource::Keyboard) by {
            lemma_shortcut_le_group(s, o, code);
        }
    }

    let kb_g = KeyboardCounts {
        key_counts: Some(key_g),
        key_counts_unshifted: Some(uns_g),
        key_counts_shifted: Some(shf_g),
        shortcut_counts: Some(sc_g),
    };
    let kb_a = KeyboardCounts {
        key_counts: Some(key_a),
        key_counts_unshifted: Some(uns_a),
        key_counts_shifted: Some(shf_a),
        shortcut_counts: Some(sc_a),
    };
    let ms_g = MouseCounts { mouse_button_counts: Some(mb_g) };
    let ms_a = MouseCounts { mouse_button_counts: Some(mb_a) };

    let a1 = storage.add_merit_silent(InputOrigin::Global, InputSource::Keyboard, gk, Some(&kb_g),
        None, now);
    let a2 = storage.add_merit_silent(InputOrigin::Global, InputSource::MouseSingle, gm, None,
        Some(&ms_g), now);
    let a3 = storage.add_merit_silent(InputOrigin::App, InputSource::Keyboard, ak, Some(&kb_a),
        None, now);
    let a4 = storage.add_merit_silent(InputOrigin::App, InputSource::MouseSingle, am, None,
        Some(&ms_a), now);
    let dirty = a1 || a2 || a3 || a4;

    let ghost mid = *storage;
    proof {
        if old(storage).stats.today.date == now.date {
            assert(mid.stats.today.date == now.date);
        }
    }
    let m = apps.len();
    let mut j: usize = 0;
    while j < m
        invariant
            0 <= j <= m,
            m == apps@.len(),
            storage.wf(),
            now.wf(),
            storage.settings == mid.settings,
            storage.click_heatmap == mid.click_heatmap,
            storage.achievements == mid.achievements,
            storage.stats.total_merit == mid.stats.total_merit,
            old(storage).stats.today.date == now.date ==> mid.stats.today.date == now.date,
            old(storage).stats.today.date == now.date ==> {
                &&& storage.stats.today == (crate::daily::DailyStats {
                    app_input_counts: storage.stats.today.app_input_counts,
                    ..mid.stats.today
                })
                &&& storage.stats.history@ == mid.stats.history@
            },
        decreases m - j,
    {
        proof {
            if old(storage).stats.today.date == now.date {
                assert(storage.stats.today.date == mid.stats.today.date);
            }
        }
        let (origin, source, id, name, count) = &apps[j];
        let ctx = AppContext {
            id: copy_str(id.as_str()),
            name: match name {
                Some(nm) => Some(copy_str(nm.as_str())),
                None => None,
            },
        };
        storage.add_app_merit_silent(*origin, *source, *count, Some(&ctx), now);
        j += 1;
    }
    let anim_keyboard = if storage.settings.enable_keyboard {
        gk
    } else {
        0
    };
    let anim_mouse = if storage.settings.enable_mouse_single {
        gm
    } else {
        0
    };
    (dirty, anim_keyboard, anim_mouse)
}

} // verus!

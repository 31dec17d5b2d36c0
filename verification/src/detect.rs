//! Reporting the built-in openers for a platform, with whether each is
//! installed.

use vstd::prelude::*;

use crate::command::{bundle_lookup, bundle_root, is_command_available, lookup_name};
use crate::host::{answer_view, found_on_path};
use crate::opener::PathOpener;
use crate::registry::{
    find_entry, id_slot, known_apps, lemma_registry_slots, registry, Detection, KnownApp, Os,
    PlatformEntry,
};

verus! {

/// The apps that have an entry for `os`, each with that entry, in order.
pub open spec fn offered(apps: Seq<KnownApp>, os: Os) -> Seq<(KnownApp, PlatformEntry)>
    decreases apps.len(),
{
    if apps.len() == 0 {
        Seq::empty()
    } else {
        let prev = offered(apps.drop_last(), os);
        match find_entry(apps.last().platforms@, os) {
            Some(e) => prev.push((apps.last(), e)),
            None => prev,
        }
    }
}

/// That looking for `bundle` among the installed apps came back
/// `installed`: the bundle lookup found a root exactly when it is.
pub open spec fn bundle_installed(bundle: Seq<char>, installed: bool) -> bool {
    exists|root: Option<Option<Seq<char>>>| #[trigger] bundle_lookup(bundle, root) && installed == (root is Some)
}

/// The availability reported through `entry` on `os`: always for an app
/// that ships with the OS, never where detection is not implemented; for a
/// bundle check, the answer of the bundle lookup on macOS and never
/// elsewhere; for a `PATH` lookup, the answer of a lookup of the command's
/// program (its first word).
pub open spec fn availability_answer(available: bool, entry: PlatformEntry, os: Os) -> bool {
    match entry.detection {
        Detection::AlwaysAvailable => available,
        Detection::AlwaysUnavailable => !available,
        Detection::MacAppBundle(bundle) => if os == Os::MacOS {
            bundle_installed(bundle@, available)
        } else {
            !available
        },
        Detection::PathLookup => found_on_path(lookup_name(entry.command@), available),
    }
}

/// Whether `o` reports `app` through its entry `entry` for `os`: the app's
/// id, name and metadata, the entry's command, a target flag set exactly for
/// editors, the preference fields unset, and the availability the
/// detection method answered.
pub open spec fn reports(o: PathOpener, app: KnownApp, entry: PlatformEntry, os: Os) -> bool {
    &&& o.app_id@ == app.app_id@
    &&& o.name@ == app.name@
    &&& o.command@ == entry.command@
    &&& o.accepts_directories == app.accepts_directories
    &&& o.file_support@ == app.file_support@
    &&& o.accepts_target == (app.editor is Some)
    &&& !o.is_default
    &&& !o.is_hidden
    &&& o.sort_order is None
    &&& availability_answer(o.is_available, entry, os)
}

/// Whether the app behind `entry` is installed: what the detection method
/// decides, or the answer of the probe it calls for (which answer the
/// machine gives is not promised).
pub fn is_available(os: Os, entry: &PlatformEntry) -> (r: bool)
    ensures
        availability_answer(r, *entry, os),
{
    match entry.detection {
        Detection::PathLookup => is_command_available(entry.command),
        Detection::AlwaysAvailable => true,
        Detection::AlwaysUnavailable => false,
        Detection::MacAppBundle(bundle) => if os == Os::MacOS {
            let root = bundle_root(bundle);
            let r = root.is_some();
            assert(bundle_lookup(bundle@, answer_view(root)) && r == (answer_view(root) is Some));
            r
        } else {
            false
        },
    }
}

/// The opener reported for `app` through `entry`, with the given
/// availability.
pub fn opener_from(app: &KnownApp, entry: &PlatformEntry, available: bool, os: Os) -> (o: PathOpener)
    requires
        availability_answer(available, *entry, os),
    ensures
        reports(o, *app, *entry, os),
        o.is_available == available,
{
    PathOpener {
        app_id: app.app_id.to_owned(),
        name: app.name.to_owned(),
        command: entry.command.to_owned(),
        is_available: available,
        accepts_directories: app.accepts_directories,
        file_support: app.file_support.to_owned(),
        accepts_target: app.editor.is_some(),
        is_default: false,
        is_hidden: false,
        sort_order: None,
    }
}

/// Every built-in opener that has an entry for `os`, in registry order, with
/// whether it is installed. An unsupported platform (`None`) has none.
pub fn detect_installed_apps(os: Option<Os>) -> (r: Vec<PathOpener>)
    ensures
        match os {
            None => r@.len() == 0,
            Some(o) => {
                &&& r@.len() == offered(registry(), o).len()
                &&& forall|k: int|
                    0 <= k < r@.len() ==> reports(
                        #[trigger] r@[k],
                        offered(registry(), o)[k].0,
                        offered(registry(), o)[k].1,
                        o,
                    )
                &&& forall|k: int|
                    0 <= k < r@.len() ==> (#[trigger] r@[k]).app_id@ == offered(registry(), o)[k].0.app_id@
                        && r@[k].command@ == find_entry(
                        offered(registry(), o)[k].0.platforms@,
                        o,
                    ).unwrap().command@
            },
        },
{
    let mut out: Vec<PathOpener> = Vec::new();
    match os {
        None => out,
        Some(o) => {
            let apps = known_apps();
            let n = apps.len();
            let mut i: usize = 0;
            while i < n
                invariant
                    apps@ == registry(),
                    n == apps@.len(),
                    i <= n,
                    out@.len() == offered(apps@.subrange(0, i as int), o).len(),
                    forall|k: int|
                        0 <= k < out@.len() ==> reports(
                            #[trigger] out@[k],
                            offered(apps@.subrange(0, i as int), o)[k].0,
                            offered(apps@.subrange(0, i as int), o)[k].1,
                            o,
                        ),
                decreases n - i,
            {
                let ghost sub = apps@.subrange(0, i + 1);
                assert(sub.drop_last() =~= apps@.subrange(0, i as int));
                assert(sub.last() == apps@[i as int]);
                let app = apps[i];
                match app.entry_for(o) {
                    Some(entry) => {
                        let available = is_available(o, &entry);
                        let opener = opener_from(&app, &entry, available, o);
                        out.push(opener);
                    },
                    None => {},
                }
                i = i + 1;
            }
            assert(apps@.subrange(0, n as int) =~= apps@);
            proof {
                lemma_offered_entry_is_platform_entry(registry(), o);
            }
            out
        },
    }
}

/// Every reported pair is an app of `apps` with its entry for `os`.
pub proof fn lemma_offered_from(apps: Seq<KnownApp>, os: Os)
    ensures
        forall|k: int|
            0 <= k < offered(apps, os).len() ==> exists|i: int|
                0 <= i < apps.len() && (#[trigger] offered(apps, os)[k]).0 == apps[i] && find_entry(
                    apps[i].platforms@,
                    os,
                ) == Some(offered(apps, os)[k].1),
    decreases apps.len(),
{
    if apps.len() > 0 {
        let init = apps.drop_last();
        lemma_offered_from(init, os);
        assert forall|k: int| 0 <= k < offered(apps, os).len() implies exists|i: int|
            0 <= i < apps.len() && (#[trigger] offered(apps, os)[k]).0 == apps[i] && find_entry(
                apps[i].platforms@,
                os,
            ) == Some(offered(apps, os)[k].1) by {
            if k < offered(init, os).len() {
                assert(offered(apps, os)[k] == offered(init, os)[k]);
                let i = choose|i: int|
                    0 <= i < init.len() && (#[trigger] offered(init, os)[k]).0 == init[i]
                        && find_entry(init[i].platforms@, os) == Some(offered(init, os)[k].1);
                assert(apps[i] == init[i]);
            } else {
                assert(apps[apps.len() - 1] == apps.last());
            }
        }
    }
}

/// Obsidian's detection is not implemented off macOS, so there it is always
/// reported as unavailable.
pub proof fn lemma_obsidian_unavailable_off_macos(os: Os, r: Seq<PathOpener>)
    requires
        os != Os::MacOS,
        r.len() == offered(registry(), os).len(),
        forall|k: int|
            0 <= k < r.len() ==> reports(
                #[trigger] r[k],
                offered(registry(), os)[k].0,
                offered(registry(), os)[k].1,
                os,
            ),
    ensures
        forall|k: int| 0 <= k < r.len() && (#[trigger] r[k]).app_id@ == "obsidian"@ ==> !r[k].is_available,
{
    lemma_offered_from(registry(), os);
    lemma_registry_slots();
    assert forall|k: int| 0 <= k < r.len() && (#[trigger] r[k]).app_id@ == "obsidian"@ implies !r[k].is_available by {
        let pair = offered(registry(), os)[k];
        let i = choose|i: int|
            0 <= i < registry().len() && (#[trigger] offered(registry(), os)[k]).0 == registry()[i]
                && find_entry(registry()[i].platforms@, os) == Some(offered(registry(), os)[k].1);
        assert(id_slot(registry()[i].app_id@) == i);
        assert(id_slot("obsidian"@) == 19);
        assert(i == 19);
        let ps = registry()[19].platforms@;
        assert(ps.drop_first()[0] == ps[1]);
        assert(ps.drop_first().drop_first()[0] == ps[2]);
        reveal_with_fuel(find_entry, 3);
        assert(find_entry(ps, os) == Some(offered(registry(), os)[k].1));
        assert(offered(registry(), os)[k].1.detection is AlwaysUnavailable);
        assert(reports(r[k], pair.0, pair.1, os));
    }
}

/// Each reported pair is an app with its first platform entry for `os`,
/// the one `find_entry` gives.
pub proof fn lemma_offered_entry_is_platform_entry(apps: Seq<KnownApp>, os: Os)
    ensures
        forall|k: int|
            0 <= k < offered(apps, os).len() ==> find_entry(
                (#[trigger] offered(apps, os)[k]).0.platforms@,
                os,
            ) == Some(offered(apps, os)[k].1),
{
    lemma_offered_from(apps, os);
    assert forall|k: int| 0 <= k < offered(apps, os).len() implies find_entry(
        (#[trigger] offered(apps, os)[k]).0.platforms@,
        os,
    ) == Some(offered(apps, os)[k].1) by {
        let i = choose|i: int|
            0 <= i < apps.len() && (#[trigger] offered(apps, os)[k]).0 == apps[i] && find_entry(
                apps[i].platforms@,
                os,
            ) == Some(offered(apps, os)[k].1);
    }
}

} // verus!
